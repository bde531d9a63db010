use vstd::prelude::*;

use crate::bindings::{captures, json_object, json_object_of, pairs_view, regex_captures};
use crate::command::CommandPlugin;

verus! {

/// A chat line of the server log: `[HH:MM:SS] [thread/LEVEL]: <user> message`.
pub const CHAT_PATTERN: &'static str =
    r"^\[(?P<time>\d{2}:\d{2}:\d{2})] \[(?P<thread>[^/]+)/(?P<level>[^]]+)]: <(?P<user>[^>]+)> (?P<message>.+)$";

/// The capture group of the user in a chat line.
pub const USER_GROUP: usize = 4;

/// The capture group of the message in a chat line.
pub const MESSAGE_GROUP: usize = 5;

/// The user and the command of a chat line whose message starts with `.`.
pub open spec fn chat_command(line: Seq<char>) -> Option<(Seq<char>, Seq<char>)> {
    match regex_captures(CHAT_PATTERN@, line) {
        Some(g) => if g.len() > MESSAGE_GROUP && g[USER_GROUP as int] is Some && g[MESSAGE_GROUP as int] is Some
            && g[MESSAGE_GROUP as int].unwrap().len() > 0 && g[MESSAGE_GROUP as int].unwrap()[0] == '.' {
            Some((g[USER_GROUP as int].unwrap(), g[MESSAGE_GROUP as int].unwrap().drop_first()))
        } else {
            None
        },
        None => None,
    }
}

/// The server command that tells `user`, in red, that `command` is unknown.
pub open spec fn unknown_command_reply(user: Seq<char>, command: Seq<char>) -> Seq<char> {
    "tellraw "@ + user + " "@ + json_object_of(
        seq![("text"@, "Unknown command: "@ + command), ("color"@, "red"@)],
    )
}

/// Answers chat messages that look like commands (`.name`) with an
/// "Unknown command" message to their author; lines pass through unchanged.
pub struct ExamplePlugin;

fn reply_to(user: &str, command: &str) -> (r: String)
    ensures
        r@ == unknown_command_reply(user@, command@),
{
    let mut text = String::from_str("Unknown command: ");
    text.append(command);
    let mut members: Vec<(String, String)> = Vec::new();
    members.push((String::from_str("text"), text));
    members.push((String::from_str("color"), String::from_str("red")));
    let object = json_object(&members);
    let mut reply = String::from_str("tellraw ");
    reply.append(user);
    reply.append(" ");
    reply.append(object.as_str());
    proof {
        reveal_strlit("tellraw ");
        reveal_strlit(" ");
        reveal_strlit("Unknown command: ");
        reveal_strlit("text");
        reveal_strlit("color");
        reveal_strlit("red");
        assert(pairs_view(members@) =~= seq![
            ("text"@, "Unknown command: "@ + command@),
            ("color"@, "red"@),
        ]);
    }
    reply
}

impl CommandPlugin for ExamplePlugin {
    open spec fn is_specified(&self) -> bool {
        true
    }

    open spec fn transform(&self, line: Seq<char>) -> Seq<char> {
        line
    }

    fn process(&self, value: String, input: &mut Vec<String>) -> (r: String)
        ensures
            match chat_command(value@) {
                Some((user, command)) => {
                    &&& final(input)@.len() == old(input)@.len() + 1
                    &&& final(input)@.last()@ == unknown_command_reply(user, command)
                },
                None => final(input)@ == old(input)@,
            },
    {
        let groups = captures(CHAT_PATTERN, value.as_str());
        if let Some(g) = groups {
            if g.len() > MESSAGE_GROUP {
                if let (Some(user), Some(message)) = (&g[USER_GROUP], &g[MESSAGE_GROUP]) {
                    let m = message.as_str();
                    let n = m.unicode_len();
                    if n > 0 && m.get_char(0) == '.' {
                        let command = m.substring_char(1, n);
                        let reply = reply_to(user.as_str(), command);
                        input.push(reply);
                        assert(input@.subrange(0, old(input)@.len() as int) =~= old(input)@);
                        return value;
                    }
                }
            }
        }
        value
    }
}

} // verus!
