use pacmine::channel::{receiver_hooks, sender_hooks, LossyQueue};
use pacmine::command::{fold_chain, CommandLoader, CommandPlugin, RELAY_CAPACITY};
use pacmine::example_plugin::ExamplePlugin;

struct Suffix(&'static str);

impl CommandPlugin for Suffix {
    fn process(&self, value: String, _input: &mut Vec<String>) -> String {
        let mut v = value;
        v.push_str(self.0);
        v
    }
}

#[test]
fn hooks_pass_values_through() {
    assert_eq!(sender_hooks(7u32), 7);
    assert_eq!(receiver_hooks(String::from("a")), "a");
}

#[test]
fn lossy_queue_overflow_reads_recent() {
    // capacity 3, five lines, stalled reader: the first two are gone
    let mut q: LossyQueue<u32> = LossyQueue::new(3);
    assert_eq!(q.push(0), None);
    assert_eq!(q.push(1), None);
    assert_eq!(q.push(2), None);
    assert!(q.is_full());
    assert_eq!(q.push(3), Some(0));
    assert_eq!(q.push(4), Some(1));
    assert_eq!(q.len(), 3);
    assert_eq!(q.pop(), Some(2));
    assert_eq!(q.pop(), Some(3));
    assert_eq!(q.pop(), Some(4));
    assert_eq!(q.pop(), None);
}

#[test]
fn lossy_queue_with_capacity_thirty_two() {
    let mut q: LossyQueue<u32> = LossyQueue::new(32);
    for i in 0..40 {
        q.push(i);
    }
    assert_eq!(q.capacity(), 32);
    assert_eq!(q.pop(), Some(8));
}

#[test]
fn fold_applies_plugins_in_order() {
    let chain = vec![Suffix("A"), Suffix("B")];
    let mut input = Vec::new();
    assert_eq!(fold_chain(&chain, String::from("x"), &mut input), "xAB");
    assert!(input.is_empty());
}

#[test]
fn empty_chain_leaves_line_unchanged() {
    let chain: Vec<Suffix> = Vec::new();
    let mut input = Vec::new();
    assert_eq!(fold_chain(&chain, String::from("x"), &mut input), "x");
}

#[test]
fn hot_swap_keeps_in_flight_snapshot() {
    let mut loader: CommandLoader<Suffix> = CommandLoader::new();
    loader.register(1, vec![Suffix("A"), Suffix("B")]);
    let in_flight = loader.snapshot(1);
    loader.register(1, vec![Suffix("C")]);
    let later = loader.snapshot(1);
    let mut input = Vec::new();
    assert_eq!(fold_chain(&in_flight, String::from("x"), &mut input), "xAB");
    assert_eq!(fold_chain(&later, String::from("x"), &mut input), "xC");
}

#[test]
fn load_gives_an_empty_chain_and_an_empty_relay() {
    let mut loader: CommandLoader<Suffix> = CommandLoader::new();
    assert_eq!(loader.snapshot(9).len(), 0);
    let mut relay = loader.load(9);
    assert_eq!(relay.runner_id(), 9);
    assert_eq!(relay.len(), 0);
    assert_eq!(relay.recv(), None);
    assert_eq!(loader.snapshot(9).len(), 0);
    loader.register(9, vec![Suffix("A")]);
    let _ = loader.load(9);
    assert_eq!(loader.snapshot(9).len(), 1);
}

#[test]
fn relay_folds_through_the_chain() {
    let mut loader: CommandLoader<Suffix> = CommandLoader::new();
    loader.register(1, vec![Suffix("A"), Suffix("B")]);
    let mut relay = loader.load(1);
    let mut input = Vec::new();
    let chain = loader.snapshot(1);
    assert_eq!(relay.step(&chain, String::from("x"), &mut input), None);
    assert_eq!(relay.recv(), Some(String::from("xAB")));
}

#[test]
fn relay_passes_lines_unchanged_through_empty_chain() {
    let mut loader: CommandLoader<Suffix> = CommandLoader::new();
    let mut relay = loader.load(2);
    let mut input = Vec::new();
    let chain = loader.snapshot(2);
    relay.step(&chain, String::from("hello"), &mut input);
    assert_eq!(relay.recv(), Some(String::from("hello")));
}

#[test]
fn relay_keeps_latest_thirty_two() {
    let mut loader: CommandLoader<Suffix> = CommandLoader::new();
    loader.register(3, vec![Suffix("!")]);
    let mut relay = loader.load(3);
    let mut input = Vec::new();
    for i in 0..40 {
        let chain = loader.snapshot(3);
        let dropped = relay.step(&chain, format!("{i}"), &mut input);
        assert_eq!(dropped.is_some(), i >= 32);
    }
    assert_eq!(relay.len(), RELAY_CAPACITY);
    for i in 8..40 {
        assert_eq!(relay.recv(), Some(format!("{i}!")));
    }
    assert_eq!(relay.recv(), None);
}

#[test]
fn relay_in_order_without_overflow() {
    let mut loader: CommandLoader<Suffix> = CommandLoader::new();
    loader.register(4, vec![Suffix("-")]);
    let mut relay = loader.load(4);
    let mut input = Vec::new();
    let mut out = Vec::new();
    for i in 0..100 {
        let chain = loader.snapshot(4);
        assert_eq!(relay.step(&chain, format!("{i}"), &mut input), None);
        if i % 5 == 4 {
            while let Some(line) = relay.recv() {
                out.push(line);
            }
        }
    }
    let expected: Vec<String> = (0..100).map(|i| format!("{i}-")).collect();
    assert_eq!(out, expected);
}

#[test]
fn relay_sees_replaced_chain_for_later_lines() {
    let mut loader: CommandLoader<Suffix> = CommandLoader::new();
    loader.register(5, vec![Suffix("A"), Suffix("B")]);
    let mut relay = loader.load(5);
    let mut input = Vec::new();
    let in_flight = loader.snapshot(5);
    loader.register(5, vec![Suffix("C")]);
    relay.step(&in_flight, String::from("x"), &mut input);
    let later = loader.snapshot(5);
    relay.step(&later, String::from("y"), &mut input);
    assert_eq!(relay.recv(), Some(String::from("xAB")));
    assert_eq!(relay.recv(), Some(String::from("yC")));
}

#[test]
fn relay_drops_oldest_when_full() {
    let mut loader: CommandLoader<Suffix> = CommandLoader::new();
    loader.register(6, vec![Suffix("!")]);
    let mut relay = loader.load(6);
    let mut input = Vec::new();
    let chain = loader.snapshot(6);
    for i in 0..32 {
        assert_eq!(relay.step(&chain, format!("l{i}"), &mut input), None);
    }
    assert_eq!(
        relay.step(&chain, String::from("new"), &mut input),
        Some(String::from("l0!"))
    );
    assert_eq!(relay.recv(), Some(String::from("l1!")));
}

#[test]
fn example_plugin_answers_unknown_command() {
    let plugin = ExamplePlugin;
    let mut input = Vec::new();
    let line = String::from("[12:34:56] [Server thread/INFO]: <Steve> .home");
    let out = plugin.process(line.clone(), &mut input);
    assert_eq!(out, line);
    assert_eq!(
        input,
        vec![String::from(
            r#"tellraw Steve {"color":"red","text":"Unknown command: home"}"#
        )]
    );
}

#[test]
fn example_plugin_escapes_the_command() {
    let plugin = ExamplePlugin;
    let mut input = Vec::new();
    plugin.process(
        String::from(r#"[01:02:03] [Server thread/INFO]: <Alex> .say "hi""#),
        &mut input,
    );
    assert_eq!(
        input,
        vec![String::from(
            r#"tellraw Alex {"color":"red","text":"Unknown command: say \"hi\""}"#
        )]
    );
}

#[test]
fn example_plugin_ignores_plain_chat_and_other_lines() {
    let plugin = ExamplePlugin;
    let mut input = Vec::new();
    plugin.process(
        String::from("[12:34:56] [Server thread/INFO]: <Steve> hello"),
        &mut input,
    );
    plugin.process(String::from("Done (3.2s)! For help, type \"help\""), &mut input);
    assert!(input.is_empty());
}
