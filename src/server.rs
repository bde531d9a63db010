use std::cmp::Ordering;
use vstd::prelude::*;

use crate::bindings::{decimal_u8, parse_u8, trim, trimmed_of};

verus! {

/// A server feature that a server kind may lack.
#[derive(Clone, Copy, PartialEq, Eq, Structural, Debug)]
pub enum NotImplemented {
    Update,
    Runtime,
    Plugin,
}

impl NotImplemented {
    pub fn message(&self) -> (r: String)
        ensures
            *self == NotImplemented::Update ==> r@ == "Update manager not implemented"@,
            *self == NotImplemented::Runtime ==> r@ == "Runtime manager not implemented"@,
            *self == NotImplemented::Plugin ==> r@ == "Plugin manager not implemented"@,
    {
        match self {
            NotImplemented::Update => String::from_str("Update manager not implemented"),
            NotImplemented::Runtime => String::from_str("Runtime manager not implemented"),
            NotImplemented::Plugin => String::from_str("Plugin manager not implemented"),
        }
    }
}

/// The release channel of a server version.
pub enum McChannel {
    /// A numbered release: major, minor, patch.
    Release(u8, u8, u8),
    /// A snapshot, by name.
    Snapshot(String),
    Unknown,
}

/// The edition of a server and the name of its distribution, such as
/// `Java("Vanilla")` or `Bedrock("BDS")`.
pub enum McType {
    Java(String),
    Bedrock(String),
}

/// A server version: its edition and its channel.
pub struct McVersion {
    pub server_type: McType,
    pub channel: McChannel,
}

/// A plugin as a plugin repository lists it.
pub struct ServerPlugin {
    pub id: usize,
    pub name: String,
    pub version: String,
    pub description: String,
}

pub open spec fn same_type(a: McType, b: McType) -> bool {
    match (a, b) {
        (McType::Java(x), McType::Java(y)) => x@ == y@,
        (McType::Bedrock(x), McType::Bedrock(y)) => x@ == y@,
        _ => false,
    }
}

pub open spec fn same_channel(a: McChannel, b: McChannel) -> bool {
    match (a, b) {
        (McChannel::Release(a1, a2, a3), McChannel::Release(b1, b2, b3)) => a1 == b1 && a2 == b2
            && a3 == b3,
        (McChannel::Snapshot(x), McChannel::Snapshot(y)) => x@ == y@,
        (McChannel::Unknown, McChannel::Unknown) => true,
        _ => false,
    }
}

/// Whether one version is Java and the other Bedrock.
pub open spec fn editions_differ(a: McType, b: McType) -> bool {
    match (a, b) {
        (McType::Java(_), McType::Bedrock(_)) => true,
        (McType::Bedrock(_), McType::Java(_)) => true,
        _ => false,
    }
}

/// Compares two integers.
pub open spec fn cmp_u8(a: u8, b: u8) -> Ordering {
    if a < b {
        Ordering::Less
    } else if a > b {
        Ordering::Greater
    } else {
        Ordering::Equal
    }
}

/// How two versions compare: equal versions are equal; Java and Bedrock
/// versions do not compare; releases compare by major, then minor, then
/// patch; nothing else compares.
pub open spec fn version_cmp(a: McVersion, b: McVersion) -> Option<Ordering> {
    if same_type(a.server_type, b.server_type) && same_channel(a.channel, b.channel) {
        Some(Ordering::Equal)
    } else if editions_differ(a.server_type, b.server_type) {
        None
    } else {
        match (a.channel, b.channel) {
            (McChannel::Release(a1, a2, a3), McChannel::Release(b1, b2, b3)) => if a1 != b1 {
                Some(cmp_u8(a1, b1))
            } else if a2 != b2 {
                Some(cmp_u8(a2, b2))
            } else {
                Some(cmp_u8(a3, b3))
            },
            _ => None,
        }
    }
}

fn same_text(a: &String, b: &String) -> (r: bool)
    ensures
        r == (a@ == b@),
{
    a.eq(b)
}

impl PartialEq for McType {
    fn eq(&self, other: &McType) -> (r: bool) {
        match (self, other) {
            (McType::Java(x), McType::Java(y)) => same_text(x, y),
            (McType::Bedrock(x), McType::Bedrock(y)) => same_text(x, y),
            _ => false,
        }
    }
}

impl vstd::std_specs::cmp::PartialEqSpecImpl for McType {
    open spec fn obeys_eq_spec() -> bool {
        true
    }

    open spec fn eq_spec(&self, other: &McType) -> bool {
        same_type(*self, *other)
    }
}

impl PartialEq for McChannel {
    fn eq(&self, other: &McChannel) -> (r: bool) {
        match (self, other) {
            (McChannel::Release(a1, a2, a3), McChannel::Release(b1, b2, b3)) => *a1 == *b1 && *a2
                == *b2 && *a3 == *b3,
            (McChannel::Snapshot(x), McChannel::Snapshot(y)) => same_text(x, y),
            (McChannel::Unknown, McChannel::Unknown) => true,
            _ => false,
        }
    }
}

impl vstd::std_specs::cmp::PartialEqSpecImpl for McChannel {
    open spec fn obeys_eq_spec() -> bool {
        true
    }

    open spec fn eq_spec(&self, other: &McChannel) -> bool {
        same_channel(*self, *other)
    }
}

impl PartialEq for McVersion {
    fn eq(&self, other: &McVersion) -> (r: bool) {
        self.server_type == other.server_type && self.channel == other.channel
    }
}

impl vstd::std_specs::cmp::PartialEqSpecImpl for McVersion {
    open spec fn obeys_eq_spec() -> bool {
        true
    }

    open spec fn eq_spec(&self, other: &McVersion) -> bool {
        same_type(self.server_type, other.server_type) && same_channel(self.channel, other.channel)
    }
}

fn compare_u8(a: u8, b: u8) -> (r: Ordering)
    ensures
        r == cmp_u8(a, b),
{
    if a < b {
        Ordering::Less
    } else if a > b {
        Ordering::Greater
    } else {
        Ordering::Equal
    }
}

impl PartialOrd for McVersion {
    fn partial_cmp(&self, other: &McVersion) -> (r: Option<Ordering>) {
        if self == other {
            return Some(Ordering::Equal);
        }
        let differ = match (&self.server_type, &other.server_type) {
            (McType::Java(_), McType::Bedrock(_)) => true,
            (McType::Bedrock(_), McType::Java(_)) => true,
            _ => false,
        };
        if differ {
            return None;
        }
        match (&self.channel, &other.channel) {
            (McChannel::Release(a1, a2, a3), McChannel::Release(b1, b2, b3)) => {
                if *a1 != *b1 {
                    Some(compare_u8(*a1, *b1))
                } else if *a2 != *b2 {
                    Some(compare_u8(*a2, *b2))
                } else {
                    Some(compare_u8(*a3, *b3))
                }
            },
            _ => None,
        }
    }
}

impl vstd::std_specs::cmp::PartialOrdSpecImpl for McVersion {
    open spec fn obeys_partial_cmp_spec() -> bool {
        true
    }

    open spec fn partial_cmp_spec(&self, other: &McVersion) -> Option<Ordering> {
        version_cmp(*self, *other)
    }
}

/// The pieces of `s` between dots, empty pieces included: `"1..2"` has three.
pub open spec fn split_dots(s: Seq<char>) -> Seq<Seq<char>>
    decreases s.len(),
{
    if s.len() == 0 {
        seq![Seq::<char>::empty()]
    } else if s.last() == '.' {
        split_dots(s.drop_last()).push(Seq::<char>::empty())
    } else {
        let p = split_dots(s.drop_last());
        p.update(p.len() - 1, p.last().push(s.last()))
    }
}

proof fn lemma_split_dots_nonempty(s: Seq<char>)
    ensures
        split_dots(s).len() >= 1,
    decreases s.len(),
{
    if s.len() > 0 {
        lemma_split_dots_nonempty(s.drop_last());
    }
}

pub open spec fn texts(v: Seq<String>) -> Seq<Seq<char>> {
    v.map_values(|s: String| s@)
}

/// Whether every piece is a `u8` in decimal.
pub open spec fn all_u8(parts: Seq<Seq<char>>) -> bool {
    forall|i: int| 0 <= i < parts.len() ==> (#[trigger] decimal_u8(parts[i])).is_some()
}

/// Whether `s` is a release number `major.minor.patch`.
pub open spec fn is_release_text(s: Seq<char>) -> bool {
    all_u8(split_dots(s)) && split_dots(s).len() == 3
}

/// Splits `s` at every dot.
pub fn split_on_dots(s: &str) -> (r: Vec<String>)
    ensures
        texts(r@) == split_dots(s@),
{
    let n = s.unicode_len();
    let mut parts: Vec<String> = Vec::new();
    let mut start: usize = 0;
    let mut i: usize = 0;
    proof {
        assert(s@.take(0) =~= Seq::<char>::empty());
        assert(texts(parts@).push(s@.subrange(0, 0)) =~= seq![Seq::<char>::empty()]);
    }
    while i < n
        invariant
            n == s@.len(),
            0 <= start <= i <= n,
            texts(parts@).push(s@.subrange(start as int, i as int)) == split_dots(s@.take(i as int)),
        decreases n - i,
    {
        let c = s.get_char(i);
        let ghost prefix = s@.take(i as int);
        proof {
            assert(s@.take(i + 1).drop_last() =~= prefix);
            assert(s@.take(i + 1).last() == c);
            lemma_split_dots_nonempty(prefix);
        }
        if c == '.' {
            let piece = s.substring_char(start, i).to_owned();
            let ghost before = parts@;
            parts.push(piece);
            proof {
                assert(texts(parts@) =~= texts(before).push(piece@));
            }
            start = i + 1;
            assert(s@.subrange(start as int, start as int) =~= Seq::<char>::empty());
        } else {
            assert(s@.subrange(start as int, i + 1) =~= s@.subrange(start as int, i as int).push(c));
        }
        i = i + 1;
        assert(texts(parts@).push(s@.subrange(start as int, i as int)) =~= split_dots(s@.take(i as int)));
    }
    let last = s.substring_char(start, n).to_owned();
    let ghost before = parts@;
    parts.push(last);
    assert(texts(parts@) =~= texts(before).push(last@));
    assert(s@.take(n as int) =~= s@);
    assert(texts(parts@) =~= split_dots(s@));
    parts
}

/// Reads every piece as a `u8`; `None` if one is not.
fn parse_all(parts: &Vec<String>) -> (r: Option<Vec<u8>>)
    ensures
        all_u8(texts(parts@)) <==> r.is_some(),
        r matches Some(v) ==> v@.len() == parts@.len() && forall|i: int|
            0 <= i < v@.len() ==> Some(#[trigger] v@[i]) == decimal_u8(parts@[i]@),
{
    let mut nums: Vec<u8> = Vec::new();
    let mut i: usize = 0;
    while i < parts.len()
        invariant
            0 <= i <= parts@.len(),
            nums@.len() == i,
            forall|k: int| 0 <= k < i ==> Some(#[trigger] nums@[k]) == decimal_u8(parts@[k]@),
        decreases parts@.len() - i,
    {
        match parse_u8(parts[i].as_str()) {
            Some(v) => nums.push(v),
            None => {
                assert(decimal_u8(texts(parts@)[i as int]).is_none());
                return None;
            },
        }
        i = i + 1;
    }
    assert forall|k: int| 0 <= k < texts(parts@).len() implies (#[trigger] decimal_u8(
        texts(parts@)[k],
    )).is_some() by {
        assert(Some(nums@[k]) == decimal_u8(parts@[k]@));
    }
    Some(nums)
}

/// The decimal digits, in order.
pub const DIGITS: &'static str = "0123456789";

/// The decimal text of `n`, without leading zeros.
pub open spec fn decimal_text(n: nat) -> Seq<char>
    decreases n,
{
    if n < 10 {
        seq![DIGITS@[n as int]]
    } else {
        decimal_text(n / 10).push(DIGITS@[(n % 10) as int])
    }
}

/// The text form of a release channel: `major.minor.patch`.
pub open spec fn release_text(a: u8, b: u8, c: u8) -> Seq<char> {
    decimal_text(a as nat) + "."@ + decimal_text(b as nat) + "."@ + decimal_text(c as nat)
}

fn digit(d: u8) -> (r: &'static str)
    requires
        d < 10,
    ensures
        r@ == seq![DIGITS@[d as int]],
{
    proof {
        reveal_strlit("0123456789");
    }
    let r = DIGITS.substring_char(d as usize, d as usize + 1);
    assert(r@ =~= seq![DIGITS@[d as int]]);
    r
}

/// Writes `n` in decimal.
pub fn u8_text(n: u8) -> (r: String)
    ensures
        r@ == decimal_text(n as nat),
{
    proof {
        reveal_strlit("0123456789");
    }
    let mut text = String::new();
    if n >= 100 {
        text.append(digit(n / 100));
    }
    if n >= 10 {
        text.append(digit((n / 10) % 10));
    }
    text.append(digit(n % 10));
    proof {
        let m = n as nat;
        if m >= 100 {
            assert(decimal_text(m / 100) == seq![DIGITS@[(m / 100) as int]]);
            assert((m / 10) / 10 == m / 100);
            assert(decimal_text(m / 10) == decimal_text(m / 100).push(DIGITS@[((m / 10) % 10) as int]));
        } else if m >= 10 {
            assert(decimal_text(m / 10) == seq![DIGITS@[(m / 10) as int]]);
        }
        assert(text@ =~= decimal_text(m));
    }
    text
}

impl McChannel {
    /// The text form of a channel: a release as `major.minor.patch`, a
    /// snapshot by its name, and `Unknown`.
    pub fn to_text(&self) -> (r: String)
        ensures
            *self matches McChannel::Release(a, b, c) ==> r@ == release_text(a, b, c),
            *self matches McChannel::Snapshot(s) ==> r@ == s@,
            *self matches McChannel::Unknown ==> r@ == "Unknown"@,
    {
        match self {
            McChannel::Release(a, b, c) => {
                let mut text = u8_text(*a);
                text.append(".");
                let tb = u8_text(*b);
                text.append(tb.as_str());
                text.append(".");
                let tc = u8_text(*c);
                text.append(tc.as_str());
                text
            },
            McChannel::Snapshot(s) => s.clone(),
            McChannel::Unknown => String::from_str("Unknown"),
        }
    }

    /// Reads a channel from its text form: three dot-separated numbers are
    /// a release; text that is not all numbers is `Unknown` when it reads
    /// `Unknown` (white space aside) and a snapshot otherwise; any other
    /// count of numbers is a snapshot too.
    pub fn from_text(s: &str) -> (r: McChannel)
        ensures
            is_release_text(s@) ==> (r matches McChannel::Release(a, b, c) && Some(a) == decimal_u8(
                split_dots(s@)[0],
            ) && Some(b) == decimal_u8(split_dots(s@)[1]) && Some(c) == decimal_u8(
                split_dots(s@)[2],
            )),
            all_u8(split_dots(s@)) && split_dots(s@).len() != 3 ==> (r matches McChannel::Snapshot(
                t,
            ) && t@ == s@),
            !all_u8(split_dots(s@)) && trimmed_of(s@) == "Unknown"@ ==> (r matches McChannel::Unknown),
            !all_u8(split_dots(s@)) && trimmed_of(s@) != "Unknown"@ ==> (r matches McChannel::Snapshot(
                t,
            ) && t@ == s@),
    {
        let parts = split_on_dots(s);
        match parse_all(&parts) {
            Some(v) => {
                if v.len() == 3 {
                    McChannel::Release(v[0], v[1], v[2])
                } else {
                    McChannel::Snapshot(s.to_owned())
                }
            },
            None => {
                let t = trim(s);
                let unknown = String::from_str("Unknown");
                if t == unknown {
                    McChannel::Unknown
                } else {
                    McChannel::Snapshot(s.to_owned())
                }
            },
        }
    }
}

/// The version of a Java server jar from the version text and the type
/// that its manifest gives: three dot-separated numbers are a release,
/// anything else is a snapshot named by the trimmed text; a `server` jar is
/// the vanilla one.
pub fn parse_version(version_str: &str, version_type: &str) -> (r: McVersion)
    ensures
        r.server_type matches McType::Java(name) && (if version_type@ == "server"@ {
            name@ == "vanilla"@
        } else {
            name@ == version_type@
        }),
        is_release_text(version_str@) ==> (r.channel matches McChannel::Release(a, b, c) && Some(a)
            == decimal_u8(split_dots(version_str@)[0]) && Some(b) == decimal_u8(
            split_dots(version_str@)[1],
        ) && Some(c) == decimal_u8(split_dots(version_str@)[2])),
        !is_release_text(version_str@) ==> (r.channel matches McChannel::Snapshot(t) && t@
            == trimmed_of(version_str@)),
{
    let parts = split_on_dots(version_str);
    let channel = match parse_all(&parts) {
        Some(v) => {
            if v.len() == 3 {
                McChannel::Release(v[0], v[1], v[2])
            } else {
                McChannel::Snapshot(trim(version_str))
            }
        },
        None => McChannel::Snapshot(trim(version_str)),
    };
    let kind = version_type.to_owned();
    let server = String::from_str("server");
    let name = if kind == server {
        String::from_str("vanilla")
    } else {
        kind
    };
    McVersion { server_type: McType::Java(name), channel }
}

} // verus!
