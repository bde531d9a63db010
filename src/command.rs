use std::collections::HashMap;
use std::sync::Arc;
use vstd::prelude::*;

use crate::channel::{LossyQueue, latest, lemma_lossy_keeps_latest, lossy_push, lossy_push_all};

verus! {

broadcast use vstd::std_specs::hash::group_hash_axioms;

/// Capacity of the queue that a relay republishes into.
pub const RELAY_CAPACITY: usize = 32;

/// One stage of a runner's output pipeline: it transforms a line and may, as
/// a side effect, queue lines for the runner's input.
pub trait CommandPlugin {
    /// Whether `transform` states what `process` does. A plugin written
    /// outside verified code promises nothing and leaves this `false`.
    open spec fn is_specified(&self) -> bool {
        false
    }

    /// The line that `process` makes of `line`, where `is_specified` holds.
    open spec fn transform(&self, line: Seq<char>) -> Seq<char> {
        line
    }

    /// Transforms `value`; lines for the runner's input are appended to
    /// `input`, whose earlier contents stay as they were.
    fn process(&self, value: String, input: &mut Vec<String>) -> (r: String)
        ensures
            self.is_specified() ==> r@ == self.transform(value@),
            self.is_specified() ==> old(input)@.is_prefix_of(final(input)@),
    ;
}

/// Whether every plugin of a chain is specified.
pub open spec fn chain_specified<P: CommandPlugin>(chain: Seq<P>) -> bool {
    forall|i: int| 0 <= i < chain.len() ==> #[trigger] chain[i].is_specified()
}

/// A chain applied as a left fold: each plugin sees what the previous one
/// made of the line.
pub open spec fn apply_chain<P: CommandPlugin>(chain: Seq<P>, line: Seq<char>) -> Seq<char>
    decreases chain.len(),
{
    if chain.len() == 0 {
        line
    } else {
        chain.last().transform(apply_chain(chain.drop_last(), line))
    }
}

/// Folds `line` through `chain`, in order.
pub fn fold_chain<P: CommandPlugin>(chain: &Vec<P>, line: String, input: &mut Vec<String>) -> (r:
    String)
    ensures
        chain_specified(chain@) ==> r@ == apply_chain(chain@, line@),
        chain_specified(chain@) ==> old(input)@.is_prefix_of(final(input)@),
{
    let mut value = line;
    let mut i: usize = 0;
    while i < chain.len()
        invariant
            0 <= i <= chain@.len(),
            chain_specified(chain@) ==> value@ == apply_chain(chain@.take(i as int), line@),
            chain_specified(chain@) ==> old(input)@.is_prefix_of(input@),
        decreases chain@.len() - i,
    {
        let ghost before = input@;
        value = chain[i].process(value, input);
        proof {
            assert(chain@.take(i + 1).drop_last() =~= chain@.take(i as int));
            if chain_specified(chain@) {
                assert(chain@[i as int].is_specified());
                assert(old(input)@ =~= input@.subrange(0, old(input)@.len() as int)) by {
                    assert(before.subrange(0, old(input)@.len() as int) =~= old(input)@);
                    assert(input@.subrange(0, before.len() as int) =~= before);
                }
            }
        }
        i = i + 1;
    }
    assert(chain@.take(chain@.len() as int) =~= chain@);
    value
}

/// Folding through two chains one after the other is folding through the
/// chain that puts them end to end: a chain `[a, b]` turns `x` into what
/// `b` makes of what `a` made of `x`.
pub proof fn lemma_fold_composes<P: CommandPlugin>(first: Seq<P>, second: Seq<P>, line: Seq<char>)
    ensures
        apply_chain(first + second, line) == apply_chain(second, apply_chain(first, line)),
    decreases second.len(),
{
    if second.len() == 0 {
        assert(first + second =~= first);
    } else {
        lemma_fold_composes(first, second.drop_last(), line);
        assert((first + second).drop_last() =~= first + second.drop_last());
    }
}

/// A two-plugin chain applies its plugins in registration order.
pub proof fn lemma_fold_order<P: CommandPlugin>(a: P, b: P, line: Seq<char>)
    ensures
        apply_chain(seq![a, b], line) == b.transform(a.transform(line)),
{
    let one = seq![a];
    let two = seq![a, b];
    assert(two.drop_last() =~= one);
    assert(one.drop_last() =~= Seq::<P>::empty());
    assert(apply_chain(Seq::<P>::empty(), line) == line);
    assert(apply_chain(one, line) == a.transform(line));
    assert(apply_chain(two, line) == b.transform(apply_chain(one, line)));
}

/// The plugin chains of all runners, by runner id. A chain is held as a
/// shared immutable snapshot: replacing it never touches a snapshot that a
/// fold already holds.
pub struct CommandLoader<P> {
    plugins: HashMap<usize, Arc<Vec<P>>>,
}

impl<P> CommandLoader<P> {
    /// The current chain of each runner that has one.
    pub closed spec fn chains(&self) -> Map<usize, Seq<P>> {
        Map::new(|id: usize| self.plugins@.contains_key(id), |id: usize| self.plugins@[id]@)
    }

    pub fn new() -> (r: Self)
        ensures
            r.chains() == Map::<usize, Seq<P>>::empty(),
    {
        let r = CommandLoader { plugins: HashMap::new() };
        assert(r.chains() =~= Map::<usize, Seq<P>>::empty());
        r
    }

    /// Makes `plugins` the chain of runner `runner_id`, replacing any chain
    /// it had. Folds already under way keep the snapshot they started with.
    pub fn register(&mut self, runner_id: usize, plugins: Vec<P>)
        ensures
            final(self).chains() == old(self).chains().insert(runner_id, plugins@),
    {
        let ghost p = plugins@;
        self.plugins.insert(runner_id, Arc::new(plugins));
        assert(self.chains() =~= old(self).chains().insert(runner_id, p));
    }

    /// Starts relaying for runner `runner_id`: the runner gets an empty
    /// chain if it has none yet, and the relay that republishes its folded
    /// lines is handed out, empty, with room for `RELAY_CAPACITY` lines.
    pub fn load(&mut self, runner_id: usize) -> (r: Relay)
        ensures
            r.wf(),
            r@ == Seq::<Seq<char>>::empty(),
            r.spec_runner_id() == runner_id,
            old(self).chains().contains_key(runner_id) ==> final(self).chains()
                == old(self).chains(),
            !old(self).chains().contains_key(runner_id) ==> final(self).chains()
                == old(self).chains().insert(runner_id, Seq::<P>::empty()),
            final(self).chains().contains_key(runner_id),
    {
        if !self.plugins.contains_key(&runner_id) {
            self.plugins.insert(runner_id, Arc::new(Vec::new()));
            assert(self.chains() =~= old(self).chains().insert(runner_id, Seq::<P>::empty()));
        } else {
            assert(self.chains() =~= old(self).chains());
        }
        let r = Relay { runner_id, queue: LossyQueue::new(RELAY_CAPACITY) };
        assert(r@ =~= Seq::<Seq<char>>::empty());
        r
    }

    /// The chain of runner `runner_id` as it stands now: the snapshot that a
    /// fold starting now runs against.
    pub fn snapshot(&self, runner_id: usize) -> (r: Arc<Vec<P>>)
        ensures
            r@ == current_chain(self.chains(), runner_id),
    {
        match self.plugins.get(&runner_id) {
            Some(chain) => Arc::clone(chain),
            None => Arc::new(Vec::new()),
        }
    }
}

/// The chain a runner's lines go through: its registered one, else none.
pub open spec fn current_chain<P>(chains: Map<usize, Seq<P>>, runner_id: usize) -> Seq<P> {
    if chains.contains_key(runner_id) {
        chains[runner_id]
    } else {
        Seq::<P>::empty()
    }
}

/// The characters of each line.
pub open spec fn line_views(s: Seq<String>) -> Seq<Seq<char>> {
    s.map_values(|x: String| x@)
}

/// The relay's contents after one line went through `chain`.
pub open spec fn relay_next<P: CommandPlugin>(q: Seq<Seq<char>>, chain: Seq<P>, line: Seq<char>) -> Seq<
    Seq<char>,
> {
    lossy_push(q, RELAY_CAPACITY as nat, apply_chain(chain, line))
}

/// Each line as `chain` makes it.
pub open spec fn folded_lines<P: CommandPlugin>(chain: Seq<P>, lines: Seq<Seq<char>>) -> Seq<
    Seq<char>,
> {
    lines.map_values(|l: Seq<char>| apply_chain(chain, l))
}

proof fn lemma_views_push(s: Seq<String>, cap: nat, x: String)
    requires
        cap > 0,
        s.len() <= cap,
    ensures
        line_views(lossy_push(s, cap, x)) == lossy_push(line_views(s), cap, x@),
{
    if s.len() < cap {
        assert(line_views(s.push(x)) =~= line_views(s).push(x@));
    } else {
        assert(line_views(s.drop_first().push(x)) =~= line_views(s).drop_first().push(x@));
    }
}

/// The republishing end of one runner's output pipeline: a drop-oldest
/// queue of `RELAY_CAPACITY` folded lines, so that a slow reader never
/// stalls the relay and always sees the freshest lines.
pub struct Relay {
    runner_id: usize,
    queue: LossyQueue<String>,
}

impl View for Relay {
    type V = Seq<Seq<char>>;

    closed spec fn view(&self) -> Seq<Seq<char>> {
        line_views(self.queue@)
    }
}

impl Relay {
    pub closed spec fn spec_runner_id(&self) -> usize {
        self.runner_id
    }

    pub closed spec fn wf(&self) -> bool {
        self.queue.wf() && self.queue.spec_capacity() == RELAY_CAPACITY
    }

    pub fn runner_id(&self) -> (r: usize)
        ensures
            r == self.spec_runner_id(),
    {
        self.runner_id
    }

    pub fn len(&self) -> (r: usize)
        requires
            self.wf(),
        ensures
            r == self@.len(),
            r <= RELAY_CAPACITY,
    {
        proof {
            self.queue.lemma_bounds();
        }
        self.queue.len()
    }

    /// Republishes a line that was already folded, discarding the oldest
    /// line when the relay is full. Returns the discarded line.
    pub fn publish(&mut self, folded: String) -> (dropped: Option<String>)
        requires
            old(self).wf(),
        ensures
            final(self).wf(),
            final(self).spec_runner_id() == old(self).spec_runner_id(),
            final(self)@ == lossy_push(old(self)@, RELAY_CAPACITY as nat, folded@),
            old(self)@.len() < RELAY_CAPACITY ==> dropped.is_none(),
            old(self)@.len() >= RELAY_CAPACITY ==> (dropped matches Some(d) && d@ == old(self)@[0]),
    {
        proof {
            self.queue.lemma_bounds();
            lemma_views_push(self.queue@, RELAY_CAPACITY as nat, folded);
        }
        self.queue.push(folded)
    }

    /// Relays one line: folds it through the chain snapshot `chain`, taken
    /// when the fold starts, and republishes the result.
    pub fn step<P: CommandPlugin>(&mut self, chain: &Vec<P>, line: String, input: &mut Vec<String>) -> (dropped:
        Option<String>)
        requires
            old(self).wf(),
        ensures
            final(self).wf(),
            final(self).spec_runner_id() == old(self).spec_runner_id(),
            final(self)@.len() > 0,
            final(self)@ == lossy_push(old(self)@, RELAY_CAPACITY as nat, final(self)@.last()),
            chain_specified(chain@) ==> final(self)@ == relay_next(old(self)@, chain@, line@),
            chain_specified(chain@) ==> old(input)@.is_prefix_of(final(input)@),
            old(self)@.len() < RELAY_CAPACITY ==> dropped.is_none(),
            old(self)@.len() >= RELAY_CAPACITY ==> (dropped matches Some(d) && d@ == old(self)@[0]),
    {
        let folded = fold_chain(chain, line, input);
        self.publish(folded)
    }

    /// Takes the oldest line, if any.
    pub fn recv(&mut self) -> (r: Option<String>)
        requires
            old(self).wf(),
        ensures
            final(self).wf(),
            final(self).spec_runner_id() == old(self).spec_runner_id(),
            old(self)@.len() == 0 ==> r.is_none() && final(self)@ == old(self)@,
            old(self)@.len() > 0 ==> (r matches Some(x) && x@ == old(self)@[0]) && final(self)@
                == old(self)@.drop_first(),
    {
        let ghost before = self.queue@;
        let r = self.queue.pop();
        proof {
            if before.len() > 0 {
                assert(line_views(before.drop_first()) =~= line_views(before).drop_first());
            }
        }
        r
    }
}

/// A stalled reader of a relay that took `lines` through `chain` finds
/// exactly the last `RELAY_CAPACITY` folded lines, oldest first; with more
/// lines than that, the next read is the fold of the oldest line kept, and
/// every earlier one is gone.
pub proof fn lemma_relay_keeps_latest<P: CommandPlugin>(chain: Seq<P>, lines: Seq<Seq<char>>)
    ensures
        lossy_push_all(Seq::<Seq<char>>::empty(), RELAY_CAPACITY as nat, folded_lines(chain, lines))
            == latest(folded_lines(chain, lines), RELAY_CAPACITY as nat),
        lines.len() > RELAY_CAPACITY ==> lossy_push_all(
            Seq::<Seq<char>>::empty(),
            RELAY_CAPACITY as nat,
            folded_lines(chain, lines),
        )[0] == apply_chain(chain, lines[lines.len() - RELAY_CAPACITY]),
{
    let folded = folded_lines(chain, lines);
    lemma_lossy_keeps_latest(Seq::<Seq<char>>::empty(), RELAY_CAPACITY as nat, folded);
    assert(Seq::<Seq<char>>::empty() + folded =~= folded);
}

/// Without overflow a relay loses nothing: the folded line joins the end
/// and every earlier line stays in place, so lines leave in the order they
/// came.
pub proof fn lemma_relay_in_order<P: CommandPlugin>(q: Seq<Seq<char>>, chain: Seq<P>, line: Seq<char>)
    requires
        q.len() < RELAY_CAPACITY,
    ensures
        relay_next(q, chain, line) == q.push(apply_chain(chain, line)),
{
}

/// A chain replaced between two lines: the first line, whose fold started
/// before, goes through the old chain; the second through the new one.
pub proof fn lemma_hot_swap<P: CommandPlugin>(
    chains: Map<usize, Seq<P>>,
    runner_id: usize,
    replacement: Seq<P>,
    q: Seq<Seq<char>>,
    first: Seq<char>,
    second: Seq<char>,
)
    requires
        q.len() + 2 <= RELAY_CAPACITY,
    ensures
        relay_next(
            relay_next(q, current_chain(chains, runner_id), first),
            current_chain(chains.insert(runner_id, replacement), runner_id),
            second,
        ) == q.push(apply_chain(current_chain(chains, runner_id), first)).push(
            apply_chain(replacement, second),
        ),
{
}

} // verus!
