use vstd::prelude::*;
use vstd::set_lib::{lemma_len_subset, lemma_subset_equality};
use std::collections::HashSet;

verus! {

broadcast use vstd::std_specs::hash::group_hash_axioms;

/// What one non-blocking read on a connection came back with.
#[derive(Clone, Copy, Debug, PartialEq, Eq, Structural)]
pub enum ReadOutcome {
    /// That many bytes were read; zero means the peer closed its side.
    Read(usize),
    /// No data is ready right now.
    WouldBlock,
    /// The read was interrupted before any data came.
    Interrupted,
    /// Any other I/O failure.
    Failed,
}

/// What the drain loop does after a read.
#[derive(Clone, Copy, Debug, PartialEq, Eq, Structural)]
pub enum DrainStep {
    /// Data came: read the same connection again.
    ReadAgain,
    /// Stop draining this connection until its next notification.
    Stop,
    /// Abort the whole dispatch and surface the failure.
    Abort,
}

/// The drain loop's reaction to one read outcome.
pub open spec fn step_of(o: ReadOutcome) -> DrainStep {
    match o {
        ReadOutcome::Read(n) => if n == 0 { DrainStep::Stop } else { DrainStep::ReadAgain },
        ReadOutcome::WouldBlock => DrainStep::Stop,
        ReadOutcome::Interrupted => DrainStep::Stop,
        ReadOutcome::Failed => DrainStep::Abort,
    }
}

/// The completion set after `token` reads with outcome `o`: a zero-length
/// read retires the token, nothing else changes the set.
pub open spec fn completed_after(done: Set<usize>, token: usize, o: ReadOutcome) -> Set<usize> {
    if o == ReadOutcome::Read(0) {
        done.insert(token)
    } else {
        done
    }
}

/// The tokens `0..n` handed out to `n` registered connections.
pub open spec fn tokens_below(n: nat) -> Set<usize> {
    Set::new(|t: usize| t < n)
}

/// Completion bookkeeping of one run over a fixed number of connections,
/// whose tokens are `0..connections`.
pub struct Reactor {
    handled_tokens: HashSet<usize>,
    handled_events: usize,
    connections: usize,
}

impl Reactor {
    /// The tokens whose connection has been seen to close.
    pub closed spec fn completed(&self) -> Set<usize> {
        self.handled_tokens@
    }

    /// How many connections the run has counted as completed.
    pub closed spec fn count(&self) -> nat {
        self.handled_events as nat
    }

    /// How many connections the run waits for.
    pub closed spec fn connections(&self) -> nat {
        self.connections as nat
    }

    /// Each completed token is one of the run's, and counted once.
    pub closed spec fn wf(&self) -> bool {
        &&& self.handled_tokens@.subset_of(tokens_below(self.connections as nat))
        &&& self.handled_tokens@.finite()
        &&& self.handled_events as nat == self.handled_tokens@.len()
    }

    /// A run over `connections` connections, none of them completed.
    pub fn new(connections: usize) -> (r: Reactor)
        ensures
            r.wf(),
            r.connections() == connections,
            r.completed() == Set::<usize>::empty(),
            r.count() == 0,
    {
        Reactor { handled_tokens: HashSet::new(), handled_events: 0, connections }
    }

    /// The number of connections completed so far.
    pub fn handled(&self) -> (r: usize)
        ensures
            r == self.count(),
    {
        self.handled_events
    }

    /// Whether every connection of the run has completed.
    pub fn is_done(&self) -> (r: bool)
        ensures
            r == (self.count() >= self.connections()),
    {
        self.handled_events >= self.connections
    }

    /// Whether the connection under `token` has been seen to close.
    pub fn is_completed(&self, token: usize) -> (r: bool)
        requires
            self.wf(),
        ensures
            r == self.completed().contains(token),
    {
        self.handled_tokens.contains(&token)
    }

    /// Takes in the outcome of one read on the connection under `token`
    /// and says how the drain loop goes on. A zero-length read retires the
    /// token; it is counted only the first time.
    pub fn on_read(&mut self, token: usize, outcome: ReadOutcome) -> (step: DrainStep)
        requires
            old(self).wf(),
            token < old(self).connections(),
        ensures
            final(self).wf(),
            step == step_of(outcome),
            final(self).connections() == old(self).connections(),
            final(self).completed() == completed_after(old(self).completed(), token, outcome),
            final(self).count() == if outcome == ReadOutcome::Read(0)
                && !old(self).completed().contains(token) {
                old(self).count() + 1
            } else {
                old(self).count()
            },
    {
        match outcome {
            ReadOutcome::Read(n) => {
                if n == 0 {
                    proof {
                        let next = self.handled_tokens@.insert(token);
                        lemma_tokens_below(self.connections);
                        lemma_len_subset(next, tokens_below(self.connections as nat));
                    }
                    if self.handled_tokens.insert(token) {
                        self.handled_events = self.handled_events + 1;
                    }
                    DrainStep::Stop
                } else {
                    DrainStep::ReadAgain
                }
            },
            ReadOutcome::WouldBlock => DrainStep::Stop,
            ReadOutcome::Interrupted => DrainStep::Stop,
            ReadOutcome::Failed => DrainStep::Abort,
        }
    }
}

/// There are exactly `n` tokens below `n`.
proof fn lemma_tokens_below(n: usize)
    ensures
        tokens_below(n as nat).finite(),
        tokens_below(n as nat).len() == n,
    decreases n,
{
    if n == 0 {
        assert(tokens_below(0) =~= Set::<usize>::empty());
    } else {
        let m = (n - 1) as usize;
        lemma_tokens_below(m);
        assert(tokens_below(m as nat).insert(m) =~= tokens_below(n as nat));
    }
}

/// Once the run is over, every registered connection has completed and the
/// tally equals the number of connections, however many redundant
/// notifications came in between.
pub proof fn lemma_done_means_all_completed(r: &Reactor)
    requires
        r.wf(),
        r.count() >= r.connections(),
    ensures
        r.completed() == tokens_below(r.connections()),
        r.count() == r.connections(),
{
    lemma_tokens_below(r.connections);
    lemma_len_subset(r.completed(), tokens_below(r.connections()));
    lemma_subset_equality(r.completed(), tokens_below(r.connections()));
}

/// The completion set after `token` reads with each outcome of `outs` in turn.
pub open spec fn completed_after_all(done: Set<usize>, token: usize, outs: Seq<ReadOutcome>) -> Set<
    usize,
>
    decreases outs.len(),
{
    if outs.len() == 0 {
        done
    } else {
        completed_after(completed_after_all(done, token, outs.drop_last()), token, outs.last())
    }
}

/// How many outcomes of `outs` delivered data.
pub open spec fn data_reads(outs: Seq<ReadOutcome>) -> nat
    decreases outs.len(),
{
    if outs.len() == 0 {
        0
    } else {
        data_reads(outs.drop_last()) + match outs.last() {
            ReadOutcome::Read(n) => if n > 0 { 1nat } else { 0nat },
            _ => 0nat,
        }
    }
}

/// How many outcomes of `outs` make the drain loop read again.
pub open spec fn read_again_steps(outs: Seq<ReadOutcome>) -> nat
    decreases outs.len(),
{
    if outs.len() == 0 {
        0
    } else {
        read_again_steps(outs.drop_last()) + if step_of(outs.last()) == DrainStep::ReadAgain {
            1nat
        } else {
            0nat
        }
    }
}

proof fn lemma_no_close_keeps_completed(done: Set<usize>, token: usize, outs: Seq<ReadOutcome>)
    requires
        forall|i: int| 0 <= i < outs.len() ==> outs[i] != ReadOutcome::Read(0),
    ensures
        completed_after_all(done, token, outs) == done,
        read_again_steps(outs) == data_reads(outs),
    decreases outs.len(),
{
    if outs.len() > 0 {
        lemma_no_close_keeps_completed(done, token, outs.drop_last());
    }
}

/// A stream that delivers its data in fragments, split across any number of
/// wakeups (each ended by a would-block or an interrupted read), and then
/// closes: the drain loop reads again once per fragment and stops at the
/// zero-length read, and the token joins the completion set at that read
/// and not before.
pub proof fn lemma_fragmented_stream(done: Set<usize>, token: usize, outs: Seq<ReadOutcome>)
    requires
        outs.len() > 0,
        outs.last() == ReadOutcome::Read(0),
        forall|i: int|
            0 <= i < outs.len() - 1 ==> outs[i] != ReadOutcome::Read(0) && outs[i]
                != ReadOutcome::Failed,
    ensures
        read_again_steps(outs) == data_reads(outs),
        step_of(outs.last()) == DrainStep::Stop,
        forall|i: int|
            0 <= i < outs.len() ==> #[trigger] completed_after_all(done, token, outs.take(i))
                == done,
        completed_after_all(done, token, outs) == done.insert(token),
{
    lemma_no_close_keeps_completed(done, token, outs.drop_last());
    assert forall|i: int| 0 <= i < outs.len() implies #[trigger] completed_after_all(
        done,
        token,
        outs.take(i),
    ) == done by {
        lemma_no_close_keeps_completed(done, token, outs.take(i));
    }
}

} // verus!
