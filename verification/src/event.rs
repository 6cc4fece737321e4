//! Bus events and the event waiter's decision logic.
//!
//! The event bus is a broadcast channel: every subscriber independently sees
//! every published event, or a lag note when it fell behind, or a closed note
//! when the bus is gone. An event waiter watches one subscription for a target
//! set of event kinds and resolves a single-use wake signal the first time a
//! matching event arrives. The shutdown event always ends the wait, but by
//! discarding the signal's setter instead of firing it.

use vstd::prelude::*;

verus! {

/// A discrete notification published on the event bus. Events carry no
/// payload beyond their kind; kinds other than the ones a component
/// explicitly matches are opaque to it.
#[derive(Clone, Copy, Debug, PartialEq, Eq, Structural)]
pub enum Event {
    /// A relevant input file was modified.
    SourceChanged,
    /// A non-source asset was modified.
    AssetChanged,
    /// A build was started.
    BuildStarted,
    /// The process is terminating.
    ShutDown,
}

/// What one receive on a bus subscription yields: the next event in publish
/// order, a note that the subscriber missed `n` events, or the end of the bus.
#[derive(Clone, Copy, Debug, PartialEq, Eq, Structural)]
pub enum BusRecv {
    Received(Event),
    Lagged(u64),
    Closed,
}

/// What the waiter's background loop does after one reception:
/// fire the wake signal and stop, stop without firing (the setter is
/// discarded), or keep waiting.
#[derive(Clone, Copy, Debug, PartialEq, Eq, Structural)]
pub enum WaiterStep {
    Fire,
    Stop,
    Continue,
}

/// The two observable outcomes of a wake signal: it fired, or its setter was
/// discarded without firing. Callers racing a waiter must treat them alike.
#[derive(Clone, Copy, Debug, PartialEq, Eq, Structural)]
pub enum WaitOutcome {
    Fired,
    Discarded,
}

/// The waiter's reaction to a single reception: shutdown always stops the
/// wait without firing, even when it is among the targets; lag and closure
/// also stop it silently; any other event fires exactly when its kind is in
/// the target set.
pub open spec fn waiter_step_spec(targets: Seq<Event>, r: BusRecv) -> WaiterStep {
    match r {
        BusRecv::Received(e) => if e == Event::ShutDown {
            WaiterStep::Stop
        } else if targets.contains(e) {
            WaiterStep::Fire
        } else {
            WaiterStep::Continue
        },
        BusRecv::Lagged(_) => WaiterStep::Stop,
        BusRecv::Closed => WaiterStep::Stop,
    }
}

/// Holds when a reception leaves the waiter waiting: an event that is not
/// shutdown and whose kind is outside the target set.
pub open spec fn keeps_waiting(targets: Seq<Event>, r: BusRecv) -> bool {
    waiter_step_spec(targets, r) is Continue
}

/// Membership test for a target set of event kinds.
pub fn contains_event(targets: &Vec<Event>, e: Event) -> (r: bool)
    ensures
        r == targets@.contains(e),
{
    let mut i: usize = 0;
    while i < targets.len()
        invariant
            0 <= i <= targets.len(),
            forall|j: int| 0 <= j < i ==> targets@[j] != e,
        decreases targets.len() - i,
    {
        if targets[i] == e {
            assert(targets@[i as int] == e);
            return true;
        }
        i += 1;
    }
    false
}

/// One step of the waiter's loop, exactly as [`waiter_step_spec`] describes.
pub fn waiter_step(targets: &Vec<Event>, r: &BusRecv) -> (s: WaiterStep)
    ensures
        s == waiter_step_spec(targets@, *r),
{
    match r {
        BusRecv::Received(e) => {
            if *e == Event::ShutDown {
                WaiterStep::Stop
            } else if contains_event(targets, *e) {
                WaiterStep::Fire
            } else {
                WaiterStep::Continue
            }
        },
        BusRecv::Lagged(_) => WaiterStep::Stop,
        BusRecv::Closed => WaiterStep::Stop,
    }
}

/// The outcome of a waiter that observes the given receptions in order:
/// `None` while every reception keeps it waiting, otherwise the outcome the
/// first deciding reception produces.
pub open spec fn waiter_outcome(targets: Seq<Event>, recvs: Seq<BusRecv>) -> Option<WaitOutcome>
    decreases recvs.len(),
{
    if recvs.len() == 0 {
        None
    } else {
        match waiter_step_spec(targets, recvs[0]) {
            WaiterStep::Fire => Some(WaitOutcome::Fired),
            WaiterStep::Stop => Some(WaitOutcome::Discarded),
            WaiterStep::Continue => waiter_outcome(targets, recvs.drop_first()),
        }
    }
}

proof fn lemma_skip_step(recvs: Seq<BusRecv>, i: int)
    requires
        0 <= i < recvs.len(),
    ensures
        recvs.skip(i).len() == recvs.len() - i,
        recvs.skip(i)[0] == recvs[i],
        recvs.skip(i).drop_first() =~= recvs.skip(i + 1),
{
}

/// Runs a waiter over a recorded sequence of receptions, returning `None`
/// when the stream ends before anything decided the wait.
pub fn run_waiter(targets: &Vec<Event>, recvs: &Vec<BusRecv>) -> (o: Option<WaitOutcome>)
    ensures
        o == waiter_outcome(targets@, recvs@),
{
    proof {
        assert(recvs@.skip(0) =~= recvs@);
    }
    let mut i: usize = 0;
    while i < recvs.len()
        invariant
            0 <= i <= recvs.len(),
            waiter_outcome(targets@, recvs@) == waiter_outcome(targets@, recvs@.skip(i as int)),
        decreases recvs.len() - i,
    {
        proof {
            lemma_skip_step(recvs@, i as int);
        }
        let step = waiter_step(targets, &recvs[i]);
        match step {
            WaiterStep::Fire => {
                return Some(WaitOutcome::Fired);
            },
            WaiterStep::Stop => {
                return Some(WaitOutcome::Discarded);
            },
            WaiterStep::Continue => {},
        }
        i += 1;
    }
    proof {
        assert(recvs@.skip(recvs@.len() as int) =~= Seq::<BusRecv>::empty());
    }
    None
}

/// A waiter does not resolve, positively or by discard, while every
/// reception carries an event whose kind is outside its target set and is
/// not shutdown -- however many such receptions arrive.
pub proof fn lemma_unrelated_events_never_resolve(targets: Seq<Event>, recvs: Seq<BusRecv>)
    requires
        forall|i: int| 0 <= i < recvs.len() ==> ((#[trigger] recvs[i]) matches BusRecv::Received(e)
            && !targets.contains(e) && e != Event::ShutDown),
    ensures
        waiter_outcome(targets, recvs) is None,
    decreases recvs.len(),
{
    if recvs.len() > 0 {
        assert forall|i: int| 0 <= i < recvs.drop_first().len() implies ((#[trigger] recvs.drop_first()[i])
            matches BusRecv::Received(e) && !targets.contains(e) && e != Event::ShutDown) by {
            assert(recvs.drop_first()[i] == recvs[i + 1]);
        }
        lemma_unrelated_events_never_resolve(targets, recvs.drop_first());
    }
}

/// The first reception that does not keep the waiter waiting decides the
/// outcome: it is `Fired` when that reception is a matching, non-shutdown
/// event, and `Discarded` when it is shutdown, a lag note, or bus closure.
pub proof fn lemma_first_relevant_decides(targets: Seq<Event>, recvs: Seq<BusRecv>, k: int)
    requires
        0 <= k < recvs.len(),
        forall|i: int| 0 <= i < k ==> keeps_waiting(targets, #[trigger] recvs[i]),
        !keeps_waiting(targets, recvs[k]),
    ensures
        waiter_outcome(targets, recvs) == if waiter_step_spec(targets, recvs[k]) is Fire {
            Some(WaitOutcome::Fired)
        } else {
            Some(WaitOutcome::Discarded)
        },
    decreases k,
{
    if k > 0 {
        assert forall|i: int| 0 <= i < k - 1 implies keeps_waiting(
            targets,
            #[trigger] recvs.drop_first()[i],
        ) by {
            assert(recvs.drop_first()[i] == recvs[i + 1]);
        }
        assert(recvs.drop_first()[k - 1] == recvs[k]);
        lemma_first_relevant_decides(targets, recvs.drop_first(), k - 1);
    }
}

} // verus!
