//! Operator signals and the race of an operation against them.

use vstd::prelude::*;

verus! {

/// A signal by which the operator asks the program to stop.
#[derive(Clone, Copy, Debug, PartialEq, Eq, Structural)]
pub enum Signals {
    /// Interrupt from the keyboard.
    SigInt,
    /// Quit from the keyboard.
    SigQuit,
    /// Request to terminate.
    SigTerm,
    /// Break from the console.
    SigBreak,
}

/// Why a raced operation gave no value.
#[derive(Debug, PartialEq, Eq)]
pub enum OperationError<E> {
    /// The operation itself failed.
    Failed(E),
    /// A signal ended the wait.
    Interrupted(Signals),
}

/// An operation that is waited for while signals are watched. One kind of
/// signal may be set to be passed over: it is taken from the monitor and the
/// wait goes on.
#[derive(Clone, Copy, Debug, PartialEq, Eq, Structural)]
pub struct SignalFuture {
    /// The kind of signal that does not end the wait.
    pub ignore: Option<Signals>,
}

/// What one look at the operation and the monitor shows. `None` stands for
/// "not ready".
pub struct Observation<T, E> {
    /// The operation's result, where it has completed.
    pub operation: Option<Result<T, E>>,
    /// The signal that the monitor yields, where one has arrived.
    pub signal: Option<Signals>,
}

/// The operation's own result as the result of the race.
pub open spec fn completed<T, E>(result: Result<T, E>) -> Result<T, OperationError<E>> {
    match result {
        Ok(value) => Ok(value),
        Err(error) => Err(OperationError::Failed(error)),
    }
}

/// What one look decides: a completed operation wins, also over a signal
/// that arrived at the same moment; otherwise a signal of any kind but the
/// ignored one interrupts; otherwise the wait goes on.
pub open spec fn decided<T, E>(ignore: Option<Signals>, seen: Observation<T, E>) -> Option<
    Result<T, OperationError<E>>,
> {
    match seen.operation {
        Some(result) => Some(completed(result)),
        None => match seen.signal {
            Some(signal) => if ignore == Some(signal) {
                None
            } else {
                Some(Err(OperationError::Interrupted(signal)))
            },
            None => None,
        },
    }
}

/// How a wait ends that looks at the operation and the monitor time after
/// time: with what the first deciding look decides. `None` where no look
/// decides, and the wait is still on.
pub open spec fn waited<T, E>(ignore: Option<Signals>, looks: Seq<Observation<T, E>>) -> Option<
    Result<T, OperationError<E>>,
>
    decreases looks.len(),
{
    if looks.len() == 0 {
        None
    } else {
        match decided(ignore, looks[0]) {
            Some(result) => Some(result),
            None => waited(ignore, looks.skip(1)),
        }
    }
}

impl SignalFuture {
    /// Returns the race in which no signal is passed over.
    pub fn new() -> (race: SignalFuture)
        ensures
            race.ignore is None,
    {
        SignalFuture { ignore: None }
    }

    /// Returns the race that passes over the interrupt signal where
    /// `ignore_sigint` is set, and over none otherwise.
    pub fn with_signals(ignore_sigint: bool) -> (race: SignalFuture)
        ensures
            race.ignore == if ignore_sigint {
                Some(Signals::SigInt)
            } else {
                None::<Signals>
            },
    {
        if ignore_sigint {
            SignalFuture { ignore: Some(Signals::SigInt) }
        } else {
            SignalFuture { ignore: None }
        }
    }

    /// Returns whether `signal` is of the kind that the race passes over.
    pub fn ignores(&self, signal: Signals) -> (ignored: bool)
        ensures
            ignored == (self.ignore == Some(signal)),
    {
        match self.ignore {
            Some(kind) => kind == signal,
            None => false,
        }
    }

    /// Decides on one look at the operation and the monitor: `None` while
    /// the wait goes on, else the result of the race.
    pub fn poll<T, E>(&self, seen: Observation<T, E>) -> (result: Option<
        Result<T, OperationError<E>>,
    >)
        ensures
            result == decided(self.ignore, seen),
    {
        match seen.operation {
            Some(Ok(value)) => Some(Ok(value)),
            Some(Err(error)) => Some(Err(OperationError::Failed(error))),
            None => match seen.signal {
                Some(signal) => {
                    if self.ignores(signal) {
                        None
                    } else {
                        Some(Err(OperationError::Interrupted(signal)))
                    }
                },
                None => None,
            },
        }
    }

    /// Carries the wait through the looks in their order and returns what
    /// the first deciding look decides; `None` where none decides.
    pub fn wait<T, E>(&self, looks: Vec<Observation<T, E>>) -> (result: Option<
        Result<T, OperationError<E>>,
    >)
        ensures
            result == waited(self.ignore, looks@),
    {
        let mut looks = looks;
        let ghost all = looks@;
        let mut found: Option<Result<T, OperationError<E>>> = None;
        // The looks are taken from the end, so the earliest deciding one is
        // the last to overwrite `found`.
        while looks.len() > 0
            invariant
                looks@.len() <= all.len(),
                looks@ == all.take(looks@.len() as int),
                found == waited(self.ignore, all.skip(looks@.len() as int)),
            decreases looks@.len(),
        {
            let ghost n = looks@.len();
            let seen = looks.pop().unwrap();
            proof {
                assert(seen == all[n - 1]);
                assert(all.skip(n - 1)[0] == all[n - 1]);
                assert(all.skip(n - 1).skip(1) =~= all.skip(n as int));
                assert(looks@ =~= all.take(n - 1));
            }
            match self.poll(seen) {
                Some(result) => {
                    found = Some(result);
                },
                None => {},
            }
        }
        assert(all.skip(0) =~= all);
        found
    }
}

/// An operation that completes before any signal arrives gives its own
/// result; the race never reports an interruption then. This holds also
/// where a signal arrives at the moment of completion, and where signals of
/// the ignored kind arrived before.
pub proof fn lemma_completion_wins<T, E>(
    ignore: Option<Signals>,
    looks: Seq<Observation<T, E>>,
    at: int,
)
    requires
        0 <= at < looks.len(),
        looks[at].operation is Some,
        forall|j: int|
            0 <= j < at ==> (#[trigger] looks[j]).operation is None && (looks[j].signal is None
                || looks[j].signal == ignore),
    ensures
        waited(ignore, looks) == Some(completed(looks[at].operation->0)),
        !(waited(ignore, looks) matches Some(Err(OperationError::Interrupted(_)))),
    decreases at,
{
    if at > 0 {
        let rest = looks.skip(1);
        assert(looks[0].operation is None && (looks[0].signal is None || looks[0].signal
            == ignore));
        assert forall|j: int| 0 <= j < at - 1 implies (#[trigger] rest[j]).operation is None && (
        rest[j].signal is None || rest[j].signal == ignore) by {
            assert(rest[j] == looks[j + 1]);
        }
        assert(rest[at - 1] == looks[at]);
        lemma_completion_wins(ignore, rest, at - 1);
    }
}

/// A signal of a kind that is not passed over, arriving while the operation
/// has not completed, interrupts the race with that kind, whatever the
/// operation would have done later. Signals of the ignored kind that came
/// before it change nothing.
pub proof fn lemma_signal_interrupts<T, E>(
    ignore: Option<Signals>,
    looks: Seq<Observation<T, E>>,
    at: int,
)
    requires
        0 <= at < looks.len(),
        looks[at].operation is None,
        looks[at].signal is Some,
        ignore != looks[at].signal,
        forall|j: int|
            0 <= j < at ==> (#[trigger] looks[j]).operation is None && (looks[j].signal is None
                || looks[j].signal == ignore),
    ensures
        waited(ignore, looks) == Some(
            Err::<T, OperationError<E>>(OperationError::Interrupted(looks[at].signal->0)),
        ),
    decreases at,
{
    if at > 0 {
        let rest = looks.skip(1);
        assert(looks[0].operation is None && (looks[0].signal is None || looks[0].signal
            == ignore));
        assert forall|j: int| 0 <= j < at - 1 implies (#[trigger] rest[j]).operation is None && (
        rest[j].signal is None || rest[j].signal == ignore) by {
            assert(rest[j] == looks[j + 1]);
        }
        assert(rest[at - 1] == looks[at]);
        lemma_signal_interrupts(ignore, rest, at - 1);
    }
}

/// A signal of the ignored kind, arriving while the operation has not
/// completed, is passed over: the race ends as it would without that look.
pub proof fn lemma_ignored_signal_passed_over<T, E>(
    ignore: Option<Signals>,
    seen: Observation<T, E>,
    later: Seq<Observation<T, E>>,
)
    requires
        seen.operation is None,
        seen.signal is Some,
        seen.signal == ignore,
    ensures
        decided(ignore, seen) is None,
        waited(ignore, seq![seen] + later) == waited(ignore, later),
{
    let looks = seq![seen] + later;
    assert(looks[0] == seen);
    assert(looks.skip(1) =~= later);
}

} // verus!
