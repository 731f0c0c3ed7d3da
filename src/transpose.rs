//! The interruptible transposition: a bounded run of unit steps from the
//! current pitch offset to a target one, which a pause snaps to its end.
use vstd::prelude::*;

verus! {

/// What the driver of a transposition does next.
#[derive(Clone, Copy, Debug, PartialEq, Eq, Structural)]
pub enum Step {
    /// Press and release the key with this code: one unit step.
    Press(u64),
    /// The transposition is over and the pitch stands at its target.
    Finished,
}

/// The mathematical state of a transposition in progress.
pub struct TranspositionModel {
    pub current: int,
    pub target: int,
    pub key: u64,
    pub remaining: nat,
}

/// Distance between two pitch offsets.
pub open spec fn distance(a: int, b: int) -> nat {
    if a >= b {
        (a - b) as nat
    } else {
        (b - a) as nat
    }
}

impl TranspositionModel {
    /// The steps left are exactly the distance still to cover.
    pub open spec fn wf(self) -> bool {
        self.remaining == distance(self.current, self.target)
    }

    /// One turn of the driver, given whether the controller is paused now.
    /// A pause, or nothing left to do, snaps the pitch to the target.
    pub open spec fn step(self, paused: bool) -> (TranspositionModel, Step) {
        if paused || self.remaining == 0 {
            (TranspositionModel { current: self.target, remaining: 0, ..self }, Step::Finished)
        } else {
            let next = if self.current < self.target {
                self.current + 1
            } else {
                self.current - 1
            };
            (
                TranspositionModel { current: next, remaining: (self.remaining - 1) as nat, ..self },
                Step::Press(self.key),
            )
        }
    }

    /// Drives the transposition with one pause observation per turn, until it
    /// finishes or the observations run out. Gives the state reached, the
    /// number of key presses made, and whether it finished.
    pub open spec fn run(self, pauses: Seq<bool>) -> (TranspositionModel, nat, bool)
        decreases pauses.len(),
    {
        if pauses.len() == 0 {
            (self, 0, false)
        } else {
            let (next, step) = self.step(pauses[0]);
            match step {
                Step::Finished => (next, 0, true),
                Step::Press(_) => {
                    let (last, presses, finished) = next.run(pauses.drop_first());
                    (last, presses + 1, finished)
                },
            }
        }
    }
}

/// The transposition that begins at `current` and ends at `target`.
pub open spec fn plan(current: int, target: int, up_key: u64, down_key: u64) -> TranspositionModel {
    TranspositionModel {
        current,
        target,
        key: if current < target {
            up_key
        } else {
            down_key
        },
        remaining: distance(current, target),
    }
}

/// A transposition from `current` to `target`, stepped by its driver.
#[derive(Clone, Copy, Debug)]
pub struct Transposition {
    current: i32,
    target: i32,
    key: u64,
    remaining: u64,
}

impl View for Transposition {
    type V = TranspositionModel;

    closed spec fn view(&self) -> TranspositionModel {
        TranspositionModel {
            current: self.current as int,
            target: self.target as int,
            key: self.key,
            remaining: self.remaining as nat,
        }
    }
}

/// The number of unit steps between two pitch offsets.
fn calculate_next_transpose_difference(current: i32, next: i32) -> (r: u64)
    ensures
        r == distance(current as int, next as int),
{
    if next == current {
        return 0;
    }
    if current > next {
        (current as i64 - next as i64) as u64
    } else {
        (next as i64 - current as i64) as u64
    }
}

impl Transposition {
    #[verifier::type_invariant]
    spec fn inv(self) -> bool {
        self@.wf()
    }

    /// Plans the steps from `current` to `target`: upward with `up_key`,
    /// downward with `down_key`.
    pub fn begin(current: i32, target: i32, up_key: u64, down_key: u64) -> (r: Transposition)
        ensures
            r@ == plan(current as int, target as int, up_key, down_key),
            r@.wf(),
    {
        let key = if current < target {
            up_key
        } else {
            down_key
        };
        Transposition {
            current,
            target,
            key,
            remaining: calculate_next_transpose_difference(current, target),
        }
    }

    /// Takes one turn: with `paused` true, or no step left, the pitch snaps
    /// to the target and the run is over; otherwise one key press is due.
    pub fn step(&mut self, paused: bool) -> (r: Step)
        ensures
            (final(self)@, r) == old(self)@.step(paused),
            final(self)@.wf(),
    {
        proof {
            use_type_invariant(&*self);
        }
        if paused || self.remaining == 0 {
            *self = Transposition { current: self.target, remaining: 0, ..*self };
            Step::Finished
        } else {
            let next = if self.current < self.target {
                self.current + 1
            } else {
                self.current - 1
            };
            *self = Transposition { current: next, remaining: self.remaining - 1, ..*self };
            Step::Press(self.key)
        }
    }

    pub fn current(&self) -> (r: i32)
        ensures
            r == self@.current,
    {
        self.current
    }

    pub fn target(&self) -> (r: i32)
        ensures
            r == self@.target,
    {
        self.target
    }

    pub fn remaining(&self) -> (r: u64)
        ensures
            r == self@.remaining,
    {
        self.remaining
    }

    pub fn key(&self) -> (r: u64)
        ensures
            r == self@.key,
    {
        self.key
    }
}

/// However the pause flag flips along the way, a run that is given more turns
/// than it has steps finishes with the pitch at its target, after at most as
/// many key presses as it had steps.
pub proof fn lemma_run_ends_at_target(m: TranspositionModel, pauses: Seq<bool>)
    requires
        m.wf(),
        pauses.len() > m.remaining,
    ensures
        m.run(pauses).2,
        m.run(pauses).0.current == m.target,
        m.run(pauses).1 <= m.remaining,
    decreases pauses.len(),
{
    let (next, step) = m.step(pauses[0]);
    if let Step::Press(_) = step {
        lemma_run_ends_at_target(next, pauses.drop_first());
    }
}

/// A transposition whose target is where the pitch already stands makes no
/// key press, whatever the pause flag does.
pub proof fn lemma_no_distance_no_press(m: TranspositionModel, pauses: Seq<bool>)
    requires
        m.wf(),
        m.current == m.target,
    ensures
        m.run(pauses).1 == 0,
{
}

/// Without a pause, a run presses one key per unit of distance.
pub proof fn lemma_unpaused_run_presses_distance(m: TranspositionModel, pauses: Seq<bool>)
    requires
        m.wf(),
        pauses.len() > m.remaining,
        forall|i: int| 0 <= i < pauses.len() ==> !pauses[i],
    ensures
        m.run(pauses).1 == m.remaining,
        m.run(pauses).0.current == m.target,
    decreases pauses.len(),
{
    let (next, step) = m.step(pauses[0]);
    if let Step::Press(_) = step {
        lemma_unpaused_run_presses_distance(next, pauses.drop_first());
    }
}

} // verus!
