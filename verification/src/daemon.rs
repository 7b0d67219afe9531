//! The rotation daemon's state and what one poll tick decides.
//!
//! The daemon remembers the orientation it last asked the backend for. A
//! tick classifies a fresh sample and compares: a different orientation is
//! requested and remembered, the same one needs nothing. The request counts
//! as made once its commands are handed out; nobody waits for them to
//! finish.

use vstd::prelude::*;
use crate::backend::{orientation_named, rotate_commands_of, Backend, Command};
use crate::orientation::{classify, orientation_of, Orientation};
use crate::sensor::AxisReading;

verus! {

/// The orientation that the sample `reading` stands for.
pub open spec fn reading_orientation(reading: AxisReading) -> Orientation {
    orientation_of(reading.x as int, reading.y as int)
}

/// Whether a tick that sees `reading` requests a transform, given the
/// orientation that was requested last.
pub open spec fn requests_transform(last: Option<Orientation>, reading: AxisReading) -> bool {
    last != Some(reading_orientation(reading))
}

/// The orientation that counts as requested last once a tick has seen
/// `reading`: the one that the tick requests, or the one from before where
/// it requests nothing.
pub open spec fn after_tick(last: Option<Orientation>, reading: AxisReading) -> Option<
    Orientation,
> {
    if requests_transform(last, reading) {
        Some(reading_orientation(reading))
    } else {
        last
    }
}

/// The number of transforms that are requested while ticks see `readings`
/// one after the other, starting from the orientation requested last.
pub open spec fn requests_during(last: Option<Orientation>, readings: Seq<AxisReading>) -> nat
    decreases readings.len(),
{
    if readings.len() == 0 {
        0
    } else {
        let later = requests_during(after_tick(last, readings[0]), readings.skip(1));
        if requests_transform(last, readings[0]) {
            later + 1
        } else {
            later
        }
    }
}

/// While every sample stands for the same orientation, that orientation is
/// requested once if it is new and never if it is not, however many ticks
/// go by.
pub proof fn lemma_steady_orientation_requested_once(
    last: Option<Orientation>,
    readings: Seq<AxisReading>,
    o: Orientation,
)
    requires
        readings.len() > 0,
        forall|i: int| 0 <= i < readings.len() ==> reading_orientation(#[trigger] readings[i]) == o,
    ensures
        requests_during(last, readings) == (if last == Some(o) {
            0nat
        } else {
            1nat
        }),
    decreases readings.len(),
{
    let rest = readings.skip(1);
    assert(reading_orientation(readings[0]) == o);
    if rest.len() > 0 {
        assert forall|i: int| 0 <= i < rest.len() implies reading_orientation(
            #[trigger] rest[i],
        ) == o by {
            assert(rest[i] == readings[i + 1]);
        }
        lemma_steady_orientation_requested_once(Some(o), rest, o);
    } else {
        assert(requests_during(Some(o), rest) == 0);
    }
}

/// Of two ticks in a row that see the same orientation, the second
/// requests nothing and leaves the state as it is. Together they request
/// one transform where the orientation is new, and none where it is the one
/// requested last: a change is requested once, not once per tick.
pub proof fn lemma_same_orientation_requested_once(
    last: Option<Orientation>,
    first: AxisReading,
    second: AxisReading,
)
    requires
        reading_orientation(first) == reading_orientation(second),
    ensures
        !requests_transform(after_tick(last, first), second),
        after_tick(after_tick(last, first), second) == after_tick(last, first),
        requests_during(last, seq![first, second]) == (if last == Some(
            reading_orientation(first),
        ) {
            0nat
        } else {
            1nat
        }),
{
    lemma_steady_orientation_requested_once(
        last,
        seq![first, second],
        reading_orientation(first),
    );
}

/// After a tick the remembered orientation is the one the tick saw,
/// whether or not it had to be requested.
pub proof fn lemma_state_follows_reading(last: Option<Orientation>, reading: AxisReading)
    ensures
        after_tick(last, reading) == Some(reading_orientation(reading)),
{
}

/// The daemon: a backend and the orientation last requested from it.
#[derive(Clone, Debug, PartialEq, Eq)]
pub struct Daemon {
    /// The backend that is driven.
    pub backend: Backend,
    /// The orientation requested last; `None` while the backend is in a
    /// transform that is none of the four orientations.
    pub last_applied: Option<Orientation>,
}

impl Daemon {
    /// Starts from the transform identifier that the backend reported.
    ///
    /// The identifier is read in the backend's own words, so that a display
    /// that is already rotated is not rotated again by the first tick.
    pub fn new(backend: Backend, current_transform: &str) -> (daemon: Daemon)
        ensures
            daemon.backend == backend,
            daemon.last_applied == orientation_named(backend@.kind(), current_transform@),
    {
        let last_applied = backend.kind().orientation_named(current_transform);
        Daemon { backend, last_applied }
    }

    /// One poll tick on a fresh sample.
    ///
    /// Returns the commands to start where the orientation has changed,
    /// and `None` where it has not.
    pub fn tick(&mut self, reading: AxisReading) -> (commands: Option<Vec<Command>>)
        ensures
            final(self).backend == old(self).backend,
            final(self).last_applied == after_tick(old(self).last_applied, reading),
            commands is Some <==> requests_transform(old(self).last_applied, reading),
            commands matches Some(list) ==> list.deep_view() == rotate_commands_of(
                old(self).backend@,
                reading_orientation(reading),
            ),
    {
        let current = classify(reading.x, reading.y);
        let unchanged = match self.last_applied {
            Some(last) => last == current,
            None => false,
        };
        if unchanged {
            None
        } else {
            let commands = self.backend.rotate_commands(current);
            self.last_applied = Some(current);
            Some(commands)
        }
    }
}

} // verus!
