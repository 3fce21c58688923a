//! The race aggregator: folds gate-table snapshots into the record of the
//! current race.
use vstd::prelude::*;

use crate::app::gates::Gates;
use crate::svc::clock::CoordinatedInstant;

verus! {

/// The coordinator's record of the current race: when it started, when it
/// finished, and how long it took (in milliseconds).
#[derive(Debug, Copy, Clone, PartialEq, Eq, Structural)]
pub struct Race {
    pub start_time: Option<CoordinatedInstant>,
    pub finish_time: Option<CoordinatedInstant>,
    pub duration: Option<u64>,
}

impl Default for Race {
    fn default() -> (r: Self)
        ensures
            r.start_time is None,
            r.finish_time is None,
            r.duration is None,
    {
        Race { start_time: None, finish_time: None, duration: None }
    }
}

/// The start time after rule 1: a reported start activation always
/// overwrites it — the most recent start wins.
pub open spec fn spec_start_after_overwrite(r: Race, gates: Gates) -> Option<CoordinatedInstant> {
    if gates@[0].last_activation_time is Some {
        gates@[0].last_activation_time
    } else {
        r.start_time
    }
}

/// The finish time after rule 2: a reported finish activation is adopted
/// only while no finish is recorded yet — the first finish wins.
pub open spec fn spec_finish_after_adopt(r: Race, gates: Gates) -> Option<CoordinatedInstant> {
    if r.finish_time is None && gates@[3].last_activation_time is Some {
        gates@[3].last_activation_time
    } else {
        r.finish_time
    }
}

/// How one gate-table snapshot updates a race record:
/// 1. a reported start activation always overwrites the start time;
/// 2. a reported finish activation is adopted only while no finish is
///    recorded yet;
/// 3. when the record then holds both times, a start after the finish
///    clears the finish and the duration (a new race has begun), otherwise
///    the duration is their distance.
pub open spec fn spec_race_step(r: Race, gates: Gates) -> Race {
    let start1 = spec_start_after_overwrite(r, gates);
    let finish1 = spec_finish_after_adopt(r, gates);
    match (start1, finish1) {
        (Some(st), Some(ft)) => if st@ > ft@ {
            Race { start_time: start1, finish_time: None, duration: None }
        } else {
            Race { start_time: start1, finish_time: finish1, duration: Some((ft@ - st@) as u64) }
        },
        _ => Race { start_time: start1, finish_time: finish1, duration: r.duration },
    }
}

/// A race record carries a duration exactly for a finished race: both times
/// recorded, the start not after the finish, and the duration their
/// distance.
pub open spec fn spec_race_well_formed(r: Race) -> bool {
    match (r.start_time, r.finish_time) {
        (Some(s), Some(f)) => if s@ <= f@ {
            r.duration == Some((f@ - s@) as u64)
        } else {
            r.duration is None
        },
        _ => r.duration is None,
    }
}

impl Race {
    /// Fold one gate-table snapshot into the record.
    pub fn set_gates(&mut self, gates: &Gates)
        ensures
            *final(self) == spec_race_step(*old(self), *gates),
    {
        let start_time = gates.start_gate().last_activation_time;
        let finish_time = gates.finish_gate().last_activation_time;

        // The most recent start always wins.
        if let Some(st) = start_time {
            self.start_time = Some(st);
        }
        // The first finish after a start wins; later re-activations wait for
        // the next race.
        if self.finish_time.is_none() {
            if let Some(ft) = finish_time {
                self.finish_time = Some(ft);
            }
        }
        if let Some(st) = self.start_time {
            if let Some(ft) = self.finish_time {
                if st.as_millis() > ft.as_millis() {
                    // The recorded start lies after the recorded finish: a
                    // new race has begun.
                    self.finish_time = None;
                    self.duration = None;
                } else {
                    let d: i64 = ft.as_millis() as i64 - st.as_millis() as i64;
                    self.duration = Some(d as u64);
                }
            }
        }
    }
}

/// Folding the same snapshot twice changes nothing more than folding it
/// once. The one snapshot family this does not hold for: the record's start
/// (possibly just overwritten) supersedes the recorded finish while the
/// snapshot still reports a finish activation at or after that start — the
/// first fold opens a new race, the second adopts the reported finish into
/// it.
pub proof fn lemma_race_step_idempotent(r: Race, g: Gates)
    requires
        !({
            &&& spec_start_after_overwrite(r, g) matches Some(st)
            &&& r.finish_time matches Some(f0)
            &&& g@[3].last_activation_time matches Some(f1)
            &&& st@ > f0@
            &&& st@ <= f1@
        }),
    ensures
        spec_race_step(spec_race_step(r, g), g) == spec_race_step(r, g),
{
}

/// A fresh race record is well formed.
pub proof fn lemma_race_default_well_formed()
    ensures
        spec_race_well_formed(Race { start_time: None, finish_time: None, duration: None }),
{
}

/// Folding any snapshot keeps a race record well formed: the duration is
/// present exactly when both times are, with the start not after the finish.
pub proof fn lemma_race_step_preserves_well_formed(r: Race, g: Gates)
    requires
        spec_race_well_formed(r),
    ensures
        spec_race_well_formed(spec_race_step(r, g)),
{
}

} // verus!
