use vstd::prelude::*;

verus! {

use crate::calculations::{
    comp_bounded, plate_temp_spec, solve_plate, solved_comp_spec, CalculationService,
    CompositionResult,
};
use crate::data::{clone_entries, entries_view, entry_wf, ColumnEntry, EntryView};
use crate::errors::Error;
use crate::estimator::{estimate_remaining_mass, estimate_spec, RESOLUTION_DEFAULT};
use crate::math::{fx_sub, fx_sub_spec, round3_spec, FX_MAX};

/// The still charge assumed for a live batch run (1000 in fixed point).
pub const LIVE_INITIAL_MASS: i64 = 1_000_000_000_000;

/// Every composition of every entry of a live history fits the fixed-point
/// range; the live provider only ever stores what its own solver produced.
pub open spec fn live_history_wf(h: Seq<EntryView>) -> bool {
    forall|i: int|
        0 <= i < h.len() ==> forall|j: int|
            0 <= j < #[trigger] h[i].compositions.len() ==> comp_bounded(
                #[trigger] h[i].compositions[j],
            )
}

/// The distilled mass recorded with a live sample: the still charge minus
/// the Rayleigh estimate between the first entry of the running history
/// (or the new sample itself on the first tick) and the new sample; zero
/// whenever a needed composition is unavailable.
pub open spec fn live_mass_spec(h: Seq<EntryView>, comps: Seq<CompositionResult>) -> int {
    if comps.len() == 0 {
        0
    } else {
        let first = if h.len() == 0 {
            comps
        } else {
            h[0].compositions
        };
        if first.len() == 0 {
            0
        } else {
            match (first[0].x_1, comps[0].x_1, comps[comps.len() - 1].x_1) {
                (Some(b0), Some(bf), Some(d)) => fx_sub_spec(
                    LIVE_INITIAL_MASS as int,
                    estimate_spec(
                        LIVE_INITIAL_MASS as int,
                        b0 as int,
                        bf as int,
                        d as int,
                        RESOLUTION_DEFAULT as int,
                    ),
                ),
                _ => 0,
            }
        }
    }
}

/// The provider for the physical column: it turns two boundary
/// temperatures read off the register reader into a full sample and keeps
/// its own running history for the mass estimate.
#[derive(Debug)]
pub struct LiveDataProvider {
    history: Vec<ColumnEntry>,
}

/// The mathematical value of a live provider: its running history.
pub struct LiveView {
    pub history: Seq<EntryView>,
}

impl View for LiveDataProvider {
    type V = LiveView;

    closed spec fn view(&self) -> LiveView {
        LiveView { history: entries_view(self.history@) }
    }
}

impl LiveDataProvider {
    /// A live provider with an empty running history.
    pub fn new() -> (r: Self)
        ensures
            r@.history.len() == 0,
    {
        LiveDataProvider { history: Vec::new() }
    }

    /// A physical process cannot be rewound: skipping does nothing.
    pub fn skip(&mut self, count: i64) -> (r: Result<(), Error>)
        ensures
            r matches Ok(u),
            final(self)@.history == old(self)@.history,
    {
        Ok(())
    }

    /// Clear the running history; the hardware connection is untouched.
    pub fn reset(&mut self) -> (r: Result<(), Error>)
        ensures
            r matches Ok(u),
            final(self)@.history.len() == 0,
    {
        self.history = Vec::new();
        Ok(())
    }

    /// A live run has no cursor.
    pub fn get_current_index(&self) -> (r: usize)
        ensures
            r == 0,
    {
        0
    }

    /// Turn one pair of boundary temperatures, as read off the column at
    /// `timestamp`, into a full sample: interpolate the plate
    /// temperatures, solve each plate's composition (a failed solve
    /// degrades that plate to an empty pair), estimate the distilled mass
    /// against the start of the running history, and append the sample to
    /// that history.
    #[verifier::rlimit(100)]
    #[verifier::spinoff_prover]
    pub fn produce_entry(
        &mut self,
        service: &CalculationService,
        number_plates: i32,
        t_top: i64,
        t_bottom: i64,
        timestamp: u64,
    ) -> (r: ColumnEntry)
        requires
            -FX_MAX <= t_top <= FX_MAX,
            -FX_MAX <= t_bottom <= FX_MAX,
            number_plates <= 1_000_000_000,
            live_history_wf(old(self)@.history),
        ensures
            entry_wf(r@),
            r@.timestamp == timestamp,
            r@.percentage_complete == 0,
            number_plates <= 2 ==> r@.temperatures.len() == 2,
            number_plates > 2 ==> r@.temperatures.len() == number_plates,
            number_plates <= 2 ==> r@.temperatures[0] as int == round3_spec(t_top as int)
                && r@.temperatures[1] as int == round3_spec(t_bottom as int),
            number_plates > 2 ==> forall|j: int|
                0 <= j < number_plates ==> r@.temperatures[j] as int == plate_temp_spec(
                    number_plates as int,
                    t_top as int,
                    t_bottom as int,
                    j,
                ),
            forall|j: int|
                0 <= j < r@.compositions.len() ==> r@.compositions[j] == solved_comp_spec(
                    *service,
                    r@.temperatures[j],
                ),
            r@.distilled_mass as int == live_mass_spec(old(self)@.history, r@.compositions),
            final(self)@.history == old(self)@.history.push(r@),
            live_history_wf(final(self)@.history),
    {
        let inter_temps = service.interpolate_temps(number_plates, t_top, t_bottom);
        let mut compositions: Vec<CompositionResult> = Vec::new();
        let mut i: usize = 0;
        while i < inter_temps.len()
            invariant
                i <= inter_temps@.len(),
                compositions@.len() == i,
                forall|j: int|
                    0 <= j < i ==> compositions@[j] == solved_comp_spec(*service, inter_temps@[j]),
                forall|j: int| 0 <= j < i ==> comp_bounded(#[trigger] compositions@[j]),
            decreases inter_temps@.len() - i,
        {
            let c = solve_plate(service, inter_temps[i]);
            compositions.push(c);
            i = i + 1;
        }
        let distilled_mass: i64 = if compositions.len() == 0 {
            0
        } else {
            let first_len = if self.history.len() == 0 {
                compositions.len()
            } else {
                self.history[0].compositions.len()
            };
            if first_len == 0 {
                0
            } else {
                proof {
                    assert(comp_bounded(compositions@[0]));
                    assert(comp_bounded(compositions@[compositions@.len() - 1]));
                    if self.history.len() != 0 {
                        assert(comp_bounded(old(self)@.history[0].compositions[0]));
                    }
                }
                let b0_opt = if self.history.len() == 0 {
                    compositions[0].x_1
                } else {
                    self.history[0].compositions[0].x_1
                };
                match (b0_opt, compositions[0].x_1, compositions[compositions.len() - 1].x_1) {
                    (Some(b0), Some(bf), Some(d)) => fx_sub(
                        LIVE_INITIAL_MASS,
                        estimate_remaining_mass(LIVE_INITIAL_MASS, b0, bf, d, RESOLUTION_DEFAULT),
                    ),
                    _ => 0,
                }
            }
        };
        let entry = ColumnEntry {
            timestamp,
            temperatures: inter_temps,
            compositions,
            percentage_complete: 0,
            distilled_mass,
        };
        let stored = entry.clone();
        self.history.push(stored);
        proof {
            assert(entries_view(self.history@) =~= old(self)@.history.push(entry@));
        }
        entry
    }

    /// The running history, as accumulated so far.
    pub fn history_len(&self) -> (r: usize)
        ensures
            r == self@.history.len(),
    {
        self.history.len()
    }
}

impl Clone for LiveDataProvider {
    /// A clone denotes the same running history.
    fn clone(&self) -> (r: Self)
        ensures
            r@.history == self@.history,
    {
        LiveDataProvider { history: clone_entries(&self.history) }
    }
}

} // verus!
