use vstd::prelude::*;

verus! {

use crate::calculations::{solved_comp_spec, solve_plate, CalculationService, CompositionResult};
use crate::data::{
    clone_entries, entries_view, entry_wf, ColumnEntry, DataSource, EntryView, SourceView,
};
use crate::errors::{DataError, Error};
use crate::live::{live_history_wf, live_mass_spec, LiveDataProvider, LiveView};
use crate::math::{round3_spec, FX_MAX};
use crate::playback::{skip_target, PlaybackDataProvider, PlaybackView};
use crate::calculations::plate_temp_spec;

/// One reading of the two boundary holding registers, with the moment it
/// was taken. The register words carry hundredths of a degree.
#[derive(Clone, Copy, Debug)]
pub struct LiveReading {
    pub t_top_raw: u16,
    pub t_bottom_raw: u16,
    pub timestamp: u64,
}

/// A register word, in hundredths of a degree, as a fixed-point
/// temperature.
pub open spec fn raw_temp_spec(raw: u16) -> int {
    raw * 10_000_000
}

/// Turn a register word into a fixed-point temperature.
pub fn raw_temp(raw: u16) -> (r: i64)
    ensures
        r as int == raw_temp_spec(raw),
        0 <= r <= FX_MAX,
{
    (raw as i64) * 10_000_000
}

/// The closed set of provider variants: a stored run played back, the live
/// column, or a stored run replayed with recomputed compositions.
#[derive(Debug)]
pub enum DataProviderEnum {
    Playback(PlaybackDataProvider),
    Live(LiveDataProvider),
    Temperature(PlaybackDataProvider),
}

/// The mathematical value of a provider.
pub enum ProviderView {
    Playback(PlaybackView),
    Live(LiveView),
    Temperature(PlaybackView),
}

impl View for DataProviderEnum {
    type V = ProviderView;

    open spec fn view(&self) -> ProviderView {
        match self {
            DataProviderEnum::Playback(p) => ProviderView::Playback(p@),
            DataProviderEnum::Live(l) => ProviderView::Live(l@),
            DataProviderEnum::Temperature(p) => ProviderView::Temperature(p@),
        }
    }
}

/// What every provider must satisfy before producing: a live history only
/// ever holds what the solver produced.
pub open spec fn provider_wf(v: ProviderView) -> bool {
    match v {
        ProviderView::Live(l) => live_history_wf(l.history),
        _ => true,
    }
}

/// Cursor semantics shared by playback and replay: the entry at the cursor
/// comes out and the cursor advances; an empty run and an exhausted run
/// fail with their own errors.
pub open spec fn cursor_step(o: PlaybackView, f: PlaybackView, taken: Option<EntryView>, failed:
    Option<Error>) -> bool {
    &&& f.data == o.data
    &&& (o.data.len() == 0 ==> taken is None && (failed matches Some(Error::DataError(
        DataError::EmptyDataError))) && f.current_index == o.current_index)
    &&& (o.data.len() > 0 && o.current_index >= o.data.len() ==> taken is None && (
    failed matches Some(Error::DataError(DataError::NoDataError))) && f.current_index
        == o.current_index)
    &&& (o.data.len() > 0 && o.current_index < o.data.len() ==> (taken matches Some(e) && e
        == o.data[o.current_index]) && failed is None && f.current_index == o.current_index + 1)
}

/// A replayed entry: the stored sample with its compositions recomputed
/// from its stored temperatures, so changed equilibrium parameters apply
/// to a historical run.
pub open spec fn replayed_entry_spec(service: CalculationService, e: EntryView) -> EntryView {
    EntryView {
        compositions: e.temperatures.map_values(|t: i64| solved_comp_spec(service, t)),
        ..e
    }
}

/// What one produced sample means for each provider variant; `reading` is
/// the register reading the caller supplies when the live column is
/// active.
pub open spec fn produce_post(
    o: ProviderView,
    f: ProviderView,
    service: CalculationService,
    number_plates: int,
    reading: Option<LiveReading>,
    r: Result<ColumnEntry, Error>,
) -> bool {
    match (o, f) {
        (ProviderView::Playback(po), ProviderView::Playback(pf)) => {
            &&& (r matches Ok(e) ==> cursor_step(po, pf, Some(e@), None))
            &&& (r matches Err(er) ==> cursor_step(po, pf, None, Some(er)))
        },
        (ProviderView::Temperature(po), ProviderView::Temperature(pf)) => {
            &&& (r matches Ok(e) ==> po.data.len() > 0 && po.current_index < po.data.len() && e@
                == replayed_entry_spec(service, po.data[po.current_index]) && pf.data == po.data
                && pf.current_index == po.current_index + 1)
            &&& (r matches Err(er) ==> cursor_step(po, pf, None, Some(er)))
        },
        (ProviderView::Live(lo), ProviderView::Live(lf)) => {
            &&& (reading is None ==> (r matches Err(Error::DataError(DataError::CustomError(m))))
                && lf.history == lo.history)
            &&& (reading matches Some(rd) ==> (r matches Ok(e) && e@.timestamp == rd.timestamp
                && entry_wf(e@) && lf.history == lo.history.push(e@) && e@.distilled_mass as int
                == live_mass_spec(lo.history, e@.compositions) && (forall|j: int|
                0 <= j < e@.compositions.len() ==> e@.compositions[j] == solved_comp_spec(
                    service,
                    e@.temperatures[j],
                )) && (number_plates > 2 ==> e@.temperatures.len() == number_plates && (forall|
                j: int|
                0 <= j < number_plates ==> e@.temperatures[j] as int == plate_temp_spec(
                    number_plates,
                    raw_temp_spec(rd.t_top_raw),
                    raw_temp_spec(rd.t_bottom_raw),
                    j,
                ))) && (number_plates <= 2 ==> e@.temperatures.len() == 2 && e@.temperatures[0]
                as int == round3_spec(raw_temp_spec(rd.t_top_raw)) && e@.temperatures[1] as int
                == round3_spec(raw_temp_spec(rd.t_bottom_raw)))))
        },
        _ => false,
    }
}

/// The cursor motion of `skip` for each variant: playback and replay clamp
/// into the run, the live column ignores the request.
pub open spec fn skip_post(o: ProviderView, f: ProviderView, count: int, r: Result<(), Error>) -> bool {
    match (o, f) {
        (ProviderView::Playback(po), ProviderView::Playback(pf)) => {
            &&& pf.data == po.data
            &&& (po.data.len() == 0 ==> (r matches Err(Error::DataError(DataError::EmptyDataError)))
                && pf.current_index == po.current_index)
            &&& (po.data.len() > 0 ==> r is Ok && pf.current_index == skip_target(
                po.current_index,
                count,
                po.data.len() as int,
            ))
        },
        (ProviderView::Temperature(po), ProviderView::Temperature(pf)) => {
            &&& pf.data == po.data
            &&& (po.data.len() == 0 ==> (r matches Err(Error::DataError(DataError::EmptyDataError)))
                && pf.current_index == po.current_index)
            &&& (po.data.len() > 0 ==> r is Ok && pf.current_index == skip_target(
                po.current_index,
                count,
                po.data.len() as int,
            ))
        },
        (ProviderView::Live(lo), ProviderView::Live(lf)) => r is Ok && lf.history == lo.history,
        _ => false,
    }
}

/// What `reset` restores for each variant: the cursor to the start of the
/// run, or the live history to empty.
pub open spec fn reset_post(o: ProviderView, f: ProviderView, r: Result<(), Error>) -> bool {
    match (o, f) {
        (ProviderView::Playback(po), ProviderView::Playback(pf)) => r is Ok && pf.data == po.data
            && pf.current_index == 0,
        (ProviderView::Temperature(po), ProviderView::Temperature(pf)) => r is Ok && pf.data
            == po.data && pf.current_index == 0,
        (ProviderView::Live(lo), ProviderView::Live(lf)) => r is Ok && lf.history.len() == 0,
        _ => false,
    }
}

/// The position a provider reports: its cursor, or zero for the live
/// column.
pub open spec fn current_index_of(v: ProviderView) -> int {
    match v {
        ProviderView::Playback(p) => p.current_index,
        ProviderView::Temperature(p) => p.current_index,
        ProviderView::Live(_) => 0,
    }
}

impl DataProviderEnum {
    /// Produce the next sample. The live column needs a register reading
    /// from the caller; without one it fails rather than fabricate data.
    pub fn get_next_entry(
        &mut self,
        service: &CalculationService,
        number_plates: i32,
        reading: Option<LiveReading>,
    ) -> (r: Result<ColumnEntry, Error>)
        requires
            number_plates <= 1_000_000_000,
            provider_wf(old(self)@),
        ensures
            produce_post(old(self)@, final(self)@, *service, number_plates as int, reading, r),
            provider_wf(final(self)@),
    {
        match self {
            DataProviderEnum::Playback(p) => p.get_next_entry(number_plates as usize),
            DataProviderEnum::Live(l) => {
                match reading {
                    None => Err(
                        Error::DataError(
                            DataError::CustomError(String::from_str("no register reading available")),
                        ),
                    ),
                    Some(rd) => {
                        let t_top = raw_temp(rd.t_top_raw);
                        let t_bottom = raw_temp(rd.t_bottom_raw);
                        Ok(l.produce_entry(service, number_plates, t_top, t_bottom, rd.timestamp))
                    },
                }
            },
            DataProviderEnum::Temperature(p) => {
                match p.get_next_entry(number_plates as usize) {
                    Err(e) => Err(e),
                    Ok(stored) => {
                        let mut compositions: Vec<CompositionResult> = Vec::new();
                        let mut i: usize = 0;
                        while i < stored.temperatures.len()
                            invariant
                                i <= stored.temperatures@.len(),
                                compositions@.len() == i,
                                forall|j: int|
                                    0 <= j < i ==> compositions@[j] == solved_comp_spec(
                                        *service,
                                        stored.temperatures@[j],
                                    ),
                            decreases stored.temperatures@.len() - i,
                        {
                            let c = solve_plate(service, stored.temperatures[i]);
                            compositions.push(c);
                            i = i + 1;
                        }
                        let replayed = ColumnEntry {
                            timestamp: stored.timestamp,
                            temperatures: stored.temperatures,
                            compositions,
                            percentage_complete: stored.percentage_complete,
                            distilled_mass: stored.distilled_mass,
                        };
                        proof {
                            assert(replayed@.compositions =~= stored@.temperatures.map_values(
                                |t: i64| solved_comp_spec(*service, t)));
                        }
                        Ok(replayed)
                    },
                }
            },
        }
    }

    /// Move the provider by `count` samples, as far as its variant allows.
    pub fn skip(&mut self, count: i64) -> (r: Result<(), Error>)
        ensures
            skip_post(old(self)@, final(self)@, count as int, r),
    {
        match self {
            DataProviderEnum::Playback(p) => p.skip(count),
            DataProviderEnum::Live(l) => l.skip(count),
            DataProviderEnum::Temperature(p) => p.skip(count),
        }
    }

    /// Restore the provider to its initial state.
    pub fn reset(&mut self) -> (r: Result<(), Error>)
        ensures
            reset_post(old(self)@, final(self)@, r),
            provider_wf(final(self)@),
    {
        match self {
            DataProviderEnum::Playback(p) => p.reset(),
            DataProviderEnum::Live(l) => l.reset(),
            DataProviderEnum::Temperature(p) => p.reset(),
        }
    }

    /// The position the provider is at.
    pub fn get_current_index(&self) -> (r: usize)
        ensures
            r as int == current_index_of(self@),
    {
        match self {
            DataProviderEnum::Playback(p) => p.get_current_index(),
            DataProviderEnum::Live(l) => l.get_current_index(),
            DataProviderEnum::Temperature(p) => p.get_current_index(),
        }
    }
}

/// Builds providers for the two ways a run can start: live acquisition or
/// playback of an imported run.
#[derive(Debug)]
pub struct ProviderFactory;

impl ProviderFactory {
    /// The factory itself carries no state.
    pub fn new() -> (r: Self) {
        ProviderFactory
    }

    /// A live provider with an empty running history; the caller owns the
    /// register connection.
    pub fn create_live_provider(&self) -> (r: DataProviderEnum)
        ensures
            r@ matches ProviderView::Live(l) && l.history.len() == 0,
    {
        DataProviderEnum::Live(LiveDataProvider::new())
    }

    /// A playback provider over an imported run, cursor at `index`.
    pub fn create_playback_provider(&self, data: Vec<ColumnEntry>, index: usize) -> (r:
        DataProviderEnum)
        ensures
            r@ matches ProviderView::Playback(p) && p.data == entries_view(data@)
                && p.current_index == index,
    {
        DataProviderEnum::Playback(PlaybackDataProvider::with_index(data, index))
    }
}

} // verus!

verus! {

/// The provider a data source denotes: the stored run behind its cursor,
/// or a live provider starting with an empty history.
pub open spec fn source_provider_view(s: SourceView) -> ProviderView {
    match s {
        SourceView::Live => ProviderView::Live(LiveView { history: Seq::empty() }),
        SourceView::Playback { data, current_index } => ProviderView::Playback(
            PlaybackView { data, current_index },
        ),
        SourceView::Temperatures { data, current_index } => ProviderView::Temperature(
            PlaybackView { data, current_index },
        ),
    }
}

/// Anything that can turn a data source into a provider: the provider it
/// hands back denotes exactly the given source, well-formed.
pub trait DataProviderFactory {
    fn create_provider(&self, data_source: &DataSource) -> (r: DataProviderEnum)
        ensures
            r@ == source_provider_view(data_source@),
            provider_wf(r@),
    ;
}

/// The application's factory: providers are built over the one shared
/// calculation engine.
#[derive(Debug)]
pub struct AppDataProviderFactory {
    pub calculation_service: CalculationService,
}

impl AppDataProviderFactory {
    /// A factory over the given calculation engine.
    pub fn new(calculation_service: CalculationService) -> (r: Self)
        ensures
            r.calculation_service == calculation_service,
    {
        AppDataProviderFactory { calculation_service }
    }
}

impl DataProviderFactory for AppDataProviderFactory {
    fn create_provider(&self, data_source: &DataSource) -> (r: DataProviderEnum) {
        match data_source {
            DataSource::Live => {
                let l = LiveDataProvider::new();
                proof {
                    assert(l@.history =~= Seq::<EntryView>::empty());
                }
                DataProviderEnum::Live(l)
            },
            DataSource::Playback { data, current_index } => DataProviderEnum::Playback(
                PlaybackDataProvider::with_index(clone_entries(data), *current_index),
            ),
            DataSource::Temperatures { data, current_index } => DataProviderEnum::Temperature(
                PlaybackDataProvider::with_index(clone_entries(data), *current_index),
            ),
        }
    }
}

/// What producing one sample through a data source does to it: playback
/// and replay hand out the entry at the cursor and advance it; the live
/// source builds a fresh sample from the supplied register reading.
pub open spec fn service_next_post(
    o: SourceView,
    f: SourceView,
    service: CalculationService,
    number_plates: int,
    reading: Option<LiveReading>,
    r: Result<ColumnEntry, Error>,
) -> bool {
    match (o, f) {
        (
            SourceView::Playback { data: d0, current_index: c0 },
            SourceView::Playback { data: d1, current_index: c1 },
        ) => {
            &&& d1 == d0
            &&& (d0.len() == 0 ==> (r matches Err(Error::DataError(DataError::EmptyDataError)))
                && c1 == c0)
            &&& (d0.len() > 0 && c0 >= d0.len() ==> (r matches Err(Error::DataError(
                DataError::NoDataError))) && c1 == c0)
            &&& (d0.len() > 0 && c0 < d0.len() ==> (r matches Ok(e) && e@ == d0[c0]) && c1 == c0
                + 1)
        },
        (
            SourceView::Temperatures { data: d0, current_index: c0 },
            SourceView::Temperatures { data: d1, current_index: c1 },
        ) => {
            &&& d1 == d0
            &&& (d0.len() == 0 ==> (r matches Err(Error::DataError(DataError::EmptyDataError)))
                && c1 == c0)
            &&& (d0.len() > 0 && c0 >= d0.len() ==> (r matches Err(Error::DataError(
                DataError::NoDataError))) && c1 == c0)
            &&& (d0.len() > 0 && c0 < d0.len() ==> (r matches Ok(e) && e@ == replayed_entry_spec(
                service,
                d0[c0],
            )) && c1 == c0 + 1)
        },
        (SourceView::Live, SourceView::Live) => {
            &&& (reading is None ==> r matches Err(Error::DataError(DataError::CustomError(m))))
            &&& (reading matches Some(rd) ==> (r matches Ok(e) && produce_post(
                ProviderView::Live(LiveView { history: Seq::empty() }),
                ProviderView::Live(LiveView { history: Seq::empty().push(e@) }),
                service,
                number_plates,
                reading,
                r,
            )))
        },
        _ => false,
    }
}

/// What skipping through a data source does to it: playback and replay
/// cursors move by `count`, clamped into the run, exactly alike; the live
/// column ignores the request.
pub open spec fn service_skip_post(o: SourceView, f: SourceView, count: int, r: Result<(),
    Error>) -> bool {
    match (o, f) {
        (
            SourceView::Playback { data: d0, current_index: c0 },
            SourceView::Playback { data: d1, current_index: c1 },
        ) => {
            &&& d1 == d0
            &&& (d0.len() == 0 ==> (r matches Err(Error::DataError(DataError::EmptyDataError)))
                && c1 == c0)
            &&& (d0.len() > 0 ==> r is Ok && c1 == skip_target(c0, count, d0.len() as int))
        },
        (
            SourceView::Temperatures { data: d0, current_index: c0 },
            SourceView::Temperatures { data: d1, current_index: c1 },
        ) => {
            &&& d1 == d0
            &&& (d0.len() == 0 ==> (r matches Err(Error::DataError(DataError::EmptyDataError)))
                && c1 == c0)
            &&& (d0.len() > 0 ==> r is Ok && c1 == skip_target(c0, count, d0.len() as int))
        },
        (SourceView::Live, SourceView::Live) => r is Ok,
        _ => false,
    }
}

/// What resetting a data source does to it: every cursor back to the
/// start.
pub open spec fn service_reset_post(o: SourceView, f: SourceView, r: Result<(), Error>) -> bool {
    match (o, f) {
        (
            SourceView::Playback { data: d0, current_index: c0 },
            SourceView::Playback { data: d1, current_index: c1 },
        ) => r is Ok && d1 == d0 && c1 == 0,
        (
            SourceView::Temperatures { data: d0, current_index: c0 },
            SourceView::Temperatures { data: d1, current_index: c1 },
        ) => r is Ok && d1 == d0 && c1 == 0,
        (SourceView::Live, SourceView::Live) => r is Ok,
        _ => false,
    }
}

/// Drives a data source without owning a provider: each request builds a
/// fresh provider from the source, runs it, and writes the cursor back.
#[derive(Debug)]
pub struct DataService {
    pub calculation_service: CalculationService,
}

impl DataService {
    /// A service over the given calculation engine.
    pub fn new(calculation_service: CalculationService) -> (r: Self)
        ensures
            r.calculation_service == calculation_service,
    {
        DataService { calculation_service }
    }

    fn create_provider(&self, data_source: &DataSource) -> (r: DataProviderEnum)
        ensures
            r@ == source_provider_view(data_source@),
            provider_wf(r@),
    {
        match data_source {
            DataSource::Live => {
                let l = LiveDataProvider::new();
                proof {
                    assert(l@.history =~= Seq::<EntryView>::empty());
                }
                DataProviderEnum::Live(l)
            },
            DataSource::Playback { data, current_index } => DataProviderEnum::Playback(
                PlaybackDataProvider::with_index(clone_entries(data), *current_index),
            ),
            DataSource::Temperatures { data, current_index } => DataProviderEnum::Temperature(
                PlaybackDataProvider::with_index(clone_entries(data), *current_index),
            ),
        }
    }

    /// Produce the next sample from the source and advance its cursor.
    pub fn get_next_entry(
        &self,
        data_source: &mut DataSource,
        number_plates: i32,
        reading: Option<LiveReading>,
    ) -> (r: Result<ColumnEntry, Error>)
        requires
            number_plates <= 1_000_000_000,
        ensures
            service_next_post(old(data_source)@, final(data_source)@, self.calculation_service,
                number_plates as int, reading, r),
    {
        let mut provider = self.create_provider(data_source);
        let result = provider.get_next_entry(&self.calculation_service, number_plates, reading);
        match result {
            Ok(e) => {
                let idx = provider.get_current_index();
                match data_source {
                    DataSource::Playback { current_index, .. } => {
                        *current_index = idx;
                    },
                    DataSource::Temperatures { current_index, .. } => {
                        *current_index = idx;
                    },
                    _ => {},
                }
                Ok(e)
            },
            Err(e) => Err(e),
        }
    }

    /// Move the source's cursor by `skip_count`, clamped to its run.
    pub fn skip(&self, data_source: &mut DataSource, skip_count: i64) -> (r: Result<(), Error>)
        ensures
            service_skip_post(old(data_source)@, final(data_source)@, skip_count as int, r),
    {
        let mut provider = self.create_provider(data_source);
        match provider.skip(skip_count) {
            Err(e) => Err(e),
            Ok(u) => {
                let idx = provider.get_current_index();
                match data_source {
                    DataSource::Playback { current_index, .. } => {
                        *current_index = idx;
                    },
                    DataSource::Temperatures { current_index, .. } => {
                        *current_index = idx;
                    },
                    _ => {},
                }
                Ok(u)
            },
        }
    }

    /// Rewind the source to its start.
    pub fn reset(&self, data_source: &mut DataSource) -> (r: Result<(), Error>)
        ensures
            service_reset_post(old(data_source)@, final(data_source)@, r),
    {
        let mut provider = self.create_provider(data_source);
        match provider.reset() {
            Err(e) => Err(e),
            Ok(u) => {
                match data_source {
                    DataSource::Playback { current_index, .. } => {
                        *current_index = 0;
                    },
                    DataSource::Temperatures { current_index, .. } => {
                        *current_index = 0;
                    },
                    _ => {},
                }
                Ok(u)
            },
        }
    }
}

} // verus!

verus! {

impl Clone for DataProviderEnum {
    /// A clone denotes the same provider, variant and all.
    fn clone(&self) -> (r: Self)
        ensures
            r@ == self@,
    {
        match self {
            DataProviderEnum::Playback(p) => DataProviderEnum::Playback(p.clone()),
            DataProviderEnum::Live(l) => DataProviderEnum::Live(l.clone()),
            DataProviderEnum::Temperature(p) => DataProviderEnum::Temperature(p.clone()),
        }
    }
}

} // verus!
