use vstd::prelude::*;

verus! {

use crate::calculations::CalculationService;
use crate::data::{entries_view, ColumnEntry, EntryView};
use crate::errors::{DataError, Error};
use crate::playback::PlaybackView;
use crate::provider::{
    cursor_step, produce_post, provider_wf, reset_post, DataProviderEnum, LiveReading,
    ProviderView,
};

/// The default interval between two produced samples, in milliseconds.
pub const BASE_INTERVAL_MS: u64 = 1000;

/// The append-only record of every sample produced this session, cleared
/// only by an explicit cancel.
#[derive(Debug)]
pub struct History {
    pub history: Vec<ColumnEntry>,
}

impl History {
    /// An empty record.
    pub fn new() -> (r: Self)
        ensures
            r.history@.len() == 0,
    {
        History { history: Vec::new() }
    }

    /// Append one produced sample.
    pub fn push_entry(&mut self, entry: ColumnEntry)
        ensures
            final(self).history@.len() == old(self).history@.len() + 1,
            entries_view(final(self).history@) == entries_view(old(self).history@).push(entry@),
    {
        let ghost e = entry@;
        self.history.push(entry);
        proof {
            assert(entries_view(self.history@) =~= entries_view(old(self).history@).push(e));
        }
    }

    /// Forget every recorded sample.
    pub fn clear(&mut self)
        ensures
            final(self).history@.len() == 0,
    {
        self.history = Vec::new();
    }

    /// A snapshot for a reader: the same samples, independently owned, so
    /// a slow consumer never blocks the writer.
    pub fn snapshot(&self) -> (r: Vec<ColumnEntry>)
        ensures
            entries_view(r@) == entries_view(self.history@),
            r@.len() == self.history@.len(),
    {
        crate::data::clone_entries(&self.history)
    }

    /// How many samples have been recorded.
    pub fn len(&self) -> (r: usize)
        ensures
            r == self.history@.len(),
    {
        self.history.len()
    }
}

impl Default for History {
    /// The default record is empty.
    fn default() -> (r: Self)
        ensures
            r.history@.len() == 0,
    {
        History { history: Vec::new() }
    }
}

/// The controller's shared state: the one active provider, the running and
/// paused flags, and the tick interval in milliseconds.
#[derive(Debug)]
pub struct TransmissionState {
    pub data_provider: DataProviderEnum,
    pub is_running: bool,
    pub is_paused: bool,
    pub speed: u64,
}

/// Two controller states that denote the same thing.
pub open spec fn state_eq(a: TransmissionState, b: TransmissionState) -> bool {
    &&& a.data_provider@ == b.data_provider@
    &&& a.is_running == b.is_running
    &&& a.is_paused == b.is_paused
    &&& a.speed == b.speed
}

impl TransmissionState {
    /// A fresh controller: idle, default cadence, the given provider
    /// installed.
    pub fn new(data_provider: DataProviderEnum) -> (r: Self)
        ensures
            r.data_provider@ == data_provider@,
            !r.is_running,
            !r.is_paused,
            r.speed == BASE_INTERVAL_MS,
    {
        TransmissionState { data_provider, is_running: false, is_paused: false, speed: 1000 }
    }

    /// Begin a run: running, not paused; provider and cadence untouched.
    pub fn start(&mut self)
        ensures
            final(self).is_running,
            !final(self).is_paused,
            final(self).data_provider@ == old(self).data_provider@,
            final(self).speed == old(self).speed,
    {
        self.is_running = true;
        self.is_paused = false;
    }

    /// End a run: not running, not paused; provider and cadence untouched.
    pub fn stop(&mut self)
        ensures
            !final(self).is_running,
            !final(self).is_paused,
            final(self).data_provider@ == old(self).data_provider@,
            final(self).speed == old(self).speed,
    {
        self.is_running = false;
        self.is_paused = false;
    }

    /// Flip between running and paused.
    pub fn toggle(&mut self)
        ensures
            final(self).is_paused == !old(self).is_paused,
            final(self).is_running == old(self).is_running,
            final(self).data_provider@ == old(self).data_provider@,
            final(self).speed == old(self).speed,
    {
        self.is_paused = !self.is_paused;
    }

    /// Replace the active provider wholesale; exactly one is ever bound.
    pub fn set_data_provider(&mut self, data_provider: DataProviderEnum)
        ensures
            final(self).data_provider@ == data_provider@,
            final(self).is_running == old(self).is_running,
            final(self).is_paused == old(self).is_paused,
            final(self).speed == old(self).speed,
    {
        self.data_provider = data_provider;
    }

    /// Set the running flag alone.
    pub fn set_is_running(&mut self, is_running: bool)
        ensures
            final(self).is_running == is_running,
            final(self).is_paused == old(self).is_paused,
            final(self).data_provider@ == old(self).data_provider@,
            final(self).speed == old(self).speed,
    {
        self.is_running = is_running;
    }

    /// Set the paused flag alone.
    pub fn set_is_paused(&mut self, is_paused: bool)
        ensures
            final(self).is_paused == is_paused,
            final(self).is_running == old(self).is_running,
            final(self).data_provider@ == old(self).data_provider@,
            final(self).speed == old(self).speed,
    {
        self.is_paused = is_paused;
    }

    /// Set the tick interval directly, in milliseconds.
    pub fn set_speed(&mut self, speed: u64)
        ensures
            final(self).speed == speed,
            final(self).is_running == old(self).is_running,
            final(self).is_paused == old(self).is_paused,
            final(self).data_provider@ == old(self).data_provider@,
    {
        self.speed = speed;
    }

    /// Back to the initial state: the provider reset, both flags cleared,
    /// the default cadence restored.
    pub fn reset(&mut self) -> (r: Result<(), Error>)
        ensures
            r is Ok,
            reset_post(old(self).data_provider@, final(self).data_provider@, r),
            provider_wf(final(self).data_provider@),
            !final(self).is_running,
            !final(self).is_paused,
            final(self).speed == BASE_INTERVAL_MS,
    {
        let u = self.data_provider.reset()?;
        self.is_running = false;
        self.is_paused = false;
        self.speed = 1000;
        Ok(u)
    }

    /// Scale the cadence: the new interval is the base interval divided by
    /// `factor`. A zero factor is refused with an error and leaves the
    /// interval — and everything else — unchanged; the controller never
    /// crashes on it.
    pub fn apply_speed_factor(&mut self, factor: u32) -> (r: Result<(), Error>)
        ensures
            factor == 0 ==> (r matches Err(Error::DataError(DataError::CustomError(m)))
                && state_eq(*final(self), *old(self))),
            factor > 0 ==> (r is Ok && final(self).speed == BASE_INTERVAL_MS / factor as u64
                && final(self).is_running == old(self).is_running && final(self).is_paused == old(
                self,
            ).is_paused && final(self).data_provider@ == old(self).data_provider@),
    {
        if factor == 0 {
            return Err(
                Error::DataError(DataError::CustomError(String::from_str("speed factor is zero"))),
            );
        }
        self.speed = BASE_INTERVAL_MS / (factor as u64);
        Ok(())
    }
}

/// What one cooperative tick of the streaming loop did.
#[derive(Debug)]
pub enum TickOutcome {
    /// The controller is idle; the loop exits.
    Stopped,
    /// The controller is paused; nothing was produced, check again next
    /// tick.
    Paused,
    /// One sample was produced, recorded, and is ready to hand to the
    /// sink.
    Produced(ColumnEntry),
    /// The provider failed or ran out of data; the loop stops and the
    /// error is surfaced, never swallowed.
    Failed(Error),
}

/// One iteration of the streaming loop: re-read the flags, then either
/// exit, idle through a pause, or produce one sample and append it to the
/// shared history. The caller performs the delivery and the inter-tick
/// wait, so a lock is never held across a suspension.
pub fn transmission_tick(
    state: &mut TransmissionState,
    history: &mut History,
    service: &CalculationService,
    number_plates: i32,
    reading: Option<LiveReading>,
) -> (r: TickOutcome)
    requires
        number_plates <= 1_000_000_000,
        provider_wf(old(state).data_provider@),
    ensures
        provider_wf(final(state).data_provider@),
        !old(state).is_running ==> (r is Stopped && state_eq(*final(state), *old(state))
            && final(history).history@ == old(history).history@),
        old(state).is_running && old(state).is_paused ==> (r is Paused && state_eq(
            *final(state),
            *old(state),
        ) && final(history).history@ == old(history).history@),
        old(state).is_running && !old(state).is_paused ==> (match r {
            TickOutcome::Produced(e) => produce_post(
                old(state).data_provider@,
                final(state).data_provider@,
                *service,
                number_plates as int,
                reading,
                Ok(e),
            ) && entries_view(final(history).history@) == entries_view(old(history).history@).push(
                e@,
            ) && final(state).is_running && !final(state).is_paused && final(state).speed == old(
                state,
            ).speed,
            TickOutcome::Failed(e) => produce_post(
                old(state).data_provider@,
                final(state).data_provider@,
                *service,
                number_plates as int,
                reading,
                Err(e),
            ) && final(history).history@ == old(history).history@ && final(state).is_running
                && !final(state).is_paused && final(state).speed == old(state).speed,
            _ => false,
        }),
{
    if !state.is_running {
        return TickOutcome::Stopped;
    }
    if state.is_paused {
        return TickOutcome::Paused;
    }
    match state.data_provider.get_next_entry(service, number_plates, reading) {
        Ok(entry) => {
            let delivered = entry.clone();
            history.push_entry(entry);
            TickOutcome::Produced(delivered)
        },
        Err(e) => TickOutcome::Failed(e),
    }
}

/// Cancel the session: clear the shared history, reset the active
/// provider to its initial state, and restore the default cadence.
pub fn cancel(state: &mut TransmissionState, history: &mut History) -> (r: Result<(), Error>)
    ensures
        r is Ok,
        final(history).history@.len() == 0,
        reset_post(old(state).data_provider@, final(state).data_provider@, r),
        provider_wf(final(state).data_provider@),
        !final(state).is_running,
        !final(state).is_paused,
        final(state).speed == BASE_INTERVAL_MS,
{
    let u = state.reset()?;
    history.clear();
    Ok(u)
}

/// After a cancel, a playback provider is back at its run's start: the
/// next produced sample is the run's first entry, exactly what a freshly
/// built provider over the same run produces.
pub proof fn lemma_cancel_restores_first_entry(
    o: PlaybackView,
    f: PlaybackView,
    u: Result<(), Error>,
    f2: PlaybackView,
    taken: Option<EntryView>,
    failed: Option<Error>,
)
    requires
        reset_post(ProviderView::Playback(o), ProviderView::Playback(f), u),
        cursor_step(f, f2, taken, failed),
        o.data.len() > 0,
    ensures
        taken == Some(o.data[0]),
        failed is None,
{
}

/// After a cancel, a replay provider is back at its run's start as well:
/// whatever sample it then produces is the recomputation of the run's
/// first entry, exactly what a freshly built replay provider produces.
pub proof fn lemma_cancel_restores_first_replay(
    o: PlaybackView,
    f: PlaybackView,
    u: Result<(), Error>,
    f2: PlaybackView,
    service: CalculationService,
    number_plates: int,
    reading: Option<LiveReading>,
    e: ColumnEntry,
)
    requires
        reset_post(ProviderView::Temperature(o), ProviderView::Temperature(f), u),
        produce_post(
            ProviderView::Temperature(f),
            ProviderView::Temperature(f2),
            service,
            number_plates,
            reading,
            Ok(e),
        ),
        o.data.len() > 0,
    ensures
        e@ == crate::provider::replayed_entry_spec(service, o.data[0]),
{
}

/// The bounded retry schedule of the register-reader connection: at most
/// three attempts, one second of backoff between them.
pub const CONNECT_ATTEMPTS: u32 = 3;

/// The backoff between two connection attempts, in milliseconds.
pub const CONNECT_BACKOFF_MS: u64 = 1000;

/// What to do after a failed connection attempt.
#[derive(Clone, Copy, Debug, PartialEq, Eq, Structural)]
pub enum ConnectAction {
    /// Wait the given number of milliseconds and try again.
    Retry(u64),
    /// The attempt budget is spent; report the connection as failed.
    GiveUp,
}

/// Tracks how many connection attempts have failed, and decides when the
/// budget is spent.
#[derive(Clone, Copy, Debug)]
pub struct ConnectRetry {
    pub attempts_made: u32,
}

impl ConnectRetry {
    /// A fresh schedule: no attempt made yet.
    pub fn new() -> (r: Self)
        ensures
            r.attempts_made == 0,
    {
        ConnectRetry { attempts_made: 0 }
    }

    /// Record one failed attempt: retry after the backoff while attempts
    /// remain, give up on the last one.
    pub fn on_failure(&mut self) -> (r: ConnectAction)
        requires
            old(self).attempts_made < CONNECT_ATTEMPTS,
        ensures
            final(self).attempts_made == old(self).attempts_made + 1,
            final(self).attempts_made < CONNECT_ATTEMPTS ==> r == ConnectAction::Retry(
                CONNECT_BACKOFF_MS,
            ),
            final(self).attempts_made == CONNECT_ATTEMPTS ==> r == ConnectAction::GiveUp,
    {
        self.attempts_made = self.attempts_made + 1;
        if self.attempts_made < CONNECT_ATTEMPTS {
            ConnectAction::Retry(CONNECT_BACKOFF_MS)
        } else {
            ConnectAction::GiveUp
        }
    }
}

} // verus!

verus! {

impl Clone for TransmissionState {
    /// A clone denotes the same controller state, its provider included.
    fn clone(&self) -> (r: Self)
        ensures
            state_eq(r, *self),
    {
        TransmissionState {
            data_provider: self.data_provider.clone(),
            is_running: self.is_running,
            is_paused: self.is_paused,
            speed: self.speed,
        }
    }
}

} // verus!
