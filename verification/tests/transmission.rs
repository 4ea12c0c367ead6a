use distillation_tower_monitor::calculations::{CalculationService, CompositionResult};
use distillation_tower_monitor::data::ColumnEntry;
use distillation_tower_monitor::errors::{DataError, Error, SettingsError};
use distillation_tower_monitor::math::SCALE;
use distillation_tower_monitor::provider::ProviderFactory;
use distillation_tower_monitor::settings::{Settings, SettingsService};
use distillation_tower_monitor::transmission::{
    cancel, transmission_tick, ConnectAction, ConnectRetry, History, TickOutcome,
    TransmissionState, BASE_INTERVAL_MS,
};

fn run_of(n: u64) -> Vec<ColumnEntry> {
    (0..n)
        .map(|tag| ColumnEntry {
            timestamp: tag,
            temperatures: vec![70 * SCALE],
            compositions: vec![CompositionResult { x_1: Some(500_000_000), y_1: None }],
            percentage_complete: 0,
            distilled_mass: 0,
        })
        .collect()
}

fn playback_state(n: u64) -> TransmissionState {
    let factory = ProviderFactory::new();
    TransmissionState::new(factory.create_playback_provider(run_of(n), 0))
}

#[test]
fn tick_does_nothing_while_idle() {
    let service = CalculationService::new();
    let mut state = playback_state(3);
    let mut history = History::new();
    let r = transmission_tick(&mut state, &mut history, &service, 1, None);
    assert!(matches!(r, TickOutcome::Stopped));
    assert_eq!(history.len(), 0);
}

#[test]
fn tick_idles_through_a_pause() {
    let service = CalculationService::new();
    let mut state = playback_state(3);
    let mut history = History::new();
    state.start();
    state.toggle();
    let r = transmission_tick(&mut state, &mut history, &service, 1, None);
    assert!(matches!(r, TickOutcome::Paused));
    assert_eq!(history.len(), 0);
}

#[test]
fn tick_produces_and_records_samples_in_order() {
    let service = CalculationService::new();
    let mut state = playback_state(2);
    let mut history = History::new();
    state.start();
    match transmission_tick(&mut state, &mut history, &service, 1, None) {
        TickOutcome::Produced(e) => assert_eq!(e.timestamp, 0),
        other => panic!("unexpected outcome {other:?}"),
    }
    match transmission_tick(&mut state, &mut history, &service, 1, None) {
        TickOutcome::Produced(e) => assert_eq!(e.timestamp, 1),
        other => panic!("unexpected outcome {other:?}"),
    }
    assert_eq!(history.len(), 2);
    let snap = history.snapshot();
    assert_eq!(snap[0].timestamp, 0);
    assert_eq!(snap[1].timestamp, 1);
}

#[test]
fn tick_surfaces_end_of_data_and_keeps_history() {
    let service = CalculationService::new();
    let mut state = playback_state(1);
    let mut history = History::new();
    state.start();
    assert!(matches!(
        transmission_tick(&mut state, &mut history, &service, 1, None),
        TickOutcome::Produced(_)
    ));
    let r = transmission_tick(&mut state, &mut history, &service, 1, None);
    assert!(matches!(r, TickOutcome::Failed(Error::DataError(DataError::NoDataError))));
    assert_eq!(history.len(), 1);
}

#[test]
fn cancel_clears_history_and_replays_from_the_start() {
    let service = CalculationService::new();
    let mut state = playback_state(4);
    let mut history = History::new();
    state.start();
    for _ in 0..3 {
        assert!(matches!(
            transmission_tick(&mut state, &mut history, &service, 1, None),
            TickOutcome::Produced(_)
        ));
    }
    assert_eq!(history.len(), 3);

    cancel(&mut state, &mut history).unwrap();
    assert_eq!(history.len(), 0);
    assert!(!state.is_running);
    assert!(!state.is_paused);
    assert_eq!(state.speed, BASE_INTERVAL_MS);
    assert_eq!(state.data_provider.get_current_index(), 0);

    // A fresh run over the same data yields the same first entry.
    state.start();
    let replayed = match transmission_tick(&mut state, &mut history, &service, 1, None) {
        TickOutcome::Produced(e) => e,
        other => panic!("unexpected outcome {other:?}"),
    };
    let mut fresh = playback_state(4);
    fresh.start();
    let first = match transmission_tick(&mut fresh, &mut history, &service, 1, None) {
        TickOutcome::Produced(e) => e,
        other => panic!("unexpected outcome {other:?}"),
    };
    assert_eq!(replayed.timestamp, first.timestamp);
    assert_eq!(replayed.temperatures, first.temperatures);
}

#[test]
fn set_speed_zero_factor_fails_and_keeps_interval() {
    let mut state = playback_state(1);
    state.apply_speed_factor(2).unwrap();
    assert_eq!(state.speed, 500);
    let r = state.apply_speed_factor(0);
    assert!(matches!(r, Err(Error::DataError(DataError::CustomError(_)))));
    assert_eq!(state.speed, 500);
    assert!(!state.is_running);
}

#[test]
fn speed_factor_divides_the_base_interval() {
    let mut state = playback_state(1);
    state.apply_speed_factor(4).unwrap();
    assert_eq!(state.speed, 250);
    state.apply_speed_factor(1).unwrap();
    assert_eq!(state.speed, 1000);
}

#[test]
fn start_stop_toggle_drive_the_flags() {
    let mut state = playback_state(1);
    assert!(!state.is_running);
    state.start();
    assert!(state.is_running && !state.is_paused);
    state.toggle();
    assert!(state.is_running && state.is_paused);
    state.toggle();
    assert!(state.is_running && !state.is_paused);
    state.stop();
    assert!(!state.is_running && !state.is_paused);
}

#[test]
fn connect_retry_allows_three_attempts_with_backoff() {
    let mut retry = ConnectRetry::new();
    assert_eq!(retry.on_failure(), ConnectAction::Retry(1000));
    assert_eq!(retry.on_failure(), ConnectAction::Retry(1000));
    assert_eq!(retry.on_failure(), ConnectAction::GiveUp);
}

#[test]
fn settings_store_round_trips() {
    let mut service = SettingsService::new();
    let r = service.get_settings();
    assert!(matches!(r, Err(Error::SettingsError(SettingsError::LoadError(_)))));

    let mut s = Settings::default();
    s.modbus.baudrate = 115200;
    s.modbus.usb_port = String::from("COM3");
    let stored = service.update_settings(&s).unwrap();
    assert_eq!(stored.modbus.baudrate, 115200);

    let loaded = service.get_settings().unwrap();
    assert_eq!(loaded.modbus.baudrate, 115200);
    assert_eq!(loaded.modbus.usb_port, "COM3");
    assert_eq!(loaded.modbus.unit_id, 10);
}

#[test]
fn default_settings_match_the_stock_connection() {
    let s = Settings::default();
    assert_eq!(s.modbus.usb_port, "");
    assert_eq!(s.modbus.baudrate, 9600);
    assert_eq!(s.modbus.initial_address, 100);
    assert_eq!(s.modbus.count, 2);
    assert_eq!(s.modbus.timeout, 1000);
    assert_eq!(s.modbus.unit_id, 10);
}

#[test]
fn transmission_state_clone_keeps_everything() {
    let mut state = playback_state(3);
    state.start();
    state.set_speed(123);
    let copy = state.clone();
    assert_eq!(copy.is_running, state.is_running);
    assert_eq!(copy.is_paused, state.is_paused);
    assert_eq!(copy.speed, 123);
    assert_eq!(
        copy.data_provider.get_current_index(),
        state.data_provider.get_current_index()
    );
}
