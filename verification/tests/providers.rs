use distillation_tower_monitor::calculations::{CalculationService, CompositionResult};
use distillation_tower_monitor::data::{ColumnEntry, DataSource};
use distillation_tower_monitor::errors::{DataError, Error};
use distillation_tower_monitor::math::SCALE;
use distillation_tower_monitor::playback::PlaybackDataProvider;
use distillation_tower_monitor::provider::{
    AppDataProviderFactory, DataProviderEnum, DataProviderFactory, DataService, LiveReading,
    ProviderFactory,
};

fn sample(tag: u64) -> ColumnEntry {
    ColumnEntry {
        timestamp: tag,
        temperatures: vec![70 * SCALE, 90 * SCALE],
        compositions: vec![
            CompositionResult { x_1: Some(500_000_000), y_1: Some(600_000_000) },
            CompositionResult { x_1: Some(400_000_000), y_1: Some(500_000_000) },
        ],
        percentage_complete: 0,
        distilled_mass: 0,
    }
}

fn five_samples() -> Vec<ColumnEntry> {
    (0..5).map(sample).collect()
}

#[test]
fn playback_skip_then_next_returns_entry_at_cursor() {
    let mut p = PlaybackDataProvider::new(five_samples());
    p.skip(2).unwrap();
    assert_eq!(p.get_current_index(), 2);
    let e = p.get_next_entry(2).unwrap();
    assert_eq!(e.timestamp, 2);
    assert_eq!(p.get_current_index(), 3);
}

#[test]
fn playback_skip_clamps_at_both_ends() {
    let mut p = PlaybackDataProvider::new(five_samples());
    p.skip(-100).unwrap();
    assert_eq!(p.get_current_index(), 0);
    p.skip(100).unwrap();
    assert_eq!(p.get_current_index(), 4);
}

#[test]
fn playback_end_of_data_after_last_entry() {
    let mut p = PlaybackDataProvider::new(five_samples());
    for tag in 0..5 {
        let e = p.get_next_entry(2).unwrap();
        assert_eq!(e.timestamp, tag);
    }
    let r = p.get_next_entry(2);
    assert!(matches!(r, Err(Error::DataError(DataError::NoDataError))));
}

#[test]
fn playback_empty_run_fails_with_empty_data() {
    let mut p = PlaybackDataProvider::new(Vec::new());
    assert!(matches!(
        p.get_next_entry(2),
        Err(Error::DataError(DataError::EmptyDataError))
    ));
    assert!(matches!(p.skip(1), Err(Error::DataError(DataError::EmptyDataError))));
}

#[test]
fn playback_reset_rewinds_to_first_entry() {
    let mut p = PlaybackDataProvider::new(five_samples());
    p.get_next_entry(2).unwrap();
    p.get_next_entry(2).unwrap();
    p.reset().unwrap();
    assert_eq!(p.get_current_index(), 0);
    let e = p.get_next_entry(2).unwrap();
    assert_eq!(e.timestamp, 0);
}

#[test]
fn playback_with_index_starts_at_given_cursor() {
    let mut p = PlaybackDataProvider::with_index(five_samples(), 3);
    let e = p.get_next_entry(2).unwrap();
    assert_eq!(e.timestamp, 3);
}

#[test]
fn replay_recomputes_compositions_from_temperatures() {
    let service = CalculationService::new();
    let factory = ProviderFactory::new();
    let mut provider = match factory.create_playback_provider(five_samples(), 0) {
        DataProviderEnum::Playback(p) => DataProviderEnum::Temperature(p),
        other => other,
    };
    let e = provider.get_next_entry(&service, 2, None).unwrap();
    // The stored pairs are discarded; each plate is solved afresh from
    // its stored temperature, and a plate whose solve fails degrades to
    // an empty pair instead of aborting the batch.
    let expected0 = match service.calculate_composition(None, 70 * SCALE, None, None) {
        Ok(c) => c,
        Err(_) => CompositionResult { x_1: None, y_1: None },
    };
    let expected1 = match service.calculate_composition(None, 90 * SCALE, None, None) {
        Ok(c) => c,
        Err(_) => CompositionResult { x_1: None, y_1: None },
    };
    assert_eq!(e.compositions.len(), 2);
    assert_eq!(e.compositions[0].x_1, expected0.x_1);
    assert_eq!(e.compositions[0].y_1, expected0.y_1);
    assert_eq!(e.compositions[1].x_1, expected1.x_1);
    assert_eq!(e.compositions[1].y_1, expected1.y_1);
    assert_ne!(e.compositions[1].x_1, Some(400_000_000));
    // Everything else is kept from the stored entry.
    assert_eq!(e.timestamp, 0);
    assert_eq!(e.temperatures, vec![70 * SCALE, 90 * SCALE]);
}

#[test]
fn live_without_reading_fails_without_fabricating_data() {
    let service = CalculationService::new();
    let factory = ProviderFactory::new();
    let mut provider = factory.create_live_provider();
    let r = provider.get_next_entry(&service, 5, None);
    assert!(matches!(r, Err(Error::DataError(DataError::CustomError(_)))));
}

#[test]
fn live_reading_produces_well_formed_entry() {
    let service = CalculationService::new();
    let factory = ProviderFactory::new();
    let mut provider = factory.create_live_provider();
    // Register words carry hundredths of a degree: 7850 is 78.5 degrees.
    let reading = LiveReading { t_top_raw: 7850, t_bottom_raw: 9200, timestamp: 42 };
    let e = provider.get_next_entry(&service, 5, Some(reading)).unwrap();
    assert_eq!(e.timestamp, 42);
    assert_eq!(e.temperatures.len(), 5);
    assert_eq!(e.compositions.len(), 5);
    assert_eq!(e.temperatures[0], 78_500_000_000);
    assert_eq!(e.temperatures[4], 92_000_000_000);
    assert_eq!(e.percentage_complete, 0);
}

#[test]
fn live_skip_is_a_no_op() {
    let factory = ProviderFactory::new();
    let mut provider = factory.create_live_provider();
    assert!(provider.skip(7).is_ok());
    assert_eq!(provider.get_current_index(), 0);
}

#[test]
fn data_service_advances_playback_cursor_in_source() {
    let service = DataService::new(CalculationService::new());
    let mut source = DataSource::Playback { data: five_samples(), current_index: 0 };
    let e = service.get_next_entry(&mut source, 2, None).unwrap();
    assert_eq!(e.timestamp, 0);
    match &source {
        DataSource::Playback { current_index, .. } => assert_eq!(*current_index, 1),
        _ => panic!("source variant changed"),
    }
}

#[test]
fn data_service_skip_and_reset_write_cursor_back() {
    let service = DataService::new(CalculationService::new());
    let mut source = DataSource::Playback { data: five_samples(), current_index: 0 };
    service.skip(&mut source, 3).unwrap();
    match &source {
        DataSource::Playback { current_index, .. } => assert_eq!(*current_index, 3),
        _ => panic!("source variant changed"),
    }
    service.reset(&mut source).unwrap();
    match &source {
        DataSource::Playback { current_index, .. } => assert_eq!(*current_index, 0),
        _ => panic!("source variant changed"),
    }
}

#[test]
fn data_source_clone_keeps_the_run() {
    let source = DataSource::Playback { data: five_samples(), current_index: 2 };
    let copy = source.clone();
    match (source, copy) {
        (
            DataSource::Playback { data: d0, current_index: c0 },
            DataSource::Playback { data: d1, current_index: c1 },
        ) => {
            assert_eq!(c0, c1);
            assert_eq!(d0.len(), d1.len());
            assert_eq!(d0[4].timestamp, d1[4].timestamp);
        },
        _ => panic!("clone changed the variant"),
    }
}

#[test]
fn data_service_skip_moves_replay_cursor_like_playback() {
    let service = DataService::new(CalculationService::new());
    let mut source = DataSource::Temperatures { data: five_samples(), current_index: 0 };
    service.skip(&mut source, 3).unwrap();
    match &source {
        DataSource::Temperatures { current_index, .. } => assert_eq!(*current_index, 3),
        _ => panic!("source variant changed"),
    }
    service.skip(&mut source, 100).unwrap();
    match &source {
        DataSource::Temperatures { current_index, .. } => assert_eq!(*current_index, 4),
        _ => panic!("source variant changed"),
    }
    service.skip(&mut source, -100).unwrap();
    match &source {
        DataSource::Temperatures { current_index, .. } => assert_eq!(*current_index, 0),
        _ => panic!("source variant changed"),
    }
}

#[test]
fn factory_trait_builds_the_provider_a_source_denotes() {
    let factory = AppDataProviderFactory::new(CalculationService::new());
    let source = DataSource::Playback { data: five_samples(), current_index: 2 };
    let mut provider = factory.create_provider(&source);
    assert_eq!(provider.get_current_index(), 2);
    let service = CalculationService::new();
    let e = provider.get_next_entry(&service, 2, None).unwrap();
    assert_eq!(e.timestamp, 2);
}
