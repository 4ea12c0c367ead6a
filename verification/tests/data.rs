use distillation_tower_monitor::data::{parse_header_structure, row_progress};
use distillation_tower_monitor::settings::filter_usb_ports;
use distillation_tower_monitor::errors::{Error, ImportError};
use distillation_tower_monitor::math::SCALE;

fn labels(v: &[&str]) -> Vec<String> {
    v.iter().map(|s| s.to_string()).collect()
}

#[test]
fn headers_with_temperature_labels_count_plates() {
    let c = parse_header_structure(&labels(&["Timestamp", "Temperature 1", "Temperature 2"]))
        .unwrap();
    assert_eq!(c.number_plates, 2);
    assert!(!c.has_compositions);
    assert_eq!(c.timestamp_column, 0);
    assert_eq!(c.temperatures_start, 1);
    assert_eq!(c.compositions_x_start, None);
    assert_eq!(c.compositions_y_start, None);
}

#[test]
fn headers_with_composition_labels_place_the_blocks() {
    let c = parse_header_structure(&labels(&[
        "Timestamp",
        "Temperature 1",
        "Temperature 2",
        "Composition x_1 1",
        "Composition x_1 2",
        "Composition y_1 1",
        "Composition y_1 2",
    ]))
    .unwrap();
    assert_eq!(c.number_plates, 2);
    assert!(c.has_compositions);
    assert_eq!(c.compositions_x_start, Some(3));
    assert_eq!(c.compositions_y_start, Some(5));
}

#[test]
fn headers_without_labels_treat_every_data_column_as_a_plate() {
    let c = parse_header_structure(&labels(&["when", "t1", "t2", "t3"])).unwrap();
    assert_eq!(c.number_plates, 3);
    assert!(!c.has_compositions);
}

#[test]
fn headers_with_compositions_but_no_temperature_labels_split_in_three() {
    let c = parse_header_structure(&labels(&[
        "Timestamp",
        "Composition x_1 1",
        "b",
        "c",
        "d",
        "e",
        "f",
    ]))
    .unwrap();
    assert!(c.has_compositions);
    assert_eq!(c.number_plates, 2);
    assert_eq!(c.compositions_x_start, Some(3));
}

#[test]
fn headers_with_one_column_are_rejected() {
    let r = parse_header_structure(&labels(&["Timestamp"]));
    assert!(matches!(r, Err(Error::ImportError(ImportError::InvalidFormat(_)))));
}

#[test]
fn row_progress_is_an_exact_percentage() {
    assert_eq!(row_progress(0, 4), 25 * SCALE);
    assert_eq!(row_progress(3, 4), 100 * SCALE);
    assert_eq!(row_progress(0, 3), 33_333_333_333);
    assert_eq!(row_progress(0, 0), 0);
}

#[test]
fn port_filter_keeps_usb_ports_and_drops_tty_aliases() {
    let ports = vec![
        ("/dev/ttyUSB0".to_string(), true),
        ("/dev/tty.usbserial".to_string(), true),
        ("/dev/ttyS0".to_string(), false),
        ("COM3".to_string(), true),
    ];
    let kept = filter_usb_ports(&ports);
    assert_eq!(kept, vec!["/dev/ttyUSB0".to_string(), "COM3".to_string()]);
}
