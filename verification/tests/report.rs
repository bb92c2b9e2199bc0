use midi_capture::cli::{choose_mode, Mode};
use midi_capture::device::{DeviceDescriptor, Direction};
use midi_capture::report::{device_line, direction_label, format_device_id, list_lines};

fn dev(id: i32, name: &str, direction: Direction) -> DeviceDescriptor {
    DeviceDescriptor { id, name: name.to_string(), direction }
}

#[test]
fn device_ids_render_in_decimal() {
    assert_eq!(format_device_id(0), "0");
    assert_eq!(format_device_id(7), "7");
    assert_eq!(format_device_id(10), "10");
    assert_eq!(format_device_id(123), "123");
    assert_eq!(format_device_id(-45), "-45");
    assert_eq!(format_device_id(i32::MAX), "2147483647");
    assert_eq!(format_device_id(i32::MIN), "-2147483648");
}

#[test]
fn direction_labels() {
    assert_eq!(direction_label(Direction::Input), "input");
    assert_eq!(direction_label(Direction::Output), "output");
}

#[test]
fn one_line_per_descriptor() {
    let d = dev(3, "Through Port A", Direction::Input);
    assert_eq!(device_line(&d), "device 3 Through Port A input");
}

#[test]
fn list_mode_prints_one_line_per_device_in_order() {
    // List mode is chosen without opening any port, and the directory is
    // rendered as exactly one line per descriptor, in enumeration order.
    assert_eq!(choose_mode(&vec!["list".to_string()]), Mode::List);

    let devices = vec![
        dev(1, "XONE K2", Direction::Input),
        dev(2, "WINE ALSA Output #1", Direction::Output),
        dev(3, "Through Port A", Direction::Input),
    ];
    let lines = list_lines(&devices);
    assert_eq!(lines.len(), 3);
    assert_eq!(lines[0], "device 1 XONE K2 input");
    assert_eq!(lines[1], "device 2 WINE ALSA Output #1 output");
    assert_eq!(lines[2], "device 3 Through Port A input");
}

#[test]
fn empty_directory_renders_no_lines() {
    let lines = list_lines(&Vec::new());
    assert!(lines.is_empty());
}
