use remote_bind::emulator::audio::{
    active_media_device, active_micro_device, devices_from_csv, devices_from_records,
    has_media_device, media_devices, micro_devices, next_output_device, parse_volume,
    volume_down, volume_up,
};
use remote_bind::{Audio, Device, DeviceKind, Error};

const LISTING: &str = "\
Name,Type,Direction,Device Name,Default,Default Multimedia,Default Communications,Device State
Speakers,Device,Render,USB Audio,Render,Render,Render,Active
Microphone,Device,Capture,USB Audio,,Capture,,Active
Headphones,Device,Render,HD Audio,,,,Not present
Line In,Device,Capture,HD Audio,,,,Disabled
Master,Subunit,Render,USB Audio,,,,Active
";

#[test]
fn parses_device_listing() {
    let devices = devices_from_csv(LISTING).unwrap();
    assert_eq!(
        devices,
        vec![
            Device { name: "Speakers".to_string(), kind: DeviceKind::Media, is_active: true },
            Device { name: "Microphone".to_string(), kind: DeviceKind::Micro, is_active: true },
            Device { name: "Headphones".to_string(), kind: DeviceKind::Media, is_active: false },
            Device { name: "Line In".to_string(), kind: DeviceKind::Micro, is_active: false },
        ]
    );
}

#[test]
fn empty_listing_is_an_error() {
    assert_eq!(devices_from_csv(""), Err(Error::FoundNoDevices));
    let header_only = "Name,Type,Direction\n";
    assert_eq!(devices_from_csv(header_only), Err(Error::FoundNoDevices));
}

#[test]
fn records_filtering_skips_malformed_rows() {
    let records = vec![
        None,
        Some(vec!["Speakers".to_string(), "Device".to_string(), "Render".to_string()]),
        Some(vec!["".to_string(), "Device".to_string(), "Render".to_string()]),
        Some(vec!["Gadget".to_string(), "Widget".to_string(), "Render".to_string()]),
    ];
    let devices = devices_from_records(&records).unwrap();
    assert_eq!(
        devices,
        vec![Device { name: "Speakers".to_string(), kind: DeviceKind::Media, is_active: false }]
    );
}

fn sample_devices() -> Vec<Device> {
    vec![
        Device { name: "Speakers".to_string(), kind: DeviceKind::Media, is_active: false },
        Device { name: "Microphone".to_string(), kind: DeviceKind::Micro, is_active: true },
        Device { name: "Headphones".to_string(), kind: DeviceKind::Media, is_active: true },
    ]
}

#[test]
fn splits_by_kind() {
    let devices = sample_devices();
    let media = media_devices(&devices);
    assert_eq!(media.len(), 2);
    assert_eq!(media[0].name, "Speakers");
    assert_eq!(media[1].name, "Headphones");
    let micro = micro_devices(&devices);
    assert_eq!(micro.len(), 1);
    assert_eq!(micro[0].name, "Microphone");
}

#[test]
fn finds_active_devices() {
    let devices = sample_devices();
    assert_eq!(active_media_device(&devices).unwrap().name, "Headphones");
    assert_eq!(active_micro_device(&devices).unwrap().name, "Microphone");

    let inactive = vec![
        Device { name: "Speakers".to_string(), kind: DeviceKind::Media, is_active: false },
    ];
    assert_eq!(active_media_device(&inactive), Err(Error::ActiveDeviceNotFound));
    assert_eq!(active_micro_device(&inactive), Err(Error::ActiveDeviceNotFound));
}

#[test]
fn knows_media_device_names() {
    let devices = sample_devices();
    assert!(has_media_device(&devices, &"Speakers".to_string()));
    assert!(!has_media_device(&devices, &"Microphone".to_string()));
    assert!(!has_media_device(&devices, &"Earbuds".to_string()));
}

fn switch_pool() -> Vec<Device> {
    vec![
        Device { name: "Speakers".to_string(), kind: DeviceKind::Media, is_active: true },
        Device { name: "Headphones".to_string(), kind: DeviceKind::Media, is_active: false },
        Device { name: "Microphone".to_string(), kind: DeviceKind::Micro, is_active: true },
    ]
}

fn configured() -> Vec<String> {
    vec!["Speakers".to_string(), "Headphones".to_string()]
}

#[test]
fn next_device_advances_in_configured_list() {
    let next = next_output_device(&switch_pool(), &configured());
    assert_eq!(next, Ok("Headphones".to_string()));
}

#[test]
fn next_device_wraps_around() {
    let mut devices = switch_pool();
    devices[0].is_active = false;
    devices[1].is_active = true;
    let next = next_output_device(&devices, &configured());
    assert_eq!(next, Ok("Speakers".to_string()));
}

#[test]
fn next_device_starts_over_when_active_not_configured() {
    let devices = switch_pool();
    let other = vec!["Headphones".to_string(), "Earbuds".to_string()];
    let next = next_output_device(&devices, &other);
    assert_eq!(next, Ok("Headphones".to_string()));
}

#[test]
fn next_device_reports_missing_successor() {
    let devices = switch_pool();
    let other = vec!["Speakers".to_string(), "Earbuds".to_string()];
    let next = next_output_device(&devices, &other);
    assert_eq!(next, Err(Error::DeviceNotFound("Earbuds".to_string())));
}

#[test]
fn next_device_needs_configured_outputs() {
    assert_eq!(next_output_device(&switch_pool(), &vec![]), Err(Error::FoundNoDevices));
}

#[test]
fn next_device_needs_an_active_output() {
    let mut devices = switch_pool();
    devices[0].is_active = false;
    assert_eq!(
        next_output_device(&devices, &configured()),
        Err(Error::ActiveDeviceNotFound)
    );
}

#[test]
fn device_kind_predicates() {
    assert!(DeviceKind::Media.is_media_device());
    assert!(!DeviceKind::Media.is_micro_device());
    assert!(DeviceKind::Micro.is_micro_device());
    assert!(!DeviceKind::Micro.is_media_device());
}

#[test]
fn audio_controller_keeps_paths() {
    let audio = Audio::new("/bin/svv".to_string(), "/bin/svcl".to_string()).unwrap();
    assert_eq!(audio.svv_path().as_str(), "/bin/svv");
    assert_eq!(audio.svcl_path().as_str(), "/bin/svcl");
}

#[test]
fn volume_arithmetic_is_clamped() {
    assert_eq!(volume_up(50, 2), 52);
    assert_eq!(volume_up(99, 5), 100);
    assert_eq!(volume_up(100, 2), 100);
    assert_eq!(volume_down(50, 5), 45);
    assert_eq!(volume_down(1, 5), 0);
    assert_eq!(volume_down(0, 2), 0);
}

#[test]
fn parses_volume_output() {
    assert_eq!(parse_volume("500\r\n"), 50);
    assert_eq!(parse_volume("  755 "), 75);
    assert_eq!(parse_volume("0"), 0);
    assert_eq!(parse_volume("1000"), 100);
    assert_eq!(parse_volume("abc"), 0);
    assert_eq!(parse_volume(""), 0);
    assert_eq!(parse_volume("12x3"), 0);
    assert_eq!(parse_volume("999999999999999999999999999999999999999"), 0);
}
