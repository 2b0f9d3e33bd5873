use remote_bind::binds::action_from_fields;
use remote_bind::{format_uniq_id, uniq_id, Action, Config, Error, Key};

#[test]
fn default_config_values() {
    let cfg = Config::default();
    assert_eq!(cfg.com_port, 8);
    assert_eq!(cfg.baud_rate, 9600);
    assert_eq!(cfg.audio_devices, vec!["Speakers".to_string(), "Headphones".to_string()]);
    cfg.init();
}

#[test]
fn config_clone_is_exact() {
    let cfg = Config::default();
    assert_eq!(cfg.clone(), cfg);
}

#[test]
fn action_needs_exactly_one_field() {
    assert_eq!(
        action_from_fields(Some("navigation".to_string()), None, None, None),
        Some(Action::Handler { handler: "navigation".to_string() })
    );
    assert_eq!(
        action_from_fields(None, Some(vec![Key::LControl, Key::W]), None, None),
        Some(Action::Shortcut { shortcut: vec![Key::LControl, Key::W] })
    );
    assert_eq!(
        action_from_fields(None, None, Some(vec![Key::F11]), None),
        Some(Action::Press { press: vec![Key::F11] })
    );
    assert_eq!(
        action_from_fields(None, None, None, Some("example.com".to_string())),
        Some(Action::Open { open: "example.com".to_string() })
    );
}

#[test]
fn action_rejects_zero_or_several_fields() {
    assert_eq!(action_from_fields(None, None, None, None), None);
    assert_eq!(
        action_from_fields(
            Some("navigation".to_string()),
            None,
            None,
            Some("example.com".to_string())
        ),
        None
    );
    assert_eq!(
        action_from_fields(
            Some("navigation".to_string()),
            Some(vec![Key::Tab]),
            Some(vec![Key::Tab]),
            Some("example.com".to_string())
        ),
        None
    );
}

#[test]
fn error_messages() {
    assert_eq!(Error::FoundNoDevices.message(), "No audio devices set");
    assert_eq!(Error::FailedReadDevicesList.message(), "Failed to get devices list");
    assert_eq!(Error::ActiveDeviceNotFound.message(), "Found no active audio device");
    assert_eq!(
        Error::DeviceNotFound("Earbuds".to_string()).message(),
        "Found no audio device named as 'Earbuds'"
    );
    assert_eq!(Error::String("boom".to_string()).message(), "boom");
    assert_eq!(
        Error::InvalidRootPath.message(),
        "Couldn't get the directory of the root path"
    );
    assert_eq!(
        Error::InvalidPath.message(),
        "The path contains invalid UTF-8 characters"
    );
}

#[test]
fn formats_identifier_exactly() {
    assert_eq!(format_uniq_id(1706000000000, 0xabcd), "1706000000000abcd");
    assert_eq!(format_uniq_id(0, 0), "00000");
    assert_eq!(format_uniq_id(9, 0x00ff), "900ff");
}

#[test]
fn generated_identifier_has_expected_shape() {
    let id = uniq_id();
    assert!(id.len() >= 5);
    let (stamp, salt) = id.split_at(id.len() - 4);
    assert!(stamp.chars().all(|c| c.is_ascii_digit()));
    assert!(salt.chars().all(|c| c.is_ascii_hexdigit()));
}
