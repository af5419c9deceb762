use razer_control::catalog::{DeviceCatalog, SupportedDevice};
use razer_control::text::parse_hex_u16;

fn device(name: &str, vid: &str, pid: &str, features: &[&str], fan: &[u16]) -> SupportedDevice {
    SupportedDevice {
        name: String::from(name),
        vid: String::from(vid),
        pid: String::from(pid),
        features: features.iter().map(|f| String::from(*f)).collect(),
        fan: fan.to_vec(),
    }
}

#[test]
fn has_feature_is_exact_membership() {
    let d = device("Blade", "1532", "0240", &["boost", "logo"], &[0]);
    assert!(d.has_feature("boost"));
    assert!(d.has_feature("logo"));
    assert!(!d.has_feature("fan"));
    assert!(!d.has_feature("boos"));
    assert!(!d.has_feature("boosted"));
    assert!(!d.has_feature(""));
}

#[test]
fn boost_and_logo_queries_follow_membership() {
    let boost_only = device("A", "1532", "0001", &["boost"], &[0]);
    assert!(boost_only.can_boost());
    assert!(!boost_only.has_logo());
    let logo_only = device("B", "1532", "0002", &["logo"], &[0]);
    assert!(!logo_only.can_boost());
    assert!(logo_only.has_logo());
    let neither = device("C", "1532", "0003", &[], &[0]);
    assert!(!neither.can_boost());
    assert!(!neither.has_logo());
}

#[test]
fn load_falls_back_to_embedded_verbatim() {
    let embedded = vec![
        device("A", "1532", "0001", &["logo"], &[0, 4000]),
        device("B", "1532", "0002", &[], &[0]),
    ];
    let catalog = DeviceCatalog::load(None, embedded.clone());
    assert_eq!(catalog.devices, embedded);
}

#[test]
fn load_prefers_the_primary_source() {
    let primary = vec![device("P", "1532", "0009", &[], &[0])];
    let embedded = vec![device("E", "1532", "0001", &[], &[0])];
    let catalog = DeviceCatalog::load(Some(primary.clone()), embedded);
    assert_eq!(catalog.devices, primary);
}

#[test]
fn lookup_takes_the_first_match_in_declaration_order() {
    let catalog = DeviceCatalog {
        devices: vec![
            device("First", "1532", "0240", &[], &[0]),
            device("Second", "1532", "0240", &["logo"], &[0]),
        ],
    };
    let found = catalog.lookup(0x1532, 0x0240).unwrap();
    assert_eq!(found.name, "First");
}

#[test]
fn lookup_misses_return_none() {
    let catalog = DeviceCatalog {
        devices: vec![device("Only", "1532", "0240", &[], &[0])],
    };
    assert!(catalog.lookup(0x1532, 0x0241).is_none());
    assert!(catalog.lookup(0x1533, 0x0240).is_none());
    let empty = DeviceCatalog { devices: vec![] };
    assert!(empty.lookup(0x1532, 0x0240).is_none());
}

#[test]
fn lookup_normalizes_hex_ids() {
    let catalog = DeviceCatalog {
        devices: vec![device("Padded", "01532", "024F", &[], &[0])],
    };
    let found = catalog.lookup(0x1532, 0x024F).unwrap();
    assert_eq!(found.name, "Padded");
}

#[test]
fn hex_parsing_accepts_both_cases_and_leading_zeros() {
    assert_eq!(parse_hex_u16("1532"), Some(0x1532));
    assert_eq!(parse_hex_u16("0240"), Some(0x0240));
    assert_eq!(parse_hex_u16("a53c"), Some(0xA53C));
    assert_eq!(parse_hex_u16("A53C"), Some(0xA53C));
    assert_eq!(parse_hex_u16("00000001"), Some(1));
    assert_eq!(parse_hex_u16("ffff"), Some(0xFFFF));
}

#[test]
fn hex_parsing_rejects_bad_or_oversized_input() {
    assert_eq!(parse_hex_u16(""), None);
    assert_eq!(parse_hex_u16("15g2"), None);
    assert_eq!(parse_hex_u16("0x1532"), None);
    assert_eq!(parse_hex_u16("10000"), None);
    assert_eq!(parse_hex_u16(" 1532"), None);
}
