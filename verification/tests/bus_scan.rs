use razer_control::usb::{razer_devices, HidDeviceInfo, RAZER_VENDOR_ID};

fn entry(
    vendor_id: u16,
    product_id: u16,
    interface_number: i32,
    manufacturer: Option<&str>,
    product: Option<&str>,
) -> HidDeviceInfo {
    HidDeviceInfo {
        vendor_id,
        product_id,
        interface_number,
        manufacturer: manufacturer.map(String::from),
        product: product.map(String::from),
    }
}

#[test]
fn scan_keeps_only_the_vendor_control_interface() {
    let entries = vec![
        entry(0x1532, 0x0240, 0, Some("Razer"), Some("Blade 15")),
        entry(0x046D, 0x0101, 0, Some("Other"), Some("Mouse")),
        entry(0x1532, 0x0240, 1, Some("Razer"), Some("Blade 15")),
        entry(0x1532, 0x0233, 0, Some("Razer"), Some("Blade Pro")),
        entry(0x1532, 0x0233, 2, Some("Razer"), Some("Blade Pro")),
    ];
    let found = razer_devices(&entries);
    assert_eq!(found.len(), 2);
    for d in &found {
        assert_eq!(d.vendor_id, RAZER_VENDOR_ID);
    }
    assert_eq!(found[0].product_id, 0x0240);
    assert_eq!(found[0].name, "Razer - Blade 15");
    assert_eq!(found[1].product_id, 0x0233);
    assert_eq!(found[1].name, "Razer - Blade Pro");
}

#[test]
fn scan_substitutes_empty_strings_for_missing_descriptors() {
    let entries = vec![
        entry(0x1532, 0x0240, 0, None, Some("Blade 15")),
        entry(0x1532, 0x0233, 0, Some("Razer"), None),
        entry(0x1532, 0x0234, 0, None, None),
    ];
    let found = razer_devices(&entries);
    assert_eq!(found.len(), 3);
    assert_eq!(found[0].name, " - Blade 15");
    assert_eq!(found[1].name, "Razer - ");
    assert_eq!(found[2].name, " - ");
}

#[test]
fn scan_of_an_empty_bus_is_empty() {
    let found = razer_devices(&vec![]);
    assert!(found.is_empty());
}

#[test]
fn scan_never_reports_other_interface_numbers() {
    let entries = vec![
        entry(0x1532, 0x0240, 1, Some("Razer"), Some("Blade 15")),
        entry(0x1532, 0x0240, 2, Some("Razer"), Some("Blade 15")),
        entry(0x1532, 0x0240, -1, Some("Razer"), Some("Blade 15")),
    ];
    let found = razer_devices(&entries);
    assert!(found.is_empty());
}
