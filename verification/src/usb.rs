//! Bus enumeration: from the raw per-interface records the HID layer
//! reports, keep only the vendor's control interfaces and shape them into
//! discovered devices.
//!
//! Opening the HID subsystem and walking the bus are I/O and live outside
//! this crate; the selection and naming rules applied to whatever the bus
//! reported are verified here.

use vstd::prelude::*;

verus! {

/// The vendor id of every device this tool configures.
pub const RAZER_VENDOR_ID: u16 = 0x1532;

/// What the HID layer reports about one attached interface: the numeric
/// identity, the USB interface number, and the optional descriptor strings.
#[derive(Debug, Clone, PartialEq, Eq)]
pub struct HidDeviceInfo {
    pub vendor_id: u16,
    pub product_id: u16,
    pub interface_number: i32,
    pub manufacturer: Option<String>,
    pub product: Option<String>,
}

/// One discovered device, ready for selection or diagnostics.
#[derive(Debug, Clone, PartialEq, Eq)]
pub struct Device {
    pub name: String,
    pub vendor_id: u16,
    pub product_id: u16,
}

/// The interface carries the vendor's config protocol: vendor id 0x1532 and
/// USB interface number 0. The vendor exposes several interfaces per
/// physical device; only interface 0 is addressed.
pub open spec fn is_razer_control_interface(e: HidDeviceInfo) -> bool {
    e.vendor_id == 0x1532 && e.interface_number == 0
}

/// The display name built from the optional descriptor strings: an absent
/// string is shown as empty, never failing the device.
pub open spec fn spec_display_name(manufacturer: Option<String>, product: Option<String>) -> Seq<
    char,
> {
    (match manufacturer {
        Some(m) => m@,
        None => Seq::empty(),
    }) + " - "@ + (match product {
        Some(p) => p@,
        None => Seq::empty(),
    })
}

/// The discovered entry reports this raw interface record.
pub open spec fn reports(d: Device, e: HidDeviceInfo) -> bool {
    &&& d.vendor_id == e.vendor_id
    &&& d.product_id == e.product_id
    &&& d.name@ == spec_display_name(e.manufacturer, e.product)
}

fn device_display_name(manufacturer: &Option<String>, product: &Option<String>) -> (r: String)
    ensures
        r@ == spec_display_name(*manufacturer, *product),
{
    let mut name = match manufacturer {
        Some(m) => m.clone(),
        None => String::from_str(""),
    };
    proof {
        reveal_strlit("");
        assert(""@ =~= Seq::<char>::empty());
    }
    name.append(" - ");
    match product {
        Some(p) => name.append(p.as_str()),
        None => (),
    }
    proof {
        if product is None {
            assert(name@ =~= spec_display_name(*manufacturer, *product));
        }
    }
    name
}

/// Select the vendor's control interfaces from a bus report.
///
/// The result lists, in bus order, one entry per reported interface with
/// vendor id 0x1532 and interface number 0, named
/// "<manufacturer> - <product>" with an empty string substituted for an
/// absent descriptor string. Entries of other vendors or other interface
/// numbers never appear.
pub fn razer_devices(entries: &Vec<HidDeviceInfo>) -> (r: Vec<Device>)
    ensures
        r@.len() == entries@.filter(|e: HidDeviceInfo| is_razer_control_interface(e)).len(),
        forall|i: int|
            0 <= i < r@.len() ==> reports(
                #[trigger] r@[i],
                entries@.filter(|e: HidDeviceInfo| is_razer_control_interface(e))[i],
            ),
        forall|i: int|
            0 <= i < r@.len() ==> (#[trigger] r@[i]).vendor_id == 0x1532,
{
    let mut out: Vec<Device> = Vec::new();
    let mut i: usize = 0;
    while i < entries.len()
        invariant
            i <= entries@.len(),
            out@.len() == entries@.take(i as int).filter(
                |e: HidDeviceInfo| is_razer_control_interface(e),
            ).len(),
            forall|k: int|
                0 <= k < out@.len() ==> reports(
                    #[trigger] out@[k],
                    entries@.take(i as int).filter(
                        |e: HidDeviceInfo| is_razer_control_interface(e),
                    )[k],
                ),
            forall|k: int| 0 <= k < out@.len() ==> (#[trigger] out@[k]).vendor_id == 0x1532,
        decreases entries@.len() - i,
    {
        let e: &HidDeviceInfo = &entries[i];
        proof {
            let cur = seq![entries@[i as int]];
            assert(entries@.take(i as int + 1) =~= entries@.take(i as int) + cur);
            Seq::filter_distributes_over_add(
                entries@.take(i as int),
                cur,
                |x: HidDeviceInfo| is_razer_control_interface(x),
            );
            reveal_with_fuel(Seq::<HidDeviceInfo>::filter, 2);
            assert(cur.drop_last() =~= Seq::<HidDeviceInfo>::empty());
        }
        if e.vendor_id == RAZER_VENDOR_ID && e.interface_number == 0 {
            let name = device_display_name(&e.manufacturer, &e.product);
            let d = Device { name, vendor_id: e.vendor_id, product_id: e.product_id };
            out.push(d);
        }
        i += 1;
    }
    proof {
        assert(entries@.take(entries@.len() as int) =~= entries@);
    }
    out
}

} // verus!
