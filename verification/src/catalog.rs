//! Per-model device descriptors and the catalog that holds them.
//!
//! A `SupportedDevice` is the static record for one laptop model: its name,
//! hex-encoded USB identity, capability feature tags and fan-speed table.
//! The `DeviceCatalog` is the ordered collection of those records, built once
//! from a primary source with an embedded fallback, then only read.

use vstd::prelude::*;

use crate::text::{str_eq, parse_hex_u16, is_hex_string, hex_value};

verus! {

/// Static descriptor of one supported laptop model.
#[derive(Debug, Clone, PartialEq, Eq)]
pub struct SupportedDevice {
    /// Human-readable model name.
    pub name: String,
    /// USB vendor id, hex-encoded.
    pub vid: String,
    /// USB product id, hex-encoded.
    pub pid: String,
    /// Capability tags such as "boost" or "logo"; membership-tested.
    pub features: Vec<String>,
    /// Per-level fan speeds in RPM, index = level.
    pub fan: Vec<u16>,
}

impl SupportedDevice {
    /// The descriptor advertises `feature` among its capability tags.
    pub open spec fn spec_has_feature(self, feature: Seq<char>) -> bool {
        exists|i: int| 0 <= i < self.features@.len() && (#[trigger] self.features@[i])@ == feature
    }

    /// Exact string membership test over the feature tags.
    pub fn has_feature(&self, feature: &str) -> (r: bool)
        ensures
            r == self.spec_has_feature(feature@),
    {
        let mut i: usize = 0;
        while i < self.features.len()
            invariant
                i <= self.features@.len(),
                forall|j: int| 0 <= j < i ==> (#[trigger] self.features@[j])@ != feature@,
            decreases self.features@.len() - i,
        {
            let f: &String = &self.features[i];
            if str_eq(f.as_str(), feature) {
                return true;
            }
            i += 1;
        }
        false
    }

    /// The device supports CPU/GPU boost modes.
    pub fn can_boost(&self) -> (r: bool)
        ensures
            r == self.spec_has_feature("boost"@),
    {
        self.has_feature("boost")
    }

    /// The device has a controllable lid logo.
    pub fn has_logo(&self) -> (r: bool)
        ensures
            r == self.spec_has_feature("logo"@),
    {
        self.has_feature("logo")
    }
}

/// The descriptor's hex-encoded identity denotes exactly this numeric
/// vendor/product pair.
pub open spec fn spec_id_matches(d: SupportedDevice, vendor_id: u16, product_id: u16) -> bool {
    &&& is_hex_string(d.vid@) && hex_value(d.vid@) == vendor_id as int
    &&& is_hex_string(d.pid@) && hex_value(d.pid@) == product_id as int
}

fn id_matches(d: &SupportedDevice, vendor_id: u16, product_id: u16) -> (r: bool)
    ensures
        r == spec_id_matches(*d, vendor_id, product_id),
{
    let v = parse_hex_u16(d.vid.as_str());
    let p = parse_hex_u16(d.pid.as_str());
    match (v, p) {
        (Some(a), Some(b)) => a == vendor_id && b == product_id,
        _ => false,
    }
}

/// First descriptor, in declaration order, whose identity matches.
pub open spec fn spec_lookup(
    devices: Seq<SupportedDevice>,
    vendor_id: u16,
    product_id: u16,
) -> Option<SupportedDevice>
    decreases devices.len(),
{
    if devices.len() == 0 {
        None
    } else if spec_id_matches(devices[0], vendor_id, product_id) {
        Some(devices[0])
    } else {
        spec_lookup(devices.drop_first(), vendor_id, product_id)
    }
}

proof fn lemma_lookup_skip(
    devices: Seq<SupportedDevice>,
    vendor_id: u16,
    product_id: u16,
    i: int,
)
    requires
        0 <= i <= devices.len(),
        forall|j: int| 0 <= j < i ==> !spec_id_matches(#[trigger] devices[j], vendor_id, product_id),
    ensures
        spec_lookup(devices, vendor_id, product_id) == spec_lookup(
            devices.skip(i),
            vendor_id,
            product_id,
        ),
    decreases i,
{
    if i > 0 {
        lemma_lookup_skip(devices, vendor_id, product_id, i - 1);
        assert(devices.skip(i - 1).len() > 0);
        assert(devices.skip(i - 1)[0] == devices[i - 1]);
        assert(devices.skip(i - 1).drop_first() =~= devices.skip(i));
    } else {
        assert(devices.skip(0) =~= devices);
    }
}

/// Ordered collection of device descriptors; read-only after construction.
#[derive(Debug, Clone, PartialEq, Eq)]
pub struct DeviceCatalog {
    /// Descriptors in declaration order; lookup takes the first match.
    pub devices: Vec<SupportedDevice>,
}

impl DeviceCatalog {
    /// Build the catalog from the primary source when it could be read, and
    /// from the embedded default dataset otherwise.
    ///
    /// The fallback is the availability-over-freshness policy: an unreadable
    /// primary source never fails the caller, it yields the embedded entries
    /// verbatim.
    pub fn load(
        primary: Option<Vec<SupportedDevice>>,
        embedded: Vec<SupportedDevice>,
    ) -> (r: DeviceCatalog)
        ensures
            match primary {
                Some(devices) => r.devices == devices,
                None => r.devices == embedded,
            },
    {
        match primary {
            Some(devices) => DeviceCatalog { devices },
            None => DeviceCatalog { devices: embedded },
        }
    }

    /// Look a scanned numeric identity up; first match in declaration order.
    pub fn lookup(&self, vendor_id: u16, product_id: u16) -> (r: Option<&SupportedDevice>)
        ensures
            match r {
                Some(d) => spec_lookup(self.devices@, vendor_id, product_id) == Some(*d),
                None => spec_lookup(self.devices@, vendor_id, product_id) is None,
            },
    {
        let mut i: usize = 0;
        while i < self.devices.len()
            invariant
                i <= self.devices@.len(),
                forall|j: int|
                    0 <= j < i ==> !spec_id_matches(
                        #[trigger] self.devices@[j],
                        vendor_id,
                        product_id,
                    ),
            decreases self.devices@.len() - i,
        {
            let d: &SupportedDevice = &self.devices[i];
            if id_matches(d, vendor_id, product_id) {
                proof {
                    lemma_lookup_skip(self.devices@, vendor_id, product_id, i as int);
                    assert(self.devices@.skip(i as int)[0] == self.devices@[i as int]);
                }
                return Some(d);
            }
            i += 1;
        }
        proof {
            lemma_lookup_skip(self.devices@, vendor_id, product_id, self.devices@.len() as int);
            assert(self.devices@.skip(self.devices@.len() as int).len() == 0);
        }
        None
    }
}

} // verus!
