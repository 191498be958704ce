//! Zigbee devices and their endpoints.

use vstd::prelude::*;
use crate::hex::{format_reversed_hex, reversed_hex};

verus! {

/// Network role of a device.
#[derive(Debug, Clone, Copy, PartialEq, Eq, Structural)]
pub enum DeviceType {
    Coordinator,
    Router,
    EndDevice,
}

/// User classification of a device.
#[derive(Debug, Clone, Copy, PartialEq, Eq, Structural)]
pub enum DeviceCategory {
    Light,
    Outlet,
    Switch,
    Sensor,
    Lock,
    Thermostat,
    Fan,
    Blinds,
    Other,
}

impl Default for DeviceCategory {
    fn default() -> (r: Self)
        ensures
            r == DeviceCategory::Other,
    {
        DeviceCategory::Other
    }
}

/// An application endpoint of a device.
#[derive(Debug, Clone)]
pub struct Endpoint {
    /// Endpoint number (1-240).
    pub id: u8,
    /// Profile (0x0104 for Home Automation).
    pub profile_id: u16,
    /// Device identifier within the profile.
    pub device_id: u16,
    /// Input (server) clusters.
    pub in_clusters: Vec<u16>,
    /// Output (client) clusters.
    pub out_clusters: Vec<u16>,
}

/// Two endpoints with the same contents.
pub open spec fn same_endpoint(a: Endpoint, b: Endpoint) -> bool {
    a.id == b.id && a.profile_id == b.profile_id && a.device_id == b.device_id
        && a.in_clusters@ == b.in_clusters@ && a.out_clusters@ == b.out_clusters@
}

/// Whether an endpoint lists a cluster as input or output.
pub open spec fn endpoint_has_cluster(e: Endpoint, cluster_id: u16) -> bool {
    e.in_clusters@.contains(cluster_id) || e.out_clusters@.contains(cluster_id)
}

fn list_contains(list: &Vec<u16>, x: u16) -> (r: bool)
    ensures
        r == list@.contains(x),
{
    let mut i: usize = 0;
    while i < list.len()
        invariant
            i <= list@.len(),
            forall|j: int| 0 <= j < i ==> list@[j] != x,
        decreases list@.len() - i,
    {
        if list[i] == x {
            return true;
        }
        i = i + 1;
    }
    false
}

fn copy_list(list: &Vec<u16>) -> (r: Vec<u16>)
    ensures
        r@ == list@,
{
    let mut out: Vec<u16> = Vec::new();
    let mut i: usize = 0;
    while i < list.len()
        invariant
            i <= list@.len(),
            out@ == list@.subrange(0, i as int),
        decreases list@.len() - i,
    {
        out.push(list[i]);
        i = i + 1;
        assert(out@ =~= list@.subrange(0, i as int));
    }
    assert(out@ =~= list@);
    out
}

impl Endpoint {
    /// A copy with the same contents.
    pub fn copy(&self) -> (r: Endpoint)
        ensures
            same_endpoint(r, *self),
    {
        Endpoint {
            id: self.id,
            profile_id: self.profile_id,
            device_id: self.device_id,
            in_clusters: copy_list(&self.in_clusters),
            out_clusters: copy_list(&self.out_clusters),
        }
    }

    /// Whether the endpoint lists the cluster as input or output.
    pub fn has_cluster(&self, cluster_id: u16) -> (r: bool)
        ensures
            r == endpoint_has_cluster(*self, cluster_id),
    {
        list_contains(&self.in_clusters, cluster_id) || list_contains(&self.out_clusters, cluster_id)
    }

    /// A light: On/Off (0x0006) or Level Control (0x0008).
    pub fn is_light(&self) -> (r: bool)
        ensures
            r == (endpoint_has_cluster(*self, 0x0006) || endpoint_has_cluster(*self, 0x0008)),
    {
        self.has_cluster(0x0006) || self.has_cluster(0x0008)
    }

    /// A colour light: Color Control (0x0300).
    pub fn is_color_light(&self) -> (r: bool)
        ensures
            r == endpoint_has_cluster(*self, 0x0300),
    {
        self.has_cluster(0x0300)
    }

    /// A temperature sensor (0x0402).
    pub fn has_temperature(&self) -> (r: bool)
        ensures
            r == endpoint_has_cluster(*self, 0x0402),
    {
        self.has_cluster(0x0402)
    }

    /// A humidity sensor (0x0405).
    pub fn has_humidity(&self) -> (r: bool)
        ensures
            r == endpoint_has_cluster(*self, 0x0405),
    {
        self.has_cluster(0x0405)
    }

    /// An occupancy sensor (0x0406).
    pub fn is_occupancy_sensor(&self) -> (r: bool)
        ensures
            r == endpoint_has_cluster(*self, 0x0406),
    {
        self.has_cluster(0x0406)
    }
}

/// A device on the network. Its identity is the IEEE address, stored
/// little-endian; the short address may change.
#[derive(Debug, Clone)]
pub struct ZigbeeDevice {
    /// IEEE address (EUI-64), little-endian.
    pub ieee_address: [u8; 8],
    /// Current network short address.
    pub nwk_address: u16,
    /// Network role.
    pub device_type: DeviceType,
    /// User category.
    pub category: DeviceCategory,
    /// Manufacturer name.
    pub manufacturer: Option<String>,
    /// Model identifier.
    pub model: Option<String>,
    /// User-assigned name.
    pub friendly_name: Option<String>,
    /// Endpoints, at most one per endpoint number.
    pub endpoints: Vec<Endpoint>,
    /// When the device was last heard from, on a monotonic clock in milliseconds.
    pub last_seen: Option<u64>,
    /// Link quality.
    pub lqi: Option<u8>,
    /// Whether the device is reachable.
    pub available: bool,
    /// Last known on/off state.
    pub state_on: Option<bool>,
}

/// Two endpoint lists with the same contents, entry by entry.
pub open spec fn same_endpoints(a: Seq<Endpoint>, b: Seq<Endpoint>) -> bool {
    a.len() == b.len() && forall|i: int| 0 <= i < a.len() ==> same_endpoint(#[trigger] a[i], b[i])
}

/// Two devices with the same contents.
pub open spec fn same_device(a: ZigbeeDevice, b: ZigbeeDevice) -> bool {
    &&& a.ieee_address@ == b.ieee_address@
    &&& a.nwk_address == b.nwk_address
    &&& a.device_type == b.device_type
    &&& a.category == b.category
    &&& a.manufacturer == b.manufacturer
    &&& a.model == b.model
    &&& a.friendly_name == b.friendly_name
    &&& same_endpoints(a.endpoints@, b.endpoints@)
    &&& a.last_seen == b.last_seen
    &&& a.lqi == b.lqi
    &&& a.available == b.available
    &&& a.state_on == b.state_on
}

fn copy_text(s: &Option<String>) -> (r: Option<String>)
    ensures
        r == *s,
{
    match s {
        Some(t) => Some(t.clone()),
        None => None,
    }
}

fn copy_endpoints(list: &Vec<Endpoint>) -> (r: Vec<Endpoint>)
    ensures
        same_endpoints(r@, list@),
{
    let mut out: Vec<Endpoint> = Vec::new();
    let mut i: usize = 0;
    while i < list.len()
        invariant
            i <= list@.len(),
            out@.len() == i,
            forall|j: int| 0 <= j < i ==> same_endpoint(#[trigger] out@[j], list@[j]),
        decreases list@.len() - i,
    {
        out.push(list[i].copy());
        i = i + 1;
    }
    out
}

impl ZigbeeDevice {
    /// A newly seen end device: available, uncategorised, with nothing else known.
    pub fn new(ieee_address: [u8; 8], nwk_address: u16) -> (r: ZigbeeDevice)
        ensures
            r.ieee_address == ieee_address,
            r.nwk_address == nwk_address,
            r.device_type == DeviceType::EndDevice,
            r.category == DeviceCategory::Other,
            r.manufacturer is None,
            r.model is None,
            r.friendly_name is None,
            r.endpoints@.len() == 0,
            r.last_seen is None,
            r.lqi is None,
            r.available,
            r.state_on is None,
    {
        ZigbeeDevice {
            ieee_address,
            nwk_address,
            device_type: DeviceType::EndDevice,
            category: DeviceCategory::Other,
            manufacturer: None,
            model: None,
            friendly_name: None,
            endpoints: Vec::new(),
            last_seen: None,
            lqi: None,
            available: true,
            state_on: None,
        }
    }

    /// A copy with the same contents.
    pub fn copy(&self) -> (r: ZigbeeDevice)
        ensures
            same_device(r, *self),
    {
        ZigbeeDevice {
            ieee_address: self.ieee_address,
            nwk_address: self.nwk_address,
            device_type: self.device_type,
            category: self.category,
            manufacturer: copy_text(&self.manufacturer),
            model: copy_text(&self.model),
            friendly_name: copy_text(&self.friendly_name),
            endpoints: copy_endpoints(&self.endpoints),
            last_seen: self.last_seen,
            lqi: self.lqi,
            available: self.available,
            state_on: self.state_on,
        }
    }

    /// The IEEE address in display form: colon-separated hex, most
    /// significant byte first.
    pub fn ieee_address_string(&self) -> (r: String)
        ensures
            r@ == reversed_hex(self.ieee_address@),
    {
        format_reversed_hex(&self.ieee_address)
    }

    /// The friendly name, else the model, else the IEEE address string.
    pub fn display_name(&self) -> (r: String)
        ensures
            r@ == (match self.friendly_name {
                Some(n) => n@,
                None => match self.model {
                    Some(m) => m@,
                    None => reversed_hex(self.ieee_address@),
                },
            }),
    {
        match &self.friendly_name {
            Some(n) => n.clone(),
            None => match &self.model {
                Some(m) => m.clone(),
                None => self.ieee_address_string(),
            },
        }
    }
}

} // verus!
