//! The device inventory and the decisions of the network manager: what each
//! transport event does to the inventory, and what must be sent or emitted.

use vstd::prelude::*;
use crate::device::{
    DeviceCategory, DeviceType, Endpoint, ZigbeeDevice, same_device,
};
use crate::hex::{format_reversed_hex, reversed_hex};
use crate::types::{
    ActiveEndpointsResponse, AddressMode, ApsDataIndication, ApsDataRequest, DeviceState,
    NetworkState, OnOffCommand, ProtocolError, SimpleDescriptorResponse, ZclFrame, ZdoCluster,
    HOME_AUTOMATION_PROFILE, ON_OFF_CLUSTER, ZDO_PROFILE, active_endpoints_of, on_off_byte,
    simple_descriptor_outcome, zdo_cluster_id,
};
use crate::wire::{le16, le16_bytes};
use crate::transport::DeconzEvent;

verus! {

/// Errors of the network manager.
#[derive(Debug, Clone, PartialEq, Eq)]
pub enum NetworkError {
    /// The protocol layer failed.
    Protocol(ProtocolError),
    /// No device has this IEEE address (display form).
    DeviceNotFound(String),
    /// No radio is attached.
    NotConnected,
}

/// Events the network manager emits.
#[derive(Debug, Clone)]
pub enum NetworkEvent {
    /// A device joined for the first time.
    DeviceJoined(ZigbeeDevice),
    /// A device was removed.
    DeviceLeft { ieee_address: [u8; 8] },
    /// A device's record changed.
    DeviceUpdated { ieee_address: [u8; 8] },
    /// The network went up or down.
    NetworkStateChanged { connected: bool },
    /// A device's on/off state changed.
    DeviceStateChanged { ieee_address: [u8; 8], endpoint: u8, state_on: bool },
}

/// Network status, as shown to clients.
#[derive(Debug, Clone)]
pub struct NetworkStatus {
    pub connected: bool,
    pub channel: u8,
    pub pan_id: u16,
    pub extended_pan_id: String,
    pub permit_join: bool,
    pub device_count: usize,
}

/// What the event listener asks its runner to do.
#[derive(Debug, Clone)]
pub enum ListenerAction {
    /// Pull waiting APS data from the radio.
    FetchApsData,
    /// Publish an event.
    Emit(NetworkEvent),
    /// Write a snapshot of the inventory.
    Persist,
    /// Send an APS request now.
    Send(ApsDataRequest),
    /// Send an APS request after a delay, in milliseconds.
    SendAfter { delay_ms: u64, request: ApsDataRequest },
}

/// No two devices share an IEEE address.
pub open spec fn keys_unique(s: Seq<ZigbeeDevice>) -> bool {
    forall|i: int, j: int|
        0 <= i < s.len() && 0 <= j < s.len() && i != j ==> #[trigger] s[i].ieee_address@
            != #[trigger] s[j].ieee_address@
}

/// Some device has this IEEE address.
pub open spec fn has_key(s: Seq<ZigbeeDevice>, k: Seq<u8>) -> bool {
    exists|i: int| 0 <= i < s.len() && #[trigger] s[i].ieee_address@ == k
}

/// Exactly one device has this IEEE address.
pub open spec fn held_once(s: Seq<ZigbeeDevice>, k: Seq<u8>) -> bool {
    exists|i: int|
        0 <= i < s.len() && #[trigger] s[i].ieee_address@ == k && forall|j: int|
            0 <= j < s.len() && j != i ==> #[trigger] s[j].ieee_address@ != k
}

/// `i` is the first device with this short address.
pub open spec fn first_with_short(s: Seq<ZigbeeDevice>, short: u16, i: int) -> bool {
    0 <= i < s.len() && s[i].nwk_address == short && forall|j: int|
        0 <= j < i ==> #[trigger] s[j].nwk_address != short
}

/// Some device has this short address.
pub open spec fn has_short(s: Seq<ZigbeeDevice>, short: u16) -> bool {
    exists|i: int| 0 <= i < s.len() && #[trigger] s[i].nwk_address == short
}

/// A known device after it announced itself again: the announced role and
/// short address, seen now, available.
pub open spec fn reannounced(d: ZigbeeDevice, short: u16, capability: u8, now: u64) -> ZigbeeDevice {
    ZigbeeDevice {
        nwk_address: short,
        device_type: announced_type(capability),
        last_seen: Some(now),
        available: true,
        ..d
    }
}

/// A device after a MAC poll.
pub open spec fn polled(d: ZigbeeDevice, now: u64) -> ZigbeeDevice {
    ZigbeeDevice { last_seen: Some(now), available: true, ..d }
}

/// The role a capability byte announces: router when bit 0x02 is set.
pub open spec fn announced_type(capability: u8) -> DeviceType {
    if capability & 0x02 != 0 {
        DeviceType::Router
    } else {
        DeviceType::EndDevice
    }
}

/// A first-seen device, as recorded from its announcement.
pub open spec fn fresh_device(d: ZigbeeDevice, ieee: [u8; 8], short: u16, capability: u8, now: u64) -> bool {
    &&& d.ieee_address@ == ieee@
    &&& d.nwk_address == short
    &&& d.device_type == announced_type(capability)
    &&& d.category == DeviceCategory::Other
    &&& d.manufacturer is None
    &&& d.model is None
    &&& d.friendly_name is None
    &&& d.endpoints@.len() == 0
    &&& d.last_seen == Some(now)
    &&& d.lqi is None
    &&& d.available
    &&& d.state_on is None
}

/// The on/off state that an On/Off command leads to, given the cached one:
/// off, on, or the opposite of the cached state (off when unknown).
pub open spec fn indicated_state(command: u8, cached: Option<bool>) -> bool {
    if command == 0 {
        false
    } else if command == 1 {
        true
    } else {
        !(match cached {
            Some(b) => b,
            None => false,
        })
    }
}

/// The endpoint a simple descriptor response describes.
pub open spec fn described_by(e: Endpoint, r: SimpleDescriptorResponse) -> bool {
    e.id == r.endpoint && e.profile_id == r.profile_id && e.device_id == r.device_id
        && e.in_clusters@ == r.in_clusters@ && e.out_clusters@ == r.out_clusters@
}

/// The endpoint list after a simple descriptor response is recorded: the
/// first entry with its endpoint number is replaced, or the endpoint is
/// appended.
pub open spec fn endpoints_after_upsert(
    list: Seq<Endpoint>,
    r: SimpleDescriptorResponse,
    result: Seq<Endpoint>,
) -> bool {
    if exists|i: int| 0 <= i < list.len() && #[trigger] list[i].id == r.endpoint {
        exists|i: int|
            0 <= i < list.len() && #[trigger] list[i].id == r.endpoint && (forall|j: int|
                0 <= j < i ==> #[trigger] list[j].id != r.endpoint) && result.len() == list.len()
                && described_by(result[i], r) && forall|j: int|
                0 <= j < list.len() && j != i ==> #[trigger] result[j] == list[j]
    } else {
        result.len() == list.len() + 1 && result.drop_last() == list && described_by(
            result.last(),
            r,
        )
    }
}

/// The metadata edit: an empty name clears the friendly name, another name
/// sets it, and no name leaves it; a category replaces the category.
pub open spec fn edited(
    d: ZigbeeDevice,
    friendly_name: Option<String>,
    category: Option<DeviceCategory>,
) -> ZigbeeDevice {
    ZigbeeDevice {
        friendly_name: match friendly_name {
            Some(n) => if n@.len() == 0 {
                None
            } else {
                Some(n)
            },
            None => d.friendly_name,
        },
        category: match category {
            Some(c) => c,
            None => d.category,
        },
        ..d
    }
}

/// The on/off state a command sent to a device leads to, given the cached
/// one: a toggle of an unknown state leads to none.
pub open spec fn commanded_state(command: OnOffCommand, cached: Option<bool>) -> Option<bool> {
    match command {
        OnOffCommand::On => Some(true),
        OnOffCommand::Off => Some(false),
        OnOffCommand::Toggle => match cached {
            Some(b) => Some(!b),
            None => None,
        },
    }
}

/// The Active Endpoints request sent to a newly announced device.
pub open spec fn is_active_endpoints_request(req: ApsDataRequest, short: u16) -> bool {
    &&& req.request_id == 1
    &&& req.dest_addr_mode == AddressMode::Nwk
    &&& req.dest_short_addr == short
    &&& req.dest_endpoint == 0
    &&& req.profile_id == ZDO_PROFILE
    &&& req.cluster_id == zdo_cluster_id(ZdoCluster::ActiveEpReq)
    &&& req.src_endpoint == 0
    &&& req.asdu@ == seq![1u8] + le16_bytes(short)
    &&& req.tx_options == 0
    &&& req.radius == 0
}

/// The Simple Descriptor request sent for one endpoint of a device.
pub open spec fn is_simple_descriptor_request(req: ApsDataRequest, short: u16, endpoint: u8) -> bool {
    &&& req.request_id == 1
    &&& req.dest_addr_mode == AddressMode::Nwk
    &&& req.dest_short_addr == short
    &&& req.dest_endpoint == 0
    &&& req.profile_id == ZDO_PROFILE
    &&& req.cluster_id == zdo_cluster_id(ZdoCluster::SimpleDescReq)
    &&& req.src_endpoint == 0
    &&& req.asdu@ == seq![1u8] + le16_bytes(short) + seq![endpoint]
    &&& req.tx_options == 0
    &&& req.radius == 0
}

/// The On/Off request that switches a device endpoint: ZCL frame control
/// 0x01, transaction 1, the command, to cluster 0x0006 with an APS ack.
pub open spec fn is_on_off_request(req: ApsDataRequest, short: u16, endpoint: u8, command: OnOffCommand) -> bool {
    &&& req.request_id == 1
    &&& req.dest_addr_mode == AddressMode::Nwk
    &&& req.dest_short_addr == short
    &&& req.dest_endpoint == endpoint
    &&& req.profile_id == HOME_AUTOMATION_PROFILE
    &&& req.cluster_id == ON_OFF_CLUSTER
    &&& req.src_endpoint == 1
    &&& req.asdu@ == seq![0x01u8, 0x01u8, on_off_byte(command)]
    &&& req.tx_options == 0x04
    &&& req.radius == 0
}

/// The On/Off command (0, 1 or 2) carried by a cluster-specific ZCL frame.
pub open spec fn on_off_in(asdu: Seq<u8>) -> Option<u8> {
    let h = if asdu.len() > 0 && asdu[0] & 0x04 != 0 { 3int } else { 1int };
    if asdu.len() < 3 || asdu.len() < h + 2 || asdu[0] & 0x03 != 0x01 || asdu[h + 1] > 2 {
        None
    } else {
        Some(asdu[h + 1])
    }
}

/// What an announcement does to the inventory, and what the listener then
/// does: publish the new device or the update, persist, and for a new device
/// ask for its endpoints half a second later.
pub open spec fn announce_effect(
    old: Seq<ZigbeeDevice>,
    new: Seq<ZigbeeDevice>,
    ieee: [u8; 8],
    short: u16,
    capability: u8,
    now: u64,
    actions: Seq<ListenerAction>,
) -> bool {
    &&& keys_unique(new)
    &&& held_once(new, ieee@)
    &&& forall|k: Seq<u8>| has_key(old, k) ==> has_key(new, k)
    &&& forall|i: int|
        0 <= i < old.len() && #[trigger] old[i].ieee_address@ == ieee@ ==> new == old.update(
            i,
            reannounced(old[i], short, capability, now),
        )
    &&& if !has_key(old, ieee@) {
        &&& new.drop_last() == old
        &&& new.len() == old.len() + 1
        &&& fresh_device(new.last(), ieee, short, capability, now)
        &&& actions.len() == 3
        &&& actions[0] matches ListenerAction::Emit(NetworkEvent::DeviceJoined(d)) && same_device(
            d,
            new.last(),
        )
        &&& actions[1] is Persist
        &&& actions[2] matches ListenerAction::SendAfter { delay_ms, request } && delay_ms == 500
            && is_active_endpoints_request(request, short)
    } else {
        &&& actions.len() == 2
        &&& actions[0] matches ListenerAction::Emit(NetworkEvent::DeviceUpdated { ieee_address })
            && ieee_address@ == ieee@
        &&& actions[1] is Persist
    }
}

/// What an On/Off cluster indication does: a command from a known device
/// updates its cached state, and the change is published.
pub open spec fn on_off_effect(
    old: Seq<ZigbeeDevice>,
    new: Seq<ZigbeeDevice>,
    ind: ApsDataIndication,
    actions: Seq<ListenerAction>,
) -> bool {
    if on_off_in(ind.asdu@) is Some && has_short(old, ind.src_short_addr) {
        forall|i: int|
            first_with_short(old, ind.src_short_addr, i) ==> ({
                let st = indicated_state(on_off_in(ind.asdu@)->Some_0, old[i].state_on);
                &&& new == old.update(i, ZigbeeDevice { state_on: Some(st), ..old[i] })
                &&& actions.len() == 1
                &&& actions[0] matches ListenerAction::Emit(
                    NetworkEvent::DeviceStateChanged { ieee_address, endpoint, state_on },
                ) && ieee_address@ == old[i].ieee_address@ && endpoint == ind.src_endpoint
                    && state_on == st
            })
    } else {
        new == old && actions.len() == 0
    }
}

/// What an Active Endpoints response does: with success status, one Simple
/// Descriptor request per listed endpoint.
pub open spec fn active_endpoints_effect(
    old: Seq<ZigbeeDevice>,
    new: Seq<ZigbeeDevice>,
    asdu: Seq<u8>,
    actions: Seq<ListenerAction>,
) -> bool {
    &&& new == old
    &&& if asdu.len() >= 4 && asdu[1] == 0 {
        &&& actions.len() == active_endpoints_of(asdu).len()
        &&& forall|k: int|
            0 <= k < actions.len() ==> (#[trigger] actions[k] matches ListenerAction::Send(req)
                && is_simple_descriptor_request(req, le16(asdu[2], asdu[3]), active_endpoints_of(asdu)[k]))
    } else {
        actions.len() == 0
    }
}

/// What a Simple Descriptor response does: with success status, the
/// described endpoint is recorded on the first device with its short
/// address, and the update is published and persisted.
pub open spec fn descriptor_effect(
    old: Seq<ZigbeeDevice>,
    new: Seq<ZigbeeDevice>,
    asdu: Seq<u8>,
    actions: Seq<ListenerAction>,
) -> bool {
    if asdu.len() >= 5 && asdu[1] == 0 && (asdu.len() < 6 || asdu.len() >= 11) && has_short(old, le16(asdu[2], asdu[3])) {
        forall|i: int|
            first_with_short(old, le16(asdu[2], asdu[3]), i) ==> {
                &&& new.len() == old.len()
                &&& new[i] == ZigbeeDevice { endpoints: new[i].endpoints, ..old[i] }
                &&& forall|resp: SimpleDescriptorResponse| simple_descriptor_outcome(asdu, Ok(resp))
                    ==> endpoints_after_upsert(old[i].endpoints@, resp, new[i].endpoints@)
                &&& forall|j: int| 0 <= j < old.len() && j != i ==> #[trigger] new[j] == old[j]
                &&& actions.len() == 2
                &&& actions[0] matches ListenerAction::Emit(NetworkEvent::DeviceUpdated { ieee_address })
                    && ieee_address@ == old[i].ieee_address@
                &&& actions[1] is Persist
            }
    } else {
        new == old && actions.len() == 0
    }
}

proof fn lemma_upsert_same_response(
    list: Seq<Endpoint>,
    r0: SimpleDescriptorResponse,
    r1: SimpleDescriptorResponse,
    result: Seq<Endpoint>,
)
    requires
        r0.endpoint == r1.endpoint,
        r0.profile_id == r1.profile_id,
        r0.device_id == r1.device_id,
        r0.in_clusters@ == r1.in_clusters@,
        r0.out_clusters@ == r1.out_clusters@,
        endpoints_after_upsert(list, r0, result),
    ensures
        endpoints_after_upsert(list, r1, result),
{
    if exists|i: int| 0 <= i < list.len() && #[trigger] list[i].id == r0.endpoint {
        let i = choose|i: int|
            0 <= i < list.len() && #[trigger] list[i].id == r0.endpoint && (forall|j: int|
                0 <= j < i ==> #[trigger] list[j].id != r0.endpoint) && result.len() == list.len()
                && described_by(result[i], r0) && forall|j: int|
                0 <= j < list.len() && j != i ==> #[trigger] result[j] == list[j];
        assert(described_by(result[i], r1));
    }
}

/// What an APS indication does, by profile and cluster.
pub open spec fn indication_effect(
    old: Seq<ZigbeeDevice>,
    new: Seq<ZigbeeDevice>,
    ind: ApsDataIndication,
    actions: Seq<ListenerAction>,
) -> bool {
    if ind.profile_id == HOME_AUTOMATION_PROFILE && ind.cluster_id == ON_OFF_CLUSTER {
        on_off_effect(old, new, ind, actions)
    } else if ind.profile_id == ZDO_PROFILE && ind.cluster_id == zdo_cluster_id(ZdoCluster::ActiveEpRsp) {
        active_endpoints_effect(old, new, ind.asdu@, actions)
    } else if ind.profile_id == ZDO_PROFILE && ind.cluster_id == zdo_cluster_id(ZdoCluster::SimpleDescRsp) {
        descriptor_effect(old, new, ind.asdu@, actions)
    } else {
        new == old && actions.len() == 0
    }
}

/// What the listener does for each transport event.
pub open spec fn event_effect(
    old: Seq<ZigbeeDevice>,
    new: Seq<ZigbeeDevice>,
    event: DeconzEvent,
    now: u64,
    actions: Seq<ListenerAction>,
) -> bool {
    match event {
        DeconzEvent::ApsDataAvailable => new == old && actions.len() == 1 && actions[0] is FetchApsData,
        DeconzEvent::DeviceStateChanged(st) => new == old && if st.aps_data_indication {
            actions.len() == 1 && actions[0] is FetchApsData
        } else {
            actions.len() == 0
        },
        DeconzEvent::DeviceAnnounced { ieee_addr, short_addr, capability } => announce_effect(
            old,
            new,
            ieee_addr,
            short_addr,
            capability,
            now,
            actions,
        ),
        DeconzEvent::MacPoll { short_addr } => actions.len() == 0 && (forall|i: int|
            first_with_short(old, short_addr, i) ==> new == old.update(i, polled(old[i], now)))
            && (!has_short(old, short_addr) ==> new == old),
        DeconzEvent::ApsIndication(ind) => indication_effect(old, new, ind, actions),
        DeconzEvent::ApsDataReceived { .. } => new == old && actions.len() == 0,
    }
}

/// The device inventory, keyed by IEEE address. It is changed only through
/// `&mut self`, so that every change is stated; a gateway shares it behind
/// a lock.
pub struct DeviceInventory {
    devices: Vec<ZigbeeDevice>,
}

impl View for DeviceInventory {
    type V = Seq<ZigbeeDevice>;

    closed spec fn view(&self) -> Seq<ZigbeeDevice> {
        self.devices@
    }
}

proof fn lemma_unique_push(s: Seq<ZigbeeDevice>, d: ZigbeeDevice)
    requires
        keys_unique(s),
        !has_key(s, d.ieee_address@),
    ensures
        keys_unique(s.push(d)),
        held_once(s.push(d), d.ieee_address@),
{
    let t = s.push(d);
    assert forall|i: int, j: int|
        0 <= i < t.len() && 0 <= j < t.len() && i != j implies #[trigger] t[i].ieee_address@
            != #[trigger] t[j].ieee_address@ by {
        if i < s.len() && j < s.len() {
            assert(s[i].ieee_address@ != s[j].ieee_address@);
        } else if i < s.len() {
            assert(s[i].ieee_address@ != d.ieee_address@);
        } else if j < s.len() {
            assert(s[j].ieee_address@ != d.ieee_address@);
        }
    }
    assert(t[s.len() as int].ieee_address@ == d.ieee_address@);
}

proof fn lemma_unique_update(s: Seq<ZigbeeDevice>, i: int, d: ZigbeeDevice)
    requires
        keys_unique(s),
        0 <= i < s.len(),
        d.ieee_address@ == s[i].ieee_address@,
    ensures
        keys_unique(s.update(i, d)),
        held_once(s.update(i, d), d.ieee_address@),
        forall|k: Seq<u8>| has_key(s, k) <==> has_key(s.update(i, d), k),
{
    let t = s.update(i, d);
    assert forall|a: int, b: int|
        0 <= a < t.len() && 0 <= b < t.len() && a != b implies #[trigger] t[a].ieee_address@
            != #[trigger] t[b].ieee_address@ by {
        assert(s[a].ieee_address@ != s[b].ieee_address@);
    }
    assert(t[i].ieee_address@ == d.ieee_address@);
    assert forall|k: Seq<u8>| has_key(s, k) <==> has_key(t, k) by {
        if has_key(s, k) {
            let a = choose|a: int| 0 <= a < s.len() && #[trigger] s[a].ieee_address@ == k;
            assert(t[a].ieee_address@ == k);
        }
        if has_key(t, k) {
            let a = choose|a: int| 0 <= a < t.len() && #[trigger] t[a].ieee_address@ == k;
            assert(s[a].ieee_address@ == k);
        }
    }
}

/// In an inventory whose keys are unique, every key that is present is held
/// exactly once.
pub proof fn lemma_present_key_held_once(s: Seq<ZigbeeDevice>, k: Seq<u8>)
    requires
        keys_unique(s),
        has_key(s, k),
    ensures
        held_once(s, k),
{
    let i = choose|i: int| 0 <= i < s.len() && #[trigger] s[i].ieee_address@ == k;
    assert forall|j: int| 0 <= j < s.len() && j != i implies #[trigger] s[j].ieee_address@ != k by {
        assert(s[i].ieee_address@ != s[j].ieee_address@);
    }
}

fn same_key(a: &[u8; 8], b: &[u8; 8]) -> (r: bool)
    ensures
        r == (a@ == b@),
{
    let mut i: usize = 0;
    while i < 8
        invariant
            i <= 8,
            a@.len() == 8,
            b@.len() == 8,
            forall|j: int| 0 <= j < i ==> a@[j] == b@[j],
        decreases 8 - i,
    {
        if a[i] != b[i] {
            return false;
        }
        i = i + 1;
    }
    assert(a@ =~= b@);
    true
}

fn find_endpoint(list: &Vec<Endpoint>, id: u8) -> (r: Option<usize>)
    ensures
        match r {
            Some(k) => k < list@.len() && list@[k as int].id == id && forall|j: int|
                0 <= j < k ==> #[trigger] list@[j].id != id,
            None => forall|j: int| 0 <= j < list@.len() ==> #[trigger] list@[j].id != id,
        },
{
    let mut k: usize = 0;
    while k < list.len()
        invariant
            k <= list@.len(),
            forall|j: int| 0 <= j < k ==> #[trigger] list@[j].id != id,
        decreases list@.len() - k,
    {
        if list[k].id == id {
            return Some(k);
        }
        k = k + 1;
    }
    None
}

fn active_endpoints_requests(asdu: &[u8]) -> (r: Vec<ListenerAction>)
    ensures
        active_endpoints_effect(Seq::empty(), Seq::empty(), asdu@, r@),
{
    let mut actions: Vec<ListenerAction> = Vec::new();
    match ActiveEndpointsResponse::parse(asdu) {
        Ok(resp) => {
            if resp.status == 0 {
                let mut k: usize = 0;
                while k < resp.endpoints.len()
                    invariant
                        k <= resp.endpoints@.len(),
                        actions@.len() == k,
                        forall|j: int|
                            0 <= j < k ==> (#[trigger] actions@[j] matches ListenerAction::Send(req)
                                && is_simple_descriptor_request(req, resp.nwk_addr, resp.endpoints@[j])),
                    decreases resp.endpoints@.len() - k,
                {
                    actions.push(
                        ListenerAction::Send(
                            ApsDataRequest::simple_descriptor_request(1, resp.nwk_addr, resp.endpoints[k], 1),
                        ),
                    );
                    k = k + 1;
                }
            }
        },
        Err(_) => {},
    }
    actions
}

impl DeviceInventory {
    /// Keys are unique.
    pub closed spec fn wf(&self) -> bool {
        keys_unique(self.devices@)
    }

    /// An empty inventory.
    pub fn new() -> (r: DeviceInventory)
        ensures
            r.wf(),
            r@.len() == 0,
    {
        DeviceInventory { devices: Vec::new() }
    }

    /// Number of devices.
    pub fn len(&self) -> (r: usize)
        ensures
            r == self@.len(),
    {
        self.devices.len()
    }

    /// The devices, in the order they were first recorded.
    pub fn devices(&self) -> (r: &Vec<ZigbeeDevice>)
        ensures
            r@ == self@,
    {
        &self.devices
    }

    /// The position of the device with this IEEE address.
    pub fn position(&self, ieee: &[u8; 8]) -> (r: Option<usize>)
        ensures
            match r {
                Some(i) => i < self@.len() && self@[i as int].ieee_address@ == ieee@,
                None => !has_key(self@, ieee@),
            },
    {
        let mut i: usize = 0;
        while i < self.devices.len()
            invariant
                i <= self.devices@.len(),
                forall|j: int| 0 <= j < i ==> self.devices@[j].ieee_address@ != ieee@,
            decreases self.devices@.len() - i,
        {
            if same_key(&self.devices[i].ieee_address, ieee) {
                return Some(i);
            }
            i = i + 1;
        }
        None
    }

    /// The position of the first device with this short address.
    pub fn position_by_short(&self, short: u16) -> (r: Option<usize>)
        ensures
            match r {
                Some(i) => first_with_short(self@, short, i as int),
                None => !has_short(self@, short),
            },
    {
        let mut i: usize = 0;
        while i < self.devices.len()
            invariant
                i <= self.devices@.len(),
                forall|j: int| 0 <= j < i ==> #[trigger] self.devices@[j].nwk_address != short,
            decreases self.devices@.len() - i,
        {
            if self.devices[i].nwk_address == short {
                return Some(i);
            }
            i = i + 1;
        }
        None
    }

    /// A copy of the device with this IEEE address.
    pub fn get_device(&self, ieee: &[u8; 8]) -> (r: Option<ZigbeeDevice>)
        requires
            self.wf(),
        ensures
            has_key(self@, ieee@) <==> r is Some,
            forall|i: int|
                0 <= i < self@.len() && #[trigger] self@[i].ieee_address@ == ieee@ ==> (r matches Some(
                    d,
                ) && same_device(d, self@[i])),
    {
        match self.position(ieee) {
            Some(i) => {
                proof {
                    assert forall|j: int|
                        0 <= j < self@.len() && #[trigger] self@[j].ieee_address@ == ieee@ implies j
                        == i by {
                        if j != i {
                            assert(self.devices@[j].ieee_address@ != self.devices@[i as int].ieee_address@);
                        }
                    }
                }
                Some(self.devices[i].copy())
            },
            None => None,
        }
    }

    /// Copies of all devices.
    pub fn get_devices(&self) -> (r: Vec<ZigbeeDevice>)
        ensures
            r@.len() == self@.len(),
            forall|i: int| 0 <= i < r@.len() ==> same_device(#[trigger] r@[i], self@[i]),
    {
        let mut out: Vec<ZigbeeDevice> = Vec::new();
        let mut i: usize = 0;
        while i < self.devices.len()
            invariant
                i <= self.devices@.len(),
                out@.len() == i,
                forall|j: int| 0 <= j < i ==> same_device(#[trigger] out@[j], self.devices@[j]),
            decreases self.devices@.len() - i,
        {
            out.push(self.devices[i].copy());
            i = i + 1;
        }
        out
    }

    /// Records an announcement: the device takes the role its capability
    /// byte gives and the announced short address, and is marked available
    /// and seen; an unknown device is added. Returns whether it was new.
    pub fn record_announcement(&mut self, ieee: [u8; 8], short: u16, capability: u8, now: u64) -> (r:
        bool)
        requires
            old(self).wf(),
        ensures
            final(self).wf(),
            held_once(final(self)@, ieee@),
            r == !has_key(old(self)@, ieee@),
            forall|i: int|
                0 <= i < old(self)@.len() && #[trigger] old(self)@[i].ieee_address@ == ieee@
                    ==> final(self)@ == old(self)@.update(i, reannounced(old(self)@[i], short, capability, now)),
            r ==> final(self)@.drop_last() == old(self)@ && final(self)@.len() == old(self)@.len() + 1
                && fresh_device(final(self)@.last(), ieee, short, capability, now),
            forall|k: Seq<u8>| has_key(old(self)@, k) ==> has_key(final(self)@, k),
    {
        match self.position(&ieee) {
            Some(i) => {
                let ghost before = self.devices@;
                proof {
                    assert forall|j: int|
                        0 <= j < before.len() && #[trigger] before[j].ieee_address@ == ieee@ implies j
                        == i by {
                        if j != i {
                            assert(before[j].ieee_address@ != before[i as int].ieee_address@);
                        }
                    }
                }
                let mut d = self.devices.remove(i);
                d.nwk_address = short;
                d.device_type = if (capability & 0x02) != 0 {
                    DeviceType::Router
                } else {
                    DeviceType::EndDevice
                };
                d.last_seen = Some(now);
                d.available = true;
                self.devices.insert(i, d);
                proof {
                    assert(self.devices@ =~= before.update(i as int, reannounced(before[i as int], short, capability, now)));
                    lemma_unique_update(before, i as int, reannounced(before[i as int], short, capability, now));
                }
                false
            },
            None => {
                let mut d = ZigbeeDevice::new(ieee, short);
                if (capability & 0x02) != 0 {
                    d.device_type = DeviceType::Router;
                }
                d.last_seen = Some(now);
                let ghost before = self.devices@;
                proof {
                    lemma_unique_push(before, d);
                }
                self.devices.push(d);
                proof {
                    assert(self.devices@.drop_last() =~= before);
                    assert forall|k: Seq<u8>| has_key(before, k) implies has_key(self.devices@, k) by {
                        let a = choose|a: int| 0 <= a < before.len() && #[trigger] before[a].ieee_address@ == k;
                        assert(self.devices@[a].ieee_address@ == k);
                    }
                }
                true
            },
        }
    }

    /// A MAC poll: the first device with this short address is marked seen
    /// and available. Returns whether there was one.
    pub fn record_poll(&mut self, short: u16, now: u64) -> (r: bool)
        requires
            old(self).wf(),
        ensures
            final(self).wf(),
            r == has_short(old(self)@, short),
            forall|i: int|
                first_with_short(old(self)@, short, i) ==> final(self)@ == old(self)@.update(
                    i,
                    polled(old(self)@[i], now),
                ),
            !r ==> final(self)@ == old(self)@,
    {
        match self.position_by_short(short) {
            Some(i) => {
                let ghost before = self.devices@;
                let mut d = self.devices.remove(i);
                d.last_seen = Some(now);
                d.available = true;
                self.devices.insert(i, d);
                proof {
                    assert(self.devices@ =~= before.update(i as int, polled(before[i as int], now)));
                    lemma_unique_update(before, i as int, polled(before[i as int], now));
                    assert forall|j: int| first_with_short(before, short, j) implies j == i by {
                        if j < i {
                            assert(before[j].nwk_address != short);
                        } else if j > i {
                            assert(before[i as int].nwk_address != short);
                        }
                    }
                }
                true
            },
            None => false,
        }
    }

    /// An On/Off command (0 off, 1 on, 2 toggle) reported by the device with
    /// this short address: its cached state becomes the indicated one, and the
    /// change is returned as an event. Nothing happens for an unknown address.
    pub fn record_on_off(&mut self, short: u16, endpoint: u8, command: u8) -> (r: Option<
        NetworkEvent,
    >)
        requires
            old(self).wf(),
            command <= 2,
        ensures
            final(self).wf(),
            r is Some <==> has_short(old(self)@, short),
            forall|i: int|
                first_with_short(old(self)@, short, i) ==> ({
                    let st = indicated_state(command, old(self)@[i].state_on);
                    &&& final(self)@ == old(self)@.update(
                        i,
                        ZigbeeDevice { state_on: Some(st), ..old(self)@[i] },
                    )
                    &&& r matches Some(NetworkEvent::DeviceStateChanged {
                        ieee_address,
                        endpoint: ep,
                        state_on,
                    }) && ieee_address@ == old(self)@[i].ieee_address@ && ep == endpoint
                        && state_on == st
                }),
            r is None ==> final(self)@ == old(self)@,
    {
        match self.position_by_short(short) {
            Some(i) => {
                let ghost before = self.devices@;
                let mut d = self.devices.remove(i);
                let state = if command == 0 {
                    false
                } else if command == 1 {
                    true
                } else {
                    match d.state_on {
                        Some(b) => !b,
                        None => true,
                    }
                };
                d.state_on = Some(state);
                let ieee_address = d.ieee_address;
                self.devices.insert(i, d);
                proof {
                    let nd = ZigbeeDevice { state_on: Some(state), ..before[i as int] };
                    assert(self.devices@ =~= before.update(i as int, nd));
                    lemma_unique_update(before, i as int, nd);
                    assert forall|j: int| first_with_short(before, short, j) implies j == i by {
                        if j < i {
                            assert(before[j].nwk_address != short);
                        } else if j > i {
                            assert(before[i as int].nwk_address != short);
                        }
                    }
                }
                Some(NetworkEvent::DeviceStateChanged { ieee_address, endpoint, state_on: state })
            },
            None => None,
        }
    }

    /// A simple descriptor response with success status: the endpoint it
    /// describes is upserted into the first device with its short address.
    /// Returns that device's IEEE address.
    pub fn record_endpoint(&mut self, resp: SimpleDescriptorResponse) -> (r: Option<[u8; 8]>)
        requires
            old(self).wf(),
        ensures
            final(self).wf(),
            r is Some <==> has_short(old(self)@, resp.nwk_addr),
            forall|i: int|
                first_with_short(old(self)@, resp.nwk_addr, i) ==> ({
                    &&& final(self)@.len() == old(self)@.len()
                    &&& final(self)@[i] == ZigbeeDevice {
                        endpoints: final(self)@[i].endpoints,
                        ..old(self)@[i]
                    }
                    &&& endpoints_after_upsert(old(self)@[i].endpoints@, resp, final(self)@[i].endpoints@)
                    &&& forall|j: int| 0 <= j < old(self)@.len() && j != i ==> #[trigger] final(self)@[j] == old(self)@[j]
                    &&& r == Some(old(self)@[i].ieee_address)
                }),
            r is None ==> final(self)@ == old(self)@,
    {
        match self.position_by_short(resp.nwk_addr) {
            Some(i) => {
                let ghost before = self.devices@;
                let ghost resp_copy = resp;
                let mut d = self.devices.remove(i);
                let ghost old_list = d.endpoints@;
                let e = Endpoint {
                    id: resp.endpoint,
                    profile_id: resp.profile_id,
                    device_id: resp.device_id,
                    in_clusters: resp.in_clusters,
                    out_clusters: resp.out_clusters,
                };
                let slot = find_endpoint(&d.endpoints, e.id);
                match slot {
                    Some(k) => {
                        d.endpoints.set(k, e);
                        proof {
                            assert(d.endpoints@[k as int] == e);
                            assert(old_list[k as int].id == resp.endpoint);
                        }
                    },
                    None => {
                        d.endpoints.push(e);
                    },
                }
                let ieee_address = d.ieee_address;
                let ghost nd = d;
                self.devices.insert(i, d);
                proof {
                    assert(self.devices@ =~= before.update(i as int, nd));
                    lemma_unique_update(before, i as int, nd);
                    assert forall|j: int| first_with_short(before, resp.nwk_addr, j) implies j == i by {
                        if j < i {
                            assert(before[j].nwk_address != resp.nwk_addr);
                        } else if j > i {
                            assert(before[i as int].nwk_address != resp.nwk_addr);
                        }
                    }
                    if slot is None {
                        assert(nd.endpoints@.drop_last() =~= old_list);
                    }
                }
                Some(ieee_address)
            },
            None => None,
        }
    }

    /// Edits the friendly name and category of a device and returns a copy of
    /// the result.
    pub fn update_device_metadata(
        &mut self,
        ieee: &[u8; 8],
        friendly_name: Option<String>,
        category: Option<DeviceCategory>,
    ) -> (r: Result<ZigbeeDevice, NetworkError>)
        requires
            old(self).wf(),
        ensures
            final(self).wf(),
            r is Ok <==> has_key(old(self)@, ieee@),
            forall|i: int|
                0 <= i < old(self)@.len() && #[trigger] old(self)@[i].ieee_address@ == ieee@ ==> ({
                    &&& final(self)@ == old(self)@.update(i, edited(old(self)@[i], friendly_name, category))
                    &&& r matches Ok(d) && same_device(d, edited(old(self)@[i], friendly_name, category))
                }),
            r matches Err(e) ==> (e matches NetworkError::DeviceNotFound(t) && t@ == reversed_hex(
                ieee@,
            )) && final(self)@ == old(self)@,
    {
        match self.position(ieee) {
            Some(i) => {
                let ghost before = self.devices@;
                proof {
                    assert forall|j: int|
                        0 <= j < before.len() && #[trigger] before[j].ieee_address@ == ieee@ implies j
                        == i by {
                        if j != i {
                            assert(before[j].ieee_address@ != before[i as int].ieee_address@);
                        }
                    }
                }
                let mut d = self.devices.remove(i);
                match friendly_name {
                    Some(name) => {
                        if name.as_str().is_empty() {
                            d.friendly_name = None;
                        } else {
                            d.friendly_name = Some(name);
                        }
                    },
                    None => {},
                }
                match category {
                    Some(c) => {
                        d.category = c;
                    },
                    None => {},
                }
                let copy = d.copy();
                self.devices.insert(i, d);
                proof {
                    let nd = edited(before[i as int], friendly_name, category);
                    assert(self.devices@ =~= before.update(i as int, nd));
                    lemma_unique_update(before, i as int, nd);
                }
                Ok(copy)
            },
            None => Err(NetworkError::DeviceNotFound(format_reversed_hex(ieee))),
        }
    }

    fn short_address_of(&self, ieee: &[u8; 8]) -> (r: Result<u16, NetworkError>)
        requires
            self.wf(),
        ensures
            r is Ok <==> has_key(self@, ieee@),
            forall|i: int|
                0 <= i < self@.len() && #[trigger] self@[i].ieee_address@ == ieee@ ==> r == Ok::<
                    u16,
                    NetworkError,
                >(self@[i].nwk_address),
            r matches Err(e) ==> e matches NetworkError::DeviceNotFound(t) && t@ == reversed_hex(
                ieee@,
            ),
    {
        match self.position(ieee) {
            Some(i) => {
                proof {
                    assert forall|j: int|
                        0 <= j < self@.len() && #[trigger] self@[j].ieee_address@ == ieee@ implies j
                        == i by {
                        if j != i {
                            assert(self.devices@[j].ieee_address@ != self.devices@[i as int].ieee_address@);
                        }
                    }
                }
                Ok(self.devices[i].nwk_address)
            },
            None => Err(NetworkError::DeviceNotFound(format_reversed_hex(ieee))),
        }
    }

    /// The listener's response to one transport event, `now` being the
    /// monotonic clock in milliseconds: the inventory is updated and the
    /// actions to perform are returned in order.
    pub fn handle_event(&mut self, event: DeconzEvent, now: u64) -> (r: Vec<ListenerAction>)
        requires
            old(self).wf(),
        ensures
            final(self).wf(),
            event_effect(old(self)@, final(self)@, event, now, r@),
    {
        let mut actions: Vec<ListenerAction> = Vec::new();
        match event {
            DeconzEvent::ApsDataAvailable => {
                actions.push(ListenerAction::FetchApsData);
            },
            DeconzEvent::DeviceStateChanged(st) => {
                if st.aps_data_indication {
                    actions.push(ListenerAction::FetchApsData);
                }
            },
            DeconzEvent::DeviceAnnounced { ieee_addr, short_addr, capability } => {
                let ghost before = self@;
                let is_new = self.record_announcement(ieee_addr, short_addr, capability, now);
                if is_new {
                    let last = self.devices.len() - 1;
                    actions.push(ListenerAction::Emit(NetworkEvent::DeviceJoined(self.devices[last].copy())));
                    actions.push(ListenerAction::Persist);
                    actions.push(
                        ListenerAction::SendAfter {
                            delay_ms: 500,
                            request: ApsDataRequest::active_endpoints_request(1, short_addr, 1),
                        },
                    );
                } else {
                    actions.push(ListenerAction::Emit(NetworkEvent::DeviceUpdated { ieee_address: ieee_addr }));
                    actions.push(ListenerAction::Persist);
                }
            },
            DeconzEvent::MacPoll { short_addr } => {
                self.record_poll(short_addr, now);
            },
            DeconzEvent::ApsIndication(ind) => {
                actions = self.handle_indication(ind);
            },
            DeconzEvent::ApsDataReceived { .. } => {},
        }
        actions
    }

    fn handle_indication(&mut self, ind: ApsDataIndication) -> (r: Vec<ListenerAction>)
        requires
            old(self).wf(),
        ensures
            final(self).wf(),
            indication_effect(old(self)@, final(self)@, ind, r@),
    {
        if ind.profile_id == HOME_AUTOMATION_PROFILE && ind.cluster_id == ON_OFF_CLUSTER {
            self.handle_on_off(&ind)
        } else if ind.profile_id == ZDO_PROFILE && ind.cluster_id == ZdoCluster::ActiveEpRsp.id() {
            active_endpoints_requests(ind.asdu.as_slice())
        } else if ind.profile_id == ZDO_PROFILE && ind.cluster_id == ZdoCluster::SimpleDescRsp.id() {
            self.handle_descriptor(ind.asdu.as_slice())
        } else {
            Vec::new()
        }
    }

    fn handle_on_off(&mut self, ind: &ApsDataIndication) -> (r: Vec<ListenerAction>)
        requires
            old(self).wf(),
        ensures
            final(self).wf(),
            on_off_effect(old(self)@, final(self)@, *ind, r@),
    {
        let mut actions: Vec<ListenerAction> = Vec::new();
        match ZclFrame::parse(ind.asdu.as_slice()) {
            Ok(zcl) => {
                let cmd = zcl.command_id();
                if zcl.is_cluster_specific() && cmd <= 2 {
                    match self.record_on_off(ind.src_short_addr, ind.src_endpoint, cmd) {
                        Some(ev) => {
                            actions.push(ListenerAction::Emit(ev));
                        },
                        None => {},
                    }
                }
            },
            Err(_) => {},
        }
        actions
    }

    fn handle_descriptor(&mut self, asdu: &[u8]) -> (r: Vec<ListenerAction>)
        requires
            old(self).wf(),
        ensures
            final(self).wf(),
            descriptor_effect(old(self)@, final(self)@, asdu@, r@),
    {
        let mut actions: Vec<ListenerAction> = Vec::new();
        match SimpleDescriptorResponse::parse(asdu) {
            Ok(resp) => {
                if resp.status == 0 {
                    let ghost r0 = resp;
                    let ghost before = self@;
                    match self.record_endpoint(resp) {
                        Some(ieee_address) => {
                            actions.push(ListenerAction::Emit(NetworkEvent::DeviceUpdated { ieee_address }));
                            actions.push(ListenerAction::Persist);
                        },
                        None => {},
                    }
                    proof {
                        assert forall|r1: SimpleDescriptorResponse, i: int|
                            simple_descriptor_outcome(asdu@, Ok(r1)) && first_with_short(before, le16(asdu@[2], asdu@[3]), i)
                            implies endpoints_after_upsert(before[i].endpoints@, r1, self@[i].endpoints@) by {
                            assert(r0.in_clusters@ =~= r1.in_clusters@);
                            assert(r0.out_clusters@ =~= r1.out_clusters@);
                            lemma_upsert_same_response(before[i].endpoints@, r0, r1, self@[i].endpoints@);
                        }
                    }
                }
            },
            Err(_) => {},
        }
        actions
    }

    /// Adds a device, or replaces the one with the same IEEE address.
    /// Returns whether it was new.
    pub fn upsert_device(&mut self, device: ZigbeeDevice) -> (r: bool)
        requires
            old(self).wf(),
        ensures
            final(self).wf(),
            r == !has_key(old(self)@, device.ieee_address@),
            r ==> final(self)@ == old(self)@.push(device),
            !r ==> forall|i: int|
                0 <= i < old(self)@.len() && #[trigger] old(self)@[i].ieee_address@
                    == device.ieee_address@ ==> final(self)@ == old(self)@.update(i, device),
            held_once(final(self)@, device.ieee_address@),
    {
        match self.position(&device.ieee_address) {
            Some(i) => {
                proof {
                    assert forall|j: int|
                        0 <= j < old(self)@.len() && #[trigger] old(self)@[j].ieee_address@
                            == device.ieee_address@ implies j == i by {
                        if j != i {
                            assert(self.devices@[j].ieee_address@ != self.devices@[i as int].ieee_address@);
                        }
                    }
                    lemma_unique_update(self.devices@, i as int, device);
                }
                self.devices.set(i, device);
                false
            },
            None => {
                proof {
                    lemma_unique_push(self.devices@, device);
                }
                self.devices.push(device);
                true
            },
        }
    }

    /// Removes the device with this IEEE address and returns it.
    pub fn remove_device(&mut self, ieee: &[u8; 8]) -> (r: Option<ZigbeeDevice>)
        requires
            old(self).wf(),
        ensures
            final(self).wf(),
            r is Some <==> has_key(old(self)@, ieee@),
            !has_key(final(self)@, ieee@),
            forall|i: int|
                0 <= i < old(self)@.len() && #[trigger] old(self)@[i].ieee_address@ == ieee@ ==> (r
                    == Some(old(self)@[i]) && final(self)@ == old(self)@.remove(i)),
            r is None ==> final(self)@ == old(self)@,
    {
        match self.position(ieee) {
            Some(i) => {
                let ghost before = self.devices@;
                let d = self.devices.remove(i);
                proof {
                    assert forall|j: int|
                        0 <= j < before.len() && #[trigger] before[j].ieee_address@ == ieee@ implies j
                        == i by {
                        if j != i {
                            assert(before[j].ieee_address@ != before[i as int].ieee_address@);
                        }
                    }
                    assert forall|a: int, b: int|
                        0 <= a < self.devices@.len() && 0 <= b < self.devices@.len() && a != b implies #[trigger] self.devices@[a].ieee_address@
                            != #[trigger] self.devices@[b].ieee_address@ by {
                        let a0 = if a < i { a } else { a + 1 };
                        let b0 = if b < i { b } else { b + 1 };
                        assert(before[a0].ieee_address@ != before[b0].ieee_address@);
                    }
                    if has_key(self.devices@, ieee@) {
                        let a = choose|a: int| 0 <= a < self.devices@.len() && #[trigger] self.devices@[a].ieee_address@ == ieee@;
                        let a0 = if a < i { a } else { a + 1 };
                        assert(before[a0].ieee_address@ == ieee@);
                    }
                }
                Some(d)
            },
            None => None,
        }
    }
}

} // verus!

verus! {

proof fn lemma_keys_after_update(old: Seq<ZigbeeDevice>, i: int, d: ZigbeeDevice)
    requires
        keys_unique(old),
        0 <= i < old.len(),
        d.ieee_address@ == old[i].ieee_address@,
    ensures
        keys_unique(old.update(i, d)),
        forall|k: Seq<u8>| has_key(old, k) ==> held_once(#[trigger] old.update(i, d), k),
{
    lemma_unique_update(old, i, d);
    assert forall|k: Seq<u8>| has_key(old, k) implies held_once(#[trigger] old.update(i, d), k) by {
        lemma_present_key_held_once(old.update(i, d), k);
    }
}

/// Whatever event the listener handles, the inventory keeps exactly one
/// entry per IEEE address it held, and after an announcement exactly one
/// entry for the announced address, whatever its short address.
pub proof fn lemma_inventory_identity(
    old: Seq<ZigbeeDevice>,
    new: Seq<ZigbeeDevice>,
    event: DeconzEvent,
    now: u64,
    actions: Seq<ListenerAction>,
)
    requires
        keys_unique(old),
        event_effect(old, new, event, now, actions),
    ensures
        keys_unique(new),
        forall|k: Seq<u8>| has_key(old, k) ==> held_once(new, k),
        event matches DeconzEvent::DeviceAnnounced { ieee_addr, .. } ==> held_once(new, ieee_addr@),
{
    match event {
        DeconzEvent::DeviceAnnounced { ieee_addr, .. } => {
            assert forall|k: Seq<u8>| has_key(old, k) implies held_once(new, k) by {
                lemma_present_key_held_once(new, k);
            }
        },
        DeconzEvent::MacPoll { short_addr } => {
            if has_short(old, short_addr) {
                let i = choose|i: int| 0 <= i < old.len() && #[trigger] old[i].nwk_address == short_addr;
                let f = first_index_with_short(old, short_addr, i);
                lemma_keys_after_update(old, f, polled(old[f], now));
            } else {
                assert forall|k: Seq<u8>| has_key(old, k) implies held_once(new, k) by {
                    lemma_present_key_held_once(old, k);
                }
            }
        },
        DeconzEvent::ApsIndication(ind) => {
            let asdu = ind.asdu@;
            if ind.profile_id == HOME_AUTOMATION_PROFILE && ind.cluster_id == ON_OFF_CLUSTER
                && on_off_in(asdu) is Some && has_short(old, ind.src_short_addr) {
                let i = choose|i: int| 0 <= i < old.len() && #[trigger] old[i].nwk_address == ind.src_short_addr;
                let f = first_index_with_short(old, ind.src_short_addr, i);
                let st = indicated_state(on_off_in(asdu)->Some_0, old[f].state_on);
                lemma_keys_after_update(old, f, ZigbeeDevice { state_on: Some(st), ..old[f] });
            } else if ind.profile_id == ZDO_PROFILE && ind.cluster_id == zdo_cluster_id(ZdoCluster::SimpleDescRsp)
                && asdu.len() >= 5 && asdu[1] == 0 && (asdu.len() < 6 || asdu.len() >= 11)
                && has_short(old, le16(asdu[2], asdu[3])) && !(ind.profile_id == HOME_AUTOMATION_PROFILE) {
                let short = le16(asdu[2], asdu[3]);
                let i = choose|i: int| 0 <= i < old.len() && #[trigger] old[i].nwk_address == short;
                let f = first_index_with_short(old, short, i);
                assert(new.len() == old.len());
                assert(new =~= old.update(f, new[f]));
                lemma_keys_after_update(old, f, new[f]);
            } else {
                assert forall|k: Seq<u8>| has_key(old, k) implies held_once(new, k) by {
                    lemma_present_key_held_once(old, k);
                }
            }
        },
        _ => {
            assert forall|k: Seq<u8>| has_key(old, k) implies held_once(new, k) by {
                lemma_present_key_held_once(old, k);
            }
        },
    }
}

proof fn first_index_with_short(s: Seq<ZigbeeDevice>, short: u16, i: int) -> (f: int)
    requires
        0 <= i < s.len(),
        s[i].nwk_address == short,
    ensures
        first_with_short(s, short, f),
    decreases i,
{
    if exists|j: int| 0 <= j < i && #[trigger] s[j].nwk_address == short {
        let j = choose|j: int| 0 <= j < i && #[trigger] s[j].nwk_address == short;
        first_index_with_short(s, short, j)
    } else {
        i
    }
}

} // verus!

verus! {

impl DeviceInventory {
    /// The APS request that sends an On/Off command to an endpoint of a
    /// known device.
    pub fn on_off_request(&self, ieee: &[u8; 8], endpoint: u8, command: OnOffCommand) -> (r: Result<
        ApsDataRequest,
        NetworkError,
    >)
        requires
            self.wf(),
        ensures
            r is Ok <==> has_key(self@, ieee@),
            forall|i: int|
                0 <= i < self@.len() && #[trigger] self@[i].ieee_address@ == ieee@ ==> (r matches Ok(
                    req,
                ) && is_on_off_request(req, self@[i].nwk_address, endpoint, command)),
            r matches Err(e) ==> e matches NetworkError::DeviceNotFound(t) && t@ == reversed_hex(
                ieee@,
            ),
    {
        let short = self.short_address_of(ieee)?;
        let zcl = ZclFrame::on_off_command(1, command);
        let asdu = zcl.serialize();
        proof {
            assert(asdu@ =~= seq![0x01u8, 0x01u8, on_off_byte(command)]);
        }
        Ok(ApsDataRequest::new(1, short, endpoint, ON_OFF_CLUSTER, asdu))
    }

    /// After an On/Off command was acknowledged: on and off set the cached
    /// state, a toggle flips a known one. When the state is known, it is
    /// stored and the change is returned as an event.
    pub fn record_command(&mut self, ieee: &[u8; 8], endpoint: u8, command: OnOffCommand) -> (r:
        Option<NetworkEvent>)
        requires
            old(self).wf(),
        ensures
            final(self).wf(),
            !has_key(old(self)@, ieee@) ==> r is None && final(self)@ == old(self)@,
            forall|i: int|
                0 <= i < old(self)@.len() && #[trigger] old(self)@[i].ieee_address@ == ieee@ ==> match commanded_state(command, old(self)@[i].state_on) {
                    Some(st) => final(self)@ == old(self)@.update(i, ZigbeeDevice { state_on: Some(st), ..old(self)@[i] })
                        && (r matches Some(NetworkEvent::DeviceStateChanged { ieee_address, endpoint: ep, state_on })
                        && ieee_address@ == ieee@ && ep == endpoint && state_on == st),
                    None => r is None && final(self)@ == old(self)@,
                },
    {
        match self.position(ieee) {
            Some(i) => {
                let ghost before = self.devices@;
                proof {
                    assert forall|j: int|
                        0 <= j < before.len() && #[trigger] before[j].ieee_address@ == ieee@ implies j
                        == i by {
                        if j != i {
                            assert(before[j].ieee_address@ != before[i as int].ieee_address@);
                        }
                    }
                }
                let new_state = match command {
                    OnOffCommand::On => Some(true),
                    OnOffCommand::Off => Some(false),
                    OnOffCommand::Toggle => match self.devices[i].state_on {
                        Some(b) => Some(!b),
                        None => None,
                    },
                };
                match new_state {
                    Some(st) => {
                        let mut d = self.devices.remove(i);
                        d.state_on = Some(st);
                        let ieee_address = d.ieee_address;
                        self.devices.insert(i, d);
                        proof {
                            let nd = ZigbeeDevice { state_on: Some(st), ..before[i as int] };
                            assert(self.devices@ =~= before.update(i as int, nd));
                            lemma_unique_update(before, i as int, nd);
                        }
                        Some(NetworkEvent::DeviceStateChanged { ieee_address, endpoint, state_on: st })
                    },
                    None => None,
                }
            },
            None => None,
        }
    }

    /// The Active Endpoints request for a known device.
    pub fn discover_endpoints_request(&self, ieee: &[u8; 8]) -> (r: Result<ApsDataRequest, NetworkError>)
        requires
            self.wf(),
        ensures
            r is Ok <==> has_key(self@, ieee@),
            forall|i: int|
                0 <= i < self@.len() && #[trigger] self@[i].ieee_address@ == ieee@ ==> (r matches Ok(
                    req,
                ) && is_active_endpoints_request(req, self@[i].nwk_address)),
            r matches Err(e) ==> e matches NetworkError::DeviceNotFound(t) && t@ == reversed_hex(
                ieee@,
            ),
    {
        let short = self.short_address_of(ieee)?;
        Ok(ApsDataRequest::active_endpoints_request(1, short, 1))
    }

    /// The Simple Descriptor request for one endpoint of a known device.
    pub fn discover_simple_descriptor_request(&self, ieee: &[u8; 8], endpoint: u8) -> (r: Result<
        ApsDataRequest,
        NetworkError,
    >)
        requires
            self.wf(),
        ensures
            r is Ok <==> has_key(self@, ieee@),
            forall|i: int|
                0 <= i < self@.len() && #[trigger] self@[i].ieee_address@ == ieee@ ==> (r matches Ok(
                    req,
                ) && is_simple_descriptor_request(req, self@[i].nwk_address, endpoint)),
            r matches Err(e) ==> e matches NetworkError::DeviceNotFound(t) && t@ == reversed_hex(
                ieee@,
            ),
    {
        let short = self.short_address_of(ieee)?;
        Ok(ApsDataRequest::simple_descriptor_request(1, short, endpoint, 1))
    }
}

/// The status shown to clients, from the device state and the parameter
/// values read (a failed read counts as absent): the channel is the first
/// byte (else 0), the PAN identifier the first two bytes (else 0), the
/// extended PAN identifier in display form (else "unknown"), and joining is
/// permitted when the first byte is non-zero.
pub fn network_status(
    state: DeviceState,
    channel: Option<Vec<u8>>,
    pan_id: Option<Vec<u8>>,
    extended_pan_id: Option<Vec<u8>>,
    permit_join: Option<Vec<u8>>,
    device_count: usize,
) -> (r: NetworkStatus)
    ensures
        r.connected == (state.network_state == NetworkState::Connected),
        r.channel == (match channel {
            Some(v) => if v@.len() > 0 {
                v@[0]
            } else {
                0u8
            },
            None => 0u8,
        }),
        r.pan_id == (match pan_id {
            Some(v) => if v@.len() >= 2 {
                le16(v@[0], v@[1])
            } else {
                0u16
            },
            None => 0u16,
        }),
        extended_pan_id matches Some(v) ==> r.extended_pan_id@ == reversed_hex(v@),
        extended_pan_id is None ==> r.extended_pan_id@ == "unknown"@,
        r.permit_join == (match permit_join {
            Some(v) => v@.len() > 0 && v@[0] > 0,
            None => false,
        }),
        r.device_count == device_count,
{
    let connected = match state.network_state {
        NetworkState::Connected => true,
        _ => false,
    };
    let channel = match channel {
        Some(v) => if v.len() > 0 { v[0] } else { 0 },
        None => 0,
    };
    let pan_id = match pan_id {
        Some(v) => if v.len() >= 2 { crate::wire::read_le16(v.as_slice(), 0) } else { 0 },
        None => 0,
    };
    let extended_pan_id = match extended_pan_id {
        Some(v) => format_reversed_hex(v.as_slice()),
        None => "unknown".to_string(),
    };
    let permit_join = match permit_join {
        Some(v) => v.len() > 0 && v[0] > 0,
        None => false,
    };
    NetworkStatus { connected, channel, pan_id, extended_pan_id, permit_join, device_count }
}

} // verus!
