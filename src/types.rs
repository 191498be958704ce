//! Protocol errors, status codes, device state, and the APS/ZDO/ZCL payloads.

use vstd::prelude::*;
use crate::wire::{le16, le16_bytes, read_le16, push_le16, push_all, copy_range};
use crate::hex::{format_reversed_hex, reversed_hex};

verus! {

/// Errors of the protocol layer.
#[derive(Debug, Clone, PartialEq, Eq)]
pub enum ProtocolError {
    /// A frame or payload whose structure is wrong.
    InvalidFrame(String),
    /// The CRC carried by a frame differs from the one computed over it.
    CrcMismatch { expected: u16, actual: u16 },
    /// Fewer bytes than the structure needs (the count is the length seen).
    FrameTooShort(usize),
    /// A command byte that names no command.
    UnknownCommand(u8),
    /// The serial device failed (its message).
    SerialError(String),
    /// No response came in time.
    Timeout,
    /// The transport is gone.
    NotConnected,
    /// The radio answered with a status other than success.
    DeviceError(Status),
}

/// Status byte of a response.
#[derive(Debug, Clone, Copy, PartialEq, Eq, Structural)]
pub enum Status {
    Success,
    Failure,
    Busy,
    Timeout,
    Unsupported,
    Error,
    NoNetwork,
    InvalidValue,
}

/// The status a byte names, if any.
pub open spec fn status_of_byte(b: u8) -> Option<Status> {
    if b == 0 {
        Some(Status::Success)
    } else if b == 1 {
        Some(Status::Failure)
    } else if b == 2 {
        Some(Status::Busy)
    } else if b == 3 {
        Some(Status::Timeout)
    } else if b == 4 {
        Some(Status::Unsupported)
    } else if b == 5 {
        Some(Status::Error)
    } else if b == 6 {
        Some(Status::NoNetwork)
    } else if b == 7 {
        Some(Status::InvalidValue)
    } else {
        None
    }
}

impl Status {
    /// The status a byte names; the byte itself when it names none.
    pub fn from_u8(value: u8) -> (r: Result<Status, u8>)
        ensures
            status_of_byte(value) matches Some(s) ==> r == Ok::<Status, u8>(s),
            status_of_byte(value) is None ==> r == Err::<Status, u8>(value),
    {
        match value {
            0 => Ok(Status::Success),
            1 => Ok(Status::Failure),
            2 => Ok(Status::Busy),
            3 => Ok(Status::Timeout),
            4 => Ok(Status::Unsupported),
            5 => Ok(Status::Error),
            6 => Ok(Status::NoNetwork),
            7 => Ok(Status::InvalidValue),
            _ => Err(value),
        }
    }
}

} // verus!

verus! {

/// Network state of the radio.
#[derive(Debug, Clone, Copy, PartialEq, Eq, Structural)]
pub enum NetworkState {
    Offline,
    Joining,
    Connected,
    Leaving,
}

/// The network state held in the low two bits.
pub open spec fn network_state_of(bits: u8) -> NetworkState {
    if bits & 3 == 0 {
        NetworkState::Offline
    } else if bits & 3 == 1 {
        NetworkState::Joining
    } else if bits & 3 == 2 {
        NetworkState::Connected
    } else {
        NetworkState::Leaving
    }
}

impl NetworkState {
    /// Decodes the low two bits.
    pub fn from_bits(bits: u8) -> (r: NetworkState)
        ensures
            r == network_state_of(bits),
    {
        let low = bits & 0x03;
        if low == 0 {
            NetworkState::Offline
        } else if low == 1 {
            NetworkState::Joining
        } else if low == 2 {
            NetworkState::Connected
        } else {
            NetworkState::Leaving
        }
    }
}

/// Device state flags, packed in one byte.
#[derive(Debug, Clone, Copy, PartialEq, Eq, Structural)]
pub struct DeviceState {
    pub network_state: NetworkState,
    pub aps_data_confirm: bool,
    pub aps_data_indication: bool,
    pub configuration_changed: bool,
    pub aps_request_free_slots: bool,
}

/// The flags a state byte carries.
pub open spec fn device_state_of(b: u8) -> DeviceState {
    DeviceState {
        network_state: network_state_of(b),
        aps_data_confirm: b & 0x04 != 0,
        aps_data_indication: b & 0x08 != 0,
        configuration_changed: b & 0x10 != 0,
        aps_request_free_slots: b & 0x20 != 0,
    }
}

impl DeviceState {
    /// Unpacks a state byte.
    pub fn from_byte(byte: u8) -> (r: DeviceState)
        ensures
            r == device_state_of(byte),
    {
        DeviceState {
            network_state: NetworkState::from_bits(byte),
            aps_data_confirm: (byte & 0x04) != 0,
            aps_data_indication: (byte & 0x08) != 0,
            configuration_changed: (byte & 0x10) != 0,
            aps_request_free_slots: (byte & 0x20) != 0,
        }
    }
}

/// Hardware platform of the radio.
#[derive(Debug, Clone, Copy, PartialEq, Eq, Structural)]
pub enum Platform {
    ConBee,
    ConBeeII,
    RaspBee,
    RaspBeeII,
    Unknown(u8),
}

/// The platform a byte names.
pub open spec fn platform_of(b: u8) -> Platform {
    if b == 0x03 {
        Platform::RaspBee
    } else if b == 0x05 {
        Platform::ConBee
    } else if b == 0x06 {
        Platform::RaspBeeII
    } else if b == 0x07 {
        Platform::ConBeeII
    } else {
        Platform::Unknown(b)
    }
}

impl Platform {
    /// The platform a byte names.
    pub fn from_u8(value: u8) -> (r: Platform)
        ensures
            r == platform_of(value),
    {
        match value {
            0x03 => Platform::RaspBee,
            0x05 => Platform::ConBee,
            0x06 => Platform::RaspBeeII,
            0x07 => Platform::ConBeeII,
            v => Platform::Unknown(v),
        }
    }
}

/// Firmware version: major, minor and patch, then the platform, from the
/// most significant byte down.
#[derive(Debug, Clone, Copy, PartialEq, Eq, Structural)]
pub struct FirmwareVersion {
    pub major: u8,
    pub minor: u8,
    pub patch: u8,
    pub platform: Platform,
}

impl FirmwareVersion {
    /// Unpacks a 32-bit version word.
    pub fn from_u32(version: u32) -> (r: FirmwareVersion)
        ensures
            r.major as int == version as int / 0x1000000,
            r.minor as int == (version as int / 0x10000) % 256,
            r.patch as int == (version as int / 0x100) % 256,
            r.platform == platform_of((version as int % 256) as u8),
    {
        let major = (version / 0x1000000) as u8;
        let minor = ((version / 0x10000) % 256) as u8;
        let patch = ((version / 0x100) % 256) as u8;
        FirmwareVersion { major, minor, patch, platform: Platform::from_u8((version % 256) as u8) }
    }
}

/// Addressing mode of an APS frame.
#[derive(Debug, Clone, Copy, PartialEq, Eq, Structural)]
pub enum AddressMode {
    Group,
    Nwk,
    Ieee,
    NwkAndIeee,
}

/// The addressing mode a byte names, if any.
pub open spec fn address_mode_of(b: u8) -> Option<AddressMode> {
    if b == 1 {
        Some(AddressMode::Group)
    } else if b == 2 {
        Some(AddressMode::Nwk)
    } else if b == 3 {
        Some(AddressMode::Ieee)
    } else if b == 4 {
        Some(AddressMode::NwkAndIeee)
    } else {
        None
    }
}

/// The wire byte of each addressing mode.
pub open spec fn address_mode_byte(m: AddressMode) -> u8 {
    match m {
        AddressMode::Group => 1,
        AddressMode::Nwk => 2,
        AddressMode::Ieee => 3,
        AddressMode::NwkAndIeee => 4,
    }
}

/// Bytes taken by an address in each mode.
pub open spec fn address_len(m: AddressMode) -> int {
    match m {
        AddressMode::Group | AddressMode::Nwk => 2,
        AddressMode::Ieee => 8,
        AddressMode::NwkAndIeee => 10,
    }
}

impl AddressMode {
    /// The mode a byte names; the byte itself when it names none.
    pub fn from_u8(value: u8) -> (r: Result<AddressMode, u8>)
        ensures
            address_mode_of(value) matches Some(m) ==> r == Ok::<AddressMode, u8>(m),
            address_mode_of(value) is None ==> r == Err::<AddressMode, u8>(value),
    {
        match value {
            1 => Ok(AddressMode::Group),
            2 => Ok(AddressMode::Nwk),
            3 => Ok(AddressMode::Ieee),
            4 => Ok(AddressMode::NwkAndIeee),
            _ => Err(value),
        }
    }

    /// The wire byte of this mode.
    pub fn to_u8(&self) -> (r: u8)
        ensures
            r == address_mode_byte(*self),
    {
        match self {
            AddressMode::Group => 1,
            AddressMode::Nwk => 2,
            AddressMode::Ieee => 3,
            AddressMode::NwkAndIeee => 4,
        }
    }

    fn address_len(&self) -> (r: usize)
        ensures
            r as int == address_len(*self),
    {
        match self {
            AddressMode::Group | AddressMode::Nwk => 2,
            AddressMode::Ieee => 8,
            AddressMode::NwkAndIeee => 10,
        }
    }
}

/// ZDO cluster identifiers.
#[derive(Debug, Clone, Copy, PartialEq, Eq, Structural)]
pub enum ZdoCluster {
    DeviceAnnce,
    NodeDescReq,
    NodeDescRsp,
    SimpleDescReq,
    SimpleDescRsp,
    ActiveEpReq,
    ActiveEpRsp,
}

/// The cluster identifier of each ZDO cluster.
pub open spec fn zdo_cluster_id(c: ZdoCluster) -> u16 {
    match c {
        ZdoCluster::DeviceAnnce => 0x0013,
        ZdoCluster::NodeDescReq => 0x0002,
        ZdoCluster::NodeDescRsp => 0x8002,
        ZdoCluster::SimpleDescReq => 0x0004,
        ZdoCluster::SimpleDescRsp => 0x8004,
        ZdoCluster::ActiveEpReq => 0x0005,
        ZdoCluster::ActiveEpRsp => 0x8005,
    }
}

impl ZdoCluster {
    /// The cluster identifier.
    pub fn id(&self) -> (r: u16)
        ensures
            r == zdo_cluster_id(*self),
    {
        match self {
            ZdoCluster::DeviceAnnce => 0x0013,
            ZdoCluster::NodeDescReq => 0x0002,
            ZdoCluster::NodeDescRsp => 0x8002,
            ZdoCluster::SimpleDescReq => 0x0004,
            ZdoCluster::SimpleDescRsp => 0x8004,
            ZdoCluster::ActiveEpReq => 0x0005,
            ZdoCluster::ActiveEpRsp => 0x8005,
        }
    }
}

/// On/Off cluster identifier.
pub const ON_OFF_CLUSTER: u16 = 0x0006;

/// Level Control cluster identifier.
pub const LEVEL_CONTROL_CLUSTER: u16 = 0x0008;

/// Color Control cluster identifier.
pub const COLOR_CONTROL_CLUSTER: u16 = 0x0300;

/// ZDO profile identifier.
pub const ZDO_PROFILE: u16 = 0x0000;

/// Home Automation profile identifier.
pub const HOME_AUTOMATION_PROFILE: u16 = 0x0104;

/// The eight bytes starting at `i`.
pub fn take8(data: &[u8], i: usize) -> (r: [u8; 8])
    requires
        i + 8 <= data@.len(),
    ensures
        r@ == data@.subrange(i as int, i + 8),
{
    let r = [
        data[i],
        data[i + 1],
        data[i + 2],
        data[i + 3],
        data[i + 4],
        data[i + 5],
        data[i + 6],
        data[i + 7],
    ];
    assert(r@ =~= data@.subrange(i as int, i + 8));
    r
}

} // verus!

verus! {

/// An incoming APS data indication.
#[derive(Debug, Clone)]
pub struct ApsDataIndication {
    pub device_state: DeviceState,
    pub dest_addr_mode: AddressMode,
    pub dest_addr: u16,
    pub dest_endpoint: u8,
    pub src_addr_mode: AddressMode,
    pub src_short_addr: u16,
    pub src_ieee_addr: Option<[u8; 8]>,
    pub src_endpoint: u8,
    pub profile_id: u16,
    pub cluster_id: u16,
    pub asdu: Vec<u8>,
    pub lqi: u8,
    pub rssi: i8,
}

/// The fields of an indication whose source address starts at `s0` and whose
/// ASDU starts at `a`, where every fixed field lies inside `data`.
pub open spec fn indication_fields(
    data: Seq<u8>,
    ind: ApsDataIndication,
    dm: AddressMode,
    sm: AddressMode,
) -> bool {
    let n = data.len();
    let e = 4 + address_len(dm);
    let s0 = e + 2;
    let p = s0 + address_len(sm);
    let a = p + 7;
    let q = a + le16(data[p + 5], data[p + 6]) as int;
    &&& ind.device_state == device_state_of(data[2])
    &&& ind.dest_addr_mode == dm
    &&& ind.dest_addr == (if dm == AddressMode::Ieee {
        0u16
    } else {
        le16(data[4], data[5])
    })
    &&& ind.dest_endpoint == data[e]
    &&& ind.src_addr_mode == sm
    &&& ind.src_short_addr == (if sm == AddressMode::Ieee {
        0u16
    } else {
        le16(data[s0], data[s0 + 1])
    })
    &&& (sm == AddressMode::Ieee ==> (ind.src_ieee_addr matches Some(x) && x@ == data.subrange(
        s0,
        s0 + 8,
    )))
    &&& (sm == AddressMode::NwkAndIeee ==> (ind.src_ieee_addr matches Some(x) && x@
        == data.subrange(s0 + 2, s0 + 10)))
    &&& (sm == AddressMode::Group || sm == AddressMode::Nwk ==> ind.src_ieee_addr is None)
    &&& ind.src_endpoint == data[p]
    &&& ind.profile_id == le16(data[p + 1], data[p + 2])
    &&& ind.cluster_id == le16(data[p + 3], data[p + 4])
    &&& ind.asdu@ == data.subrange(a, q)
    &&& ind.lqi == (if q < n {
        data[q]
    } else {
        0u8
    })
    &&& ind.rssi == (if q + 1 < n {
        data[q + 1] as i8
    } else {
        0i8
    })
}

/// What parsing an indication payload gives. The address modes decide how
/// many address bytes are read; an unknown mode is an invalid frame; any
/// field that would lie past the end makes the payload too short. LQI and
/// RSSI default to zero when absent.
pub open spec fn indication_outcome(data: Seq<u8>, r: Result<ApsDataIndication, ProtocolError>) -> bool {
    let n = data.len();
    let too_short = Err::<ApsDataIndication, ProtocolError>(ProtocolError::FrameTooShort(n as usize));
    if n < 15 {
        r == too_short
    } else if address_mode_of(data[3]) is None {
        r matches Err(ProtocolError::InvalidFrame(_))
    } else {
        let dm = address_mode_of(data[3])->Some_0;
        let e = 4 + address_len(dm);
        if e + 1 >= n {
            r == too_short
        } else if address_mode_of(data[e + 1]) is None {
            r matches Err(ProtocolError::InvalidFrame(_))
        } else {
            let sm = address_mode_of(data[e + 1])->Some_0;
            let p = e + 2 + address_len(sm);
            if p + 7 > n {
                r == too_short
            } else if p + 7 + le16(data[p + 5], data[p + 6]) as int > n {
                r == too_short
            } else {
                r matches Ok(ind) && indication_fields(data, ind, dm, sm)
            }
        }
    }
}

impl ApsDataIndication {
    /// An IEEE address in display form: colon-separated hex, most
    /// significant byte first.
    pub fn format_ieee(ieee: &[u8; 8]) -> (r: String)
        ensures
            r@ == reversed_hex(ieee@),
    {
        format_reversed_hex(ieee)
    }

    /// Parses an APS data indication payload.
    pub fn parse(data: &[u8]) -> (r: Result<ApsDataIndication, ProtocolError>)
        ensures
            indication_outcome(data@, r),
    {
        let n = data.len();
        if n < 15 {
            return Err(ProtocolError::FrameTooShort(n));
        }
        let device_state = DeviceState::from_byte(data[2]);
        let dest_addr_mode = match AddressMode::from_u8(data[3]) {
            Ok(m) => m,
            Err(_) => {
                return Err(ProtocolError::InvalidFrame("unknown destination address mode".to_string()));
            },
        };
        let dest_addr = match dest_addr_mode {
            AddressMode::Ieee => 0u16,
            _ => read_le16(data, 4),
        };
        let e = 4 + dest_addr_mode.address_len();
        if e + 1 >= n {
            return Err(ProtocolError::FrameTooShort(n));
        }
        let dest_endpoint = data[e];
        let src_addr_mode = match AddressMode::from_u8(data[e + 1]) {
            Ok(m) => m,
            Err(_) => {
                return Err(ProtocolError::InvalidFrame("unknown source address mode".to_string()));
            },
        };
        let s0 = e + 2;
        let p = s0 + src_addr_mode.address_len();
        if p + 7 > n {
            return Err(ProtocolError::FrameTooShort(n));
        }
        let (src_short_addr, src_ieee_addr) = match src_addr_mode {
            AddressMode::Group | AddressMode::Nwk => (read_le16(data, s0), None),
            AddressMode::Ieee => (0u16, Some(take8(data, s0))),
            AddressMode::NwkAndIeee => (read_le16(data, s0), Some(take8(data, s0 + 2))),
        };
        let src_endpoint = data[p];
        let profile_id = read_le16(data, p + 1);
        let cluster_id = read_le16(data, p + 3);
        let asdu_len = read_le16(data, p + 5) as usize;
        let a = p + 7;
        if a + asdu_len > n {
            return Err(ProtocolError::FrameTooShort(n));
        }
        let asdu = copy_range(data, a, a + asdu_len);
        let q = a + asdu_len;
        let lqi = if q < n { data[q] } else { 0u8 };
        let rssi = if q + 1 < n { data[q + 1] as i8 } else { 0i8 };
        let ind = ApsDataIndication {
            device_state,
            dest_addr_mode,
            dest_addr,
            dest_endpoint,
            src_addr_mode,
            src_short_addr,
            src_ieee_addr,
            src_endpoint,
            profile_id,
            cluster_id,
            asdu,
            lqi,
            rssi,
        };
        assert(indication_fields(data@, ind, dest_addr_mode, src_addr_mode));
        Ok(ind)
    }
}

} // verus!

verus! {

/// An unknown address-mode byte in an indication is reported as an invalid
/// frame, whatever follows it.
pub proof fn lemma_unknown_address_mode_rejected(data: Seq<u8>)
    requires
        data.len() >= 15,
        address_mode_of(data[3]) is None || ({
            let e = 4 + address_len(address_mode_of(data[3])->Some_0);
            address_mode_of(data[3]) is Some && e + 1 < data.len() && address_mode_of(data[e + 1]) is None
        }),
    ensures
        forall|r: Result<ApsDataIndication, ProtocolError>| #[trigger]
            indication_outcome(data, r) ==> (r matches Err(ProtocolError::InvalidFrame(_))),
{
}

/// A device announcement (ZDO cluster 0x0013).
#[derive(Debug, Clone, Copy, PartialEq, Eq)]
pub struct DeviceAnnouncement {
    pub tsn: u8,
    pub short_addr: u16,
    pub ieee_addr: [u8; 8],
    pub capability: u8,
}

impl DeviceAnnouncement {
    /// Parses an announcement: TSN, short address, IEEE address, capability.
    pub fn parse(asdu: &[u8]) -> (r: Result<DeviceAnnouncement, ProtocolError>)
        ensures
            asdu@.len() < 12 ==> r == Err::<DeviceAnnouncement, ProtocolError>(
                ProtocolError::FrameTooShort(asdu@.len() as usize),
            ),
            asdu@.len() >= 12 ==> (r matches Ok(a) && a.tsn == asdu@[0] && a.short_addr == le16(
                asdu@[1],
                asdu@[2],
            ) && a.ieee_addr@ == asdu@.subrange(3, 11) && a.capability == asdu@[11]),
    {
        if asdu.len() < 12 {
            return Err(ProtocolError::FrameTooShort(asdu.len()));
        }
        Ok(DeviceAnnouncement {
            tsn: asdu[0],
            short_addr: read_le16(asdu, 1),
            ieee_addr: take8(asdu, 3),
            capability: asdu[11],
        })
    }

    /// Whether the device is a router (capability bit 0x02).
    pub fn is_router(&self) -> (r: bool)
        ensures
            r == (self.capability & 0x02 != 0),
    {
        (self.capability & 0x02) != 0
    }

    /// Whether the device is mains powered (capability bit 0x04).
    pub fn is_mains_powered(&self) -> (r: bool)
        ensures
            r == (self.capability & 0x04 != 0),
    {
        (self.capability & 0x04) != 0
    }

    /// Whether the receiver stays on when idle (capability bit 0x08).
    pub fn rx_on_when_idle(&self) -> (r: bool)
        ensures
            r == (self.capability & 0x08 != 0),
    {
        (self.capability & 0x08) != 0
    }
}

/// Active endpoints response (ZDO cluster 0x8005).
#[derive(Debug, Clone)]
pub struct ActiveEndpointsResponse {
    pub tsn: u8,
    pub status: u8,
    pub nwk_addr: u16,
    pub endpoints: Vec<u8>,
}

/// The endpoint list of an active endpoints response: empty unless the
/// status is zero and the whole list is present.
pub open spec fn active_endpoints_of(asdu: Seq<u8>) -> Seq<u8> {
    if asdu[1] == 0 && asdu.len() > 4 && asdu.len() >= 5 + asdu[4] as int {
        asdu.subrange(5, 5 + asdu[4] as int)
    } else {
        Seq::empty()
    }
}

impl ActiveEndpointsResponse {
    /// Parses an active endpoints response.
    pub fn parse(asdu: &[u8]) -> (r: Result<ActiveEndpointsResponse, ProtocolError>)
        ensures
            asdu@.len() < 4 ==> r == Err::<ActiveEndpointsResponse, ProtocolError>(
                ProtocolError::FrameTooShort(asdu@.len() as usize),
            ),
            asdu@.len() >= 4 ==> (r matches Ok(a) && a.tsn == asdu@[0] && a.status == asdu@[1]
                && a.nwk_addr == le16(asdu@[2], asdu@[3]) && a.endpoints@ == active_endpoints_of(
                asdu@,
            )),
    {
        let n = asdu.len();
        if n < 4 {
            return Err(ProtocolError::FrameTooShort(n));
        }
        let status = asdu[1];
        let endpoints = if status == 0 && n > 4 {
            let count = asdu[4] as usize;
            if n >= 5 + count {
                copy_range(asdu, 5, 5 + count)
            } else {
                Vec::new()
            }
        } else {
            Vec::new()
        };
        proof {
            if !(status == 0 && n > 4 && n >= 5 + asdu@[4] as int) {
                assert(endpoints@ =~= Seq::<u8>::empty());
            }
        }
        Ok(ActiveEndpointsResponse { tsn: asdu[0], status, nwk_addr: read_le16(asdu, 2), endpoints })
    }
}

/// Simple descriptor response (ZDO cluster 0x8004).
#[derive(Debug, Clone)]
pub struct SimpleDescriptorResponse {
    pub tsn: u8,
    pub status: u8,
    pub nwk_addr: u16,
    pub endpoint: u8,
    pub profile_id: u16,
    pub device_id: u16,
    pub device_version: u8,
    pub in_clusters: Vec<u16>,
    pub out_clusters: Vec<u16>,
}

/// How many of `count` two-byte clusters starting at `start` are present.
pub open spec fn clusters_present(n: int, start: int, count: int) -> int {
    if start >= n {
        0
    } else if count <= (n - start) / 2 {
        count
    } else {
        (n - start) / 2
    }
}

/// The clusters present of `count` starting at `start`.
pub open spec fn cluster_list(data: Seq<u8>, start: int, count: int) -> Seq<u16> {
    Seq::new(
        clusters_present(data.len() as int, start, count) as nat,
        |k: int| le16(data[start + 2 * k], data[start + 2 * k + 1]),
    )
}

/// The declared number of input clusters (zero when the count byte is absent).
pub open spec fn in_count(asdu: Seq<u8>) -> int {
    if 11 < asdu.len() {
        asdu[11] as int
    } else {
        0
    }
}

/// Where the output cluster count byte stands.
pub open spec fn out_count_at(asdu: Seq<u8>) -> int {
    12 + 2 * clusters_present(asdu.len() as int, 12, in_count(asdu))
}

/// The declared number of output clusters (zero when the count byte is absent).
pub open spec fn out_count(asdu: Seq<u8>) -> int {
    if out_count_at(asdu) < asdu.len() {
        asdu[out_count_at(asdu)] as int
    } else {
        0
    }
}

fn read_clusters(data: &[u8], start: usize, count: usize) -> (r: (Vec<u16>, usize))
    requires
        start <= data@.len(),
    ensures
        r.0@ == cluster_list(data@, start as int, count as int),
        r.1 == start + 2 * clusters_present(data@.len() as int, start as int, count as int),
{
    let n = data.len();
    let mut out: Vec<u16> = Vec::new();
    let mut idx = start;
    let mut k: usize = 0;
    while k < count
        invariant
            k <= count,
            n == data@.len(),
            start <= n,
            out@.len() == clusters_present(n as int, start as int, k as int),
            idx == start + 2 * out@.len(),
            forall|j: int|
                0 <= j < out@.len() ==> out@[j] == le16(data@[start + 2 * j], data@[start + 2 * j + 1]),
        decreases count - k,
    {
        if idx < n && n - idx >= 2 {
            out.push(read_le16(data, idx));
            idx = idx + 2;
        }
        k = k + 1;
    }
    assert(out@ =~= cluster_list(data@, start as int, count as int));
    (out, idx)
}

/// What parsing a simple descriptor response gives.
pub open spec fn simple_descriptor_outcome(asdu: Seq<u8>, r: Result<SimpleDescriptorResponse, ProtocolError>) -> bool {
    let d = asdu;
    let n = d.len();
    if n < 5 {
        r == Err::<SimpleDescriptorResponse, ProtocolError>(
            ProtocolError::FrameTooShort(n as usize),
        )
    } else if d[1] != 0 || n < 6 {
        r matches Ok(s) && s.tsn == d[0] && s.status == d[1] && s.nwk_addr == le16(
            d[2],
            d[3],
        ) && s.endpoint == 0 && s.profile_id == 0 && s.device_id == 0
            && s.device_version == 0 && s.in_clusters@.len() == 0
            && s.out_clusters@.len() == 0
    } else if n < 11 {
        r == Err::<SimpleDescriptorResponse, ProtocolError>(
            ProtocolError::FrameTooShort(n as usize),
        )
    } else {
        r matches Ok(s) && s.tsn == d[0] && s.status == d[1] && s.nwk_addr == le16(
            d[2],
            d[3],
        ) && s.endpoint == d[5] && s.profile_id == le16(d[6], d[7]) && s.device_id
            == le16(d[8], d[9]) && s.device_version == d[10] & 0x0F
            && s.in_clusters@ == cluster_list(d, 12, in_count(d))
            && s.out_clusters@ == cluster_list(d, out_count_at(d) + 1, out_count(d))
    }
}

impl SimpleDescriptorResponse {
    /// Parses a simple descriptor response. A non-zero status, or a response
    /// with no descriptor, gives zero fields and empty cluster lists; cluster
    /// lists cut short keep the clusters that are present.
    pub fn parse(asdu: &[u8]) -> (r: Result<SimpleDescriptorResponse, ProtocolError>)
        ensures
            simple_descriptor_outcome(asdu@, r),
    {
        let n = asdu.len();
        if n < 5 {
            return Err(ProtocolError::FrameTooShort(n));
        }
        let tsn = asdu[0];
        let status = asdu[1];
        let nwk_addr = read_le16(asdu, 2);
        if status != 0 || n < 6 {
            return Ok(SimpleDescriptorResponse {
                tsn,
                status,
                nwk_addr,
                endpoint: 0,
                profile_id: 0,
                device_id: 0,
                device_version: 0,
                in_clusters: Vec::new(),
                out_clusters: Vec::new(),
            });
        }
        if n < 11 {
            return Err(ProtocolError::FrameTooShort(n));
        }
        let endpoint = asdu[5];
        let profile_id = read_le16(asdu, 6);
        let device_id = read_le16(asdu, 8);
        let device_version = asdu[10] & 0x0F;
        let in_cluster_count = if 11 < n { asdu[11] as usize } else { 0 };
        let (in_clusters, idx) = if n >= 12 {
            read_clusters(asdu, 12, in_cluster_count)
        } else {
            (Vec::new(), 12)
        };
        assert(in_clusters@ =~= cluster_list(asdu@, 12, in_count(asdu@)));
        let out_clusters = if idx < n {
            read_clusters(asdu, idx + 1, asdu[idx] as usize).0
        } else {
            Vec::new()
        };
        assert(out_clusters@ =~= cluster_list(asdu@, out_count_at(asdu@) + 1, out_count(asdu@)));
        Ok(SimpleDescriptorResponse {
            tsn,
            status,
            nwk_addr,
            endpoint,
            profile_id,
            device_id,
            device_version,
            in_clusters,
            out_clusters,
        })
    }
}

} // verus!

verus! {

/// On/Off cluster commands.
#[derive(Debug, Clone, Copy, PartialEq, Eq, Structural)]
pub enum OnOffCommand {
    Off,
    On,
    Toggle,
}

/// The ZCL command identifier of each On/Off command.
pub open spec fn on_off_byte(c: OnOffCommand) -> u8 {
    match c {
        OnOffCommand::Off => 0x00,
        OnOffCommand::On => 0x01,
        OnOffCommand::Toggle => 0x02,
    }
}

impl OnOffCommand {
    /// The ZCL command identifier.
    pub fn to_u8(&self) -> (r: u8)
        ensures
            r == on_off_byte(*self),
    {
        match self {
            OnOffCommand::Off => 0x00,
            OnOffCommand::On => 0x01,
            OnOffCommand::Toggle => 0x02,
        }
    }
}

/// An outgoing APS data request.
#[derive(Debug, Clone)]
pub struct ApsDataRequest {
    pub request_id: u8,
    pub dest_addr_mode: AddressMode,
    pub dest_short_addr: u16,
    pub dest_endpoint: u8,
    pub profile_id: u16,
    pub cluster_id: u16,
    pub src_endpoint: u8,
    pub asdu: Vec<u8>,
    pub tx_options: u8,
    pub radius: u8,
}

/// The bytes of a request after its length field.
pub open spec fn aps_request_body(r: ApsDataRequest) -> Seq<u8> {
    seq![r.request_id, 0u8, address_mode_byte(r.dest_addr_mode)] + le16_bytes(r.dest_short_addr)
        + seq![r.dest_endpoint] + le16_bytes(r.profile_id) + le16_bytes(r.cluster_id) + seq![
        r.src_endpoint,
    ] + le16_bytes(r.asdu@.len() as u16) + r.asdu@ + seq![r.tx_options, r.radius]
}

/// A serialized request: the body's length, then the body.
pub open spec fn aps_request_bytes(r: ApsDataRequest) -> Seq<u8> {
    le16_bytes(aps_request_body(r).len() as u16) + aps_request_body(r)
}

impl ApsDataRequest {
    /// A Home Automation request to a short address, from endpoint 1, with
    /// an APS acknowledgement requested and the network's default radius.
    pub fn new(request_id: u8, dest_short_addr: u16, dest_endpoint: u8, cluster_id: u16, asdu: Vec<
        u8,
    >) -> (r: ApsDataRequest)
        ensures
            r.request_id == request_id,
            r.dest_addr_mode == AddressMode::Nwk,
            r.dest_short_addr == dest_short_addr,
            r.dest_endpoint == dest_endpoint,
            r.profile_id == HOME_AUTOMATION_PROFILE,
            r.cluster_id == cluster_id,
            r.src_endpoint == 1,
            r.asdu@ == asdu@,
            r.tx_options == 0x04,
            r.radius == 0,
    {
        ApsDataRequest {
            request_id,
            dest_addr_mode: AddressMode::Nwk,
            dest_short_addr,
            dest_endpoint,
            profile_id: HOME_AUTOMATION_PROFILE,
            cluster_id,
            src_endpoint: 0x01,
            asdu,
            tx_options: 0x04,
            radius: 0x00,
        }
    }

    /// A ZDO Active Endpoints request for `dest_short_addr`: the ASDU is the
    /// TSN and the address of interest.
    pub fn active_endpoints_request(request_id: u8, dest_short_addr: u16, tsn: u8) -> (r:
        ApsDataRequest)
        ensures
            r.request_id == request_id,
            r.dest_addr_mode == AddressMode::Nwk,
            r.dest_short_addr == dest_short_addr,
            r.dest_endpoint == 0,
            r.profile_id == ZDO_PROFILE,
            r.cluster_id == zdo_cluster_id(ZdoCluster::ActiveEpReq),
            r.src_endpoint == 0,
            r.asdu@ == seq![tsn] + le16_bytes(dest_short_addr),
            r.tx_options == 0,
            r.radius == 0,
    {
        let mut asdu: Vec<u8> = Vec::new();
        asdu.push(tsn);
        push_le16(&mut asdu, dest_short_addr);
        assert(asdu@ =~= seq![tsn] + le16_bytes(dest_short_addr));
        ApsDataRequest {
            request_id,
            dest_addr_mode: AddressMode::Nwk,
            dest_short_addr,
            dest_endpoint: 0x00,
            profile_id: ZDO_PROFILE,
            cluster_id: ZdoCluster::ActiveEpReq.id(),
            src_endpoint: 0x00,
            asdu,
            tx_options: 0x00,
            radius: 0x00,
        }
    }

    /// A ZDO Simple Descriptor request for one endpoint of `dest_short_addr`:
    /// the ASDU is the TSN, the address and the endpoint.
    pub fn simple_descriptor_request(request_id: u8, dest_short_addr: u16, endpoint: u8, tsn: u8) -> (r:
        ApsDataRequest)
        ensures
            r.request_id == request_id,
            r.dest_addr_mode == AddressMode::Nwk,
            r.dest_short_addr == dest_short_addr,
            r.dest_endpoint == 0,
            r.profile_id == ZDO_PROFILE,
            r.cluster_id == zdo_cluster_id(ZdoCluster::SimpleDescReq),
            r.src_endpoint == 0,
            r.asdu@ == seq![tsn] + le16_bytes(dest_short_addr) + seq![endpoint],
            r.tx_options == 0,
            r.radius == 0,
    {
        let mut asdu: Vec<u8> = Vec::new();
        asdu.push(tsn);
        push_le16(&mut asdu, dest_short_addr);
        asdu.push(endpoint);
        assert(asdu@ =~= seq![tsn] + le16_bytes(dest_short_addr) + seq![endpoint]);
        ApsDataRequest {
            request_id,
            dest_addr_mode: AddressMode::Nwk,
            dest_short_addr,
            dest_endpoint: 0x00,
            profile_id: ZDO_PROFILE,
            cluster_id: ZdoCluster::SimpleDescReq.id(),
            src_endpoint: 0x00,
            asdu,
            tx_options: 0x00,
            radius: 0x00,
        }
    }

    /// The request payload: its length, then request id, flags, address
    /// mode, short address, endpoints, profile, cluster, ASDU, options, radius.
    pub fn serialize(&self) -> (r: Vec<u8>)
        requires
            self.asdu@.len() + 15 <= 0xFFFF,
        ensures
            r@ == aps_request_bytes(*self),
    {
        let mut body: Vec<u8> = Vec::new();
        body.push(self.request_id);
        body.push(0x00);
        body.push(self.dest_addr_mode.to_u8());
        push_le16(&mut body, self.dest_short_addr);
        body.push(self.dest_endpoint);
        push_le16(&mut body, self.profile_id);
        push_le16(&mut body, self.cluster_id);
        body.push(self.src_endpoint);
        push_le16(&mut body, self.asdu.len() as u16);
        push_all(&mut body, self.asdu.as_slice());
        body.push(self.tx_options);
        body.push(self.radius);
        assert(body@ =~= aps_request_body(*self));
        let mut data: Vec<u8> = Vec::new();
        push_le16(&mut data, body.len() as u16);
        push_all(&mut data, body.as_slice());
        assert(data@ =~= aps_request_bytes(*self));
        data
    }
}

/// A ZCL frame.
#[derive(Debug, Clone)]
pub struct ZclFrame {
    frame_control: u8,
    manufacturer_code: Option<u16>,
    transaction_seq: u8,
    command_id: u8,
    payload: Vec<u8>,
}

/// The bytes of a ZCL frame.
pub open spec fn zcl_bytes(
    frame_control: u8,
    manufacturer_code: Option<u16>,
    transaction_seq: u8,
    command_id: u8,
    payload: Seq<u8>,
) -> Seq<u8> {
    seq![frame_control] + (match manufacturer_code {
        Some(m) => le16_bytes(m),
        None => Seq::empty(),
    }) + seq![transaction_seq, command_id] + payload
}

impl ZclFrame {
    /// Frame control byte.
    pub closed spec fn spec_frame_control(&self) -> u8 {
        self.frame_control
    }

    /// Manufacturer code, present when frame-control bit 2 is set.
    pub closed spec fn spec_manufacturer_code(&self) -> Option<u16> {
        self.manufacturer_code
    }

    /// Transaction sequence number.
    pub closed spec fn spec_transaction_seq(&self) -> u8 {
        self.transaction_seq
    }

    /// Command identifier.
    pub closed spec fn spec_command_id(&self) -> u8 {
        self.command_id
    }

    /// Payload after the header.
    pub closed spec fn spec_payload(&self) -> Seq<u8> {
        self.payload@
    }

    /// Parses a ZCL frame: frame control, the manufacturer code when bit 2 is
    /// set, transaction sequence, command, payload.
    pub fn parse(data: &[u8]) -> (r: Result<ZclFrame, ProtocolError>)
        ensures
            ({
                let d = data@;
                let h = if d.len() > 0 && d[0] & 0x04 != 0 { 3int } else { 1int };
                if d.len() < 3 || d.len() < h + 2 {
                    r == Err::<ZclFrame, ProtocolError>(ProtocolError::FrameTooShort(d.len() as usize))
                } else {
                    r matches Ok(z) && z.spec_frame_control() == d[0] && z.spec_manufacturer_code()
                        == (if h == 3 {
                        Some(le16(d[1], d[2]))
                    } else {
                        None::<u16>
                    }) && z.spec_transaction_seq() == d[h] && z.spec_command_id() == d[h + 1]
                        && z.spec_payload() == d.subrange(h + 2, d.len() as int)
                }
            }),
    {
        let n = data.len();
        if n < 3 {
            return Err(ProtocolError::FrameTooShort(n));
        }
        let frame_control = data[0];
        let mut idx: usize = 1;
        let manufacturer_code = if (frame_control & 0x04) != 0 {
            let code = read_le16(data, 1);
            idx = 3;
            Some(code)
        } else {
            None
        };
        if n < idx + 2 {
            return Err(ProtocolError::FrameTooShort(n));
        }
        let transaction_seq = data[idx];
        let command_id = data[idx + 1];
        let payload = copy_range(data, idx + 2, n);
        Ok(ZclFrame { frame_control, manufacturer_code, transaction_seq, command_id, payload })
    }

    /// Frame control byte.
    pub fn frame_control(&self) -> (r: u8)
        ensures
            r == self.spec_frame_control(),
    {
        self.frame_control
    }

    /// Whether the frame type (bits 0-1) is cluster-specific.
    pub fn is_cluster_specific(&self) -> (r: bool)
        ensures
            r == (self.spec_frame_control() & 0x03 == 0x01),
    {
        (self.frame_control & 0x03) == 0x01
    }

    /// Whether the direction bit (bit 3) says server to client.
    pub fn is_from_server(&self) -> (r: bool)
        ensures
            r == (self.spec_frame_control() & 0x08 != 0),
    {
        (self.frame_control & 0x08) != 0
    }

    /// Command identifier.
    pub fn command_id(&self) -> (r: u8)
        ensures
            r == self.spec_command_id(),
    {
        self.command_id
    }

    /// Payload after the header.
    pub fn payload(&self) -> (r: &[u8])
        ensures
            r@ == self.spec_payload(),
    {
        self.payload.as_slice()
    }

    /// A cluster-specific, client-to-server command with no payload.
    pub fn cluster_command(transaction_seq: u8, command_id: u8) -> (r: ZclFrame)
        ensures
            r.spec_frame_control() == 0x01,
            r.spec_manufacturer_code() is None,
            r.spec_transaction_seq() == transaction_seq,
            r.spec_command_id() == command_id,
            r.spec_payload().len() == 0,
    {
        ZclFrame {
            frame_control: 0x01,
            manufacturer_code: None,
            transaction_seq,
            command_id,
            payload: Vec::new(),
        }
    }

    /// An On/Off cluster command.
    pub fn on_off_command(transaction_seq: u8, cmd: OnOffCommand) -> (r: ZclFrame)
        ensures
            r.spec_frame_control() == 0x01,
            r.spec_manufacturer_code() is None,
            r.spec_transaction_seq() == transaction_seq,
            r.spec_command_id() == on_off_byte(cmd),
            r.spec_payload().len() == 0,
    {
        Self::cluster_command(transaction_seq, cmd.to_u8())
    }

    /// The frame's bytes.
    pub fn serialize(&self) -> (r: Vec<u8>)
        ensures
            r@ == zcl_bytes(
                self.spec_frame_control(),
                self.spec_manufacturer_code(),
                self.spec_transaction_seq(),
                self.spec_command_id(),
                self.spec_payload(),
            ),
    {
        let mut data: Vec<u8> = Vec::new();
        data.push(self.frame_control);
        match self.manufacturer_code {
            Some(m) => push_le16(&mut data, m),
            None => {},
        }
        data.push(self.transaction_seq);
        data.push(self.command_id);
        push_all(&mut data, self.payload.as_slice());
        assert(data@ =~= zcl_bytes(
            self.frame_control,
            self.manufacturer_code,
            self.transaction_seq,
            self.command_id,
            self.payload@,
        ));
        data
    }
}

} // verus!
