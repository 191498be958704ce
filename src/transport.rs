//! The decisions of the serial transport: sequence numbers, the table of
//! requests waiting for a response, how each received frame is dispatched,
//! and the payloads of the typed requests and their responses.

use vstd::prelude::*;
use std::collections::HashMap;
use crate::commands::{CommandId, NetworkParameter, command_byte, parameter_byte};
use crate::frame::{Frame, frame_bytes, frame_outcome};
use crate::slip::{SlipEncoder, slip_encoding};
use crate::types::{
    ApsDataIndication, DeviceAnnouncement, DeviceState, FirmwareVersion, ProtocolError, Status,
    device_state_of, indication_outcome, platform_of, status_of_byte,
};
use crate::wire::{le16, le16_bytes, push_all, push_le16, read_le16, copy_range};

verus! {

broadcast use vstd::std_specs::hash::group_hash_axioms;

/// Events from the radio.
#[derive(Debug, Clone)]
pub enum DeconzEvent {
    /// The device state changed.
    DeviceStateChanged(DeviceState),
    /// APS data is waiting to be fetched.
    ApsDataAvailable,
    /// Raw APS indication payload.
    ApsDataReceived { data: Vec<u8> },
    /// A parsed APS indication.
    ApsIndication(ApsDataIndication),
    /// A device announced itself.
    DeviceAnnounced { ieee_addr: [u8; 8], short_addr: u16, capability: u8 },
    /// A device polled its parent.
    MacPoll { short_addr: u16 },
}

/// The wrapping 8-bit sequence counter; the first number handed out is 1.
pub struct SequenceCounter {
    next: u8,
}

impl View for SequenceCounter {
    type V = u8;

    closed spec fn view(&self) -> u8 {
        self.next
    }
}

/// The number handed out `k` allocations after the counter stood at `start`.
pub open spec fn nth_sequence(start: u8, k: nat) -> u8 {
    ((start as nat + k) % 256) as u8
}

impl SequenceCounter {
    /// A counter whose first number is 1.
    pub fn new() -> (r: SequenceCounter)
        ensures
            r@ == 1,
    {
        SequenceCounter { next: 1 }
    }

    /// Hands out the current number and advances, wrapping after 255.
    pub fn allocate(&mut self) -> (r: u8)
        ensures
            r == old(self)@,
            final(self)@ == nth_sequence(old(self)@, 1),
    {
        let r = self.next;
        self.next = self.next.wrapping_add(1);
        r
    }
}

/// Any 256 consecutive allocations hand out distinct sequence numbers, so
/// fewer than 256 requests in flight never share one.
pub proof fn lemma_sequences_distinct(start: u8, i: nat, j: nat)
    requires
        i < j < 256,
    ensures
        nth_sequence(start, i) != nth_sequence(start, j),
{
}

/// Requests waiting for their response, keyed by sequence number.
pub struct PendingTable<T> {
    entries: HashMap<u8, T>,
}

impl<T> View for PendingTable<T> {
    type V = Map<u8, T>;

    closed spec fn view(&self) -> Map<u8, T> {
        self.entries@
    }
}

impl<T> PendingTable<T> {
    /// No request waiting.
    pub fn new() -> (r: PendingTable<T>)
        ensures
            r@ == Map::<u8, T>::empty(),
    {
        PendingTable { entries: HashMap::new() }
    }

    /// Registers the waiter of the request with this sequence number. A
    /// waiter already registered under it (after a wrap) is displaced and
    /// returned.
    pub fn register(&mut self, sequence: u8, waiter: T) -> (r: Option<T>)
        ensures
            final(self)@ == old(self)@.insert(sequence, waiter),
            match r {
                Some(w) => old(self)@.contains_key(sequence) && w == old(self)@[sequence],
                None => !old(self)@.contains_key(sequence),
            },
    {
        self.entries.insert(sequence, waiter)
    }

    /// Takes the waiter registered under this sequence number, if any: on a
    /// response, or when the request times out.
    pub fn take(&mut self, sequence: u8) -> (r: Option<T>)
        ensures
            final(self)@ == old(self)@.remove(sequence),
            match r {
                Some(w) => old(self)@.contains_key(sequence) && w == old(self)@[sequence],
                None => !old(self)@.contains_key(sequence),
            },
    {
        self.entries.remove(&sequence)
    }

    /// Whether a request with this sequence number is waiting.
    pub fn is_waiting(&self, sequence: u8) -> (r: bool)
        ensures
            r == self@.contains_key(sequence),
    {
        self.entries.contains_key(&sequence)
    }

    /// Number of waiting requests.
    pub fn len(&self) -> (r: usize)
        ensures
            r == self@.len(),
    {
        proof {
            vstd::std_specs::hash::axiom_hashmap_view_finite_dom(self.entries);
        }
        self.entries.len()
    }
}

/// A response goes to the waiter registered under its sequence number and
/// no other: taking it leaves every other waiter in place, and a second
/// response with the same number finds no waiter.
pub proof fn lemma_response_routed_once<T>(table: Map<u8, T>, sequence: u8)
    ensures
        !table.remove(sequence).contains_key(sequence),
        forall|s: u8|
            s != sequence ==> (#[trigger] table.remove(sequence).contains_key(s) == table.contains_key(s)
                && (table.contains_key(s) ==> table.remove(sequence)[s] == table[s])),
        table.remove(sequence).remove(sequence) == table.remove(sequence),
{
    assert(table.remove(sequence).remove(sequence) =~= table.remove(sequence));
}

} // verus!

verus! {

/// Whether an indication payload parses.
pub open spec fn indication_parses(data: Seq<u8>) -> bool {
    forall|r: Result<ApsDataIndication, ProtocolError>| #[trigger] indication_outcome(data, r) ==> r is Ok
}

/// The events an APS indication payload gives: none when it does not parse;
/// else a device announcement when it carries one (ZDO profile, cluster
/// 0x0013, an ASDU of at least 12 bytes), then the indication itself.
pub open spec fn indication_events(payload: Seq<u8>, evs: Seq<DeconzEvent>) -> bool {
    if evs.len() == 0 {
        !indication_parses(payload)
    } else {
        evs.last() matches DeconzEvent::ApsIndication(ind) && indication_outcome(payload, Ok(ind))
            && (if ind.profile_id == 0 && ind.cluster_id == 0x0013 && ind.asdu@.len() >= 12 {
            evs.len() == 2 && (evs[0] matches DeconzEvent::DeviceAnnounced {
                ieee_addr,
                short_addr,
                capability,
            } && ieee_addr@ == ind.asdu@.subrange(3, 11) && short_addr == le16(
                ind.asdu@[1],
                ind.asdu@[2],
            ) && capability == ind.asdu@[11])
        } else {
            evs.len() == 1
        })
    }
}

/// The events an unsolicited frame gives, by command.
pub open spec fn unsolicited_events(cmd: CommandId, payload: Seq<u8>, evs: Seq<DeconzEvent>) -> bool {
    match cmd {
        CommandId::DeviceStateChanged => if payload.len() == 0 {
            evs.len() == 0
        } else {
            let st = device_state_of(payload[0]);
            if st.aps_data_indication {
                evs == seq![DeconzEvent::DeviceStateChanged(st), DeconzEvent::ApsDataAvailable]
            } else {
                evs == seq![DeconzEvent::DeviceStateChanged(st)]
            }
        },
        CommandId::ApsDataIndication => evs.len() >= 1 && (evs[0] matches DeconzEvent::ApsDataReceived {
            data,
        } && data@ == payload) && indication_events(payload, evs.drop_first()),
        CommandId::MacPoll => if payload.len() >= 3 {
            evs == seq![DeconzEvent::MacPoll { short_addr: le16(payload[1], payload[2]) }]
        } else {
            evs.len() == 0
        },
        _ => evs.len() == 0,
    }
}

/// Where a received frame goes.
pub enum Dispatch<T> {
    /// The response to a waiting request, with its waiter.
    Response { waiter: T, frame: Frame },
    /// A frame nobody waits for, and the events it gives.
    Unsolicited { frame: Frame, events: Vec<DeconzEvent> },
    /// A frame that does not deserialize; it is dropped.
    Dropped(ProtocolError),
}

/// The events of an APS indication payload.
pub fn indication_to_events(payload: &[u8]) -> (r: Vec<DeconzEvent>)
    ensures
        indication_events(payload@, r@),
{
    let mut evs: Vec<DeconzEvent> = Vec::new();
    match ApsDataIndication::parse(payload) {
        Ok(ind) => {
            if ind.profile_id == 0 && ind.cluster_id == 0x0013 {
                match DeviceAnnouncement::parse(ind.asdu.as_slice()) {
                    Ok(a) => {
                        evs.push(
                            DeconzEvent::DeviceAnnounced {
                                ieee_addr: a.ieee_addr,
                                short_addr: a.short_addr,
                                capability: a.capability,
                            },
                        );
                    },
                    Err(_) => {},
                }
            }
            evs.push(DeconzEvent::ApsIndication(ind));
        },
        Err(e) => {
            proof {
                assert forall|r: Result<ApsDataIndication, ProtocolError>|
                    #[trigger] indication_outcome(payload@, r) implies r is Err by {
                    lemma_indication_outcome_kind(payload@, Err(e), r);
                }
            }
        },
    }
    evs
}

proof fn lemma_indication_outcome_kind(
    data: Seq<u8>,
    a: Result<ApsDataIndication, ProtocolError>,
    b: Result<ApsDataIndication, ProtocolError>,
)
    requires
        indication_outcome(data, a),
        indication_outcome(data, b),
    ensures
        a is Ok <==> b is Ok,
{
}

/// Dispatches a received frame: a frame that does not deserialize is
/// dropped; a response goes to the waiter registered under its sequence
/// number, which leaves the table; any other frame gives its events.
pub fn dispatch_frame<T>(data: &[u8], pending: &mut PendingTable<T>) -> (r: Dispatch<T>)
    ensures
        match r {
            Dispatch::Dropped(e) => frame_outcome(data@, Err(e)) && final(pending)@ == old(pending)@,
            Dispatch::Response { waiter, frame } => frame_outcome(data@, Ok(frame))
                && old(pending)@.contains_key(frame.sequence)
                && waiter == old(pending)@[frame.sequence]
                && final(pending)@ == old(pending)@.remove(frame.sequence),
            Dispatch::Unsolicited { frame, events } => frame_outcome(data@, Ok(frame))
                && !old(pending)@.contains_key(frame.sequence)
                && final(pending)@ == old(pending)@
                && unsolicited_events(frame.command_id, frame.payload@, events@),
        },
{
    let frame = match Frame::deserialize(data) {
        Ok(f) => f,
        Err(e) => {
            return Dispatch::Dropped(e);
        },
    };
    match pending.take(frame.sequence) {
        Some(waiter) => {
            return Dispatch::Response { waiter, frame };
        },
        None => {},
    }
    let mut events: Vec<DeconzEvent> = Vec::new();
    match frame.command_id {
        CommandId::DeviceStateChanged => {
            if frame.payload.len() > 0 {
                let st = DeviceState::from_byte(frame.payload[0]);
                events.push(DeconzEvent::DeviceStateChanged(st));
                if st.aps_data_indication {
                    events.push(DeconzEvent::ApsDataAvailable);
                }
                assert(events@ =~= if st.aps_data_indication {
                    seq![DeconzEvent::DeviceStateChanged(st), DeconzEvent::ApsDataAvailable]
                } else {
                    seq![DeconzEvent::DeviceStateChanged(st)]
                });
            }
        },
        CommandId::ApsDataIndication => {
            let raw = copy_range(frame.payload.as_slice(), 0, frame.payload.len());
            assert(raw@ =~= frame.payload@);
            events.push(DeconzEvent::ApsDataReceived { data: raw });
            let mut more = indication_to_events(frame.payload.as_slice());
            let ghost tail = more@;
            events.append(&mut more);
            assert(events@.drop_first() =~= tail);
        },
        CommandId::MacPoll => {
            if frame.payload.len() >= 3 {
                events.push(DeconzEvent::MacPoll { short_addr: read_le16(frame.payload.as_slice(), 1) });
                assert(events@ =~= seq![DeconzEvent::MacPoll { short_addr: le16(frame.payload@[1], frame.payload@[2]) }]);
            }
        },
        _ => {},
    }
    Dispatch::Unsolicited { frame, events }
}

} // verus!

verus! {

/// The bytes written to the serial line for a request: the SLIP encoding
/// of the serialized frame.
pub fn encode_request(command_id: CommandId, sequence: u8, payload: Vec<u8>) -> (r: Vec<u8>)
    requires
        payload@.len() + 5 <= 0xFFFF,
    ensures
        r@ == slip_encoding(frame_bytes(command_byte(command_id), sequence, payload@)),
{
    let frame = Frame::new(command_id, sequence, payload);
    let bytes = frame.serialize();
    SlipEncoder::encode(bytes.as_slice())
}

/// Payload of a parameter read: length 1, then the parameter identifier.
pub fn read_parameter_payload(param: NetworkParameter) -> (r: Vec<u8>)
    ensures
        r@ == seq![1u8, 0u8, parameter_byte(param)],
{
    let mut p: Vec<u8> = Vec::new();
    push_le16(&mut p, 1);
    p.push(param.to_u8());
    assert(p@ =~= seq![1u8, 0u8, parameter_byte(param)]);
    p
}

/// Payload of a parameter write: the length of identifier and value, the
/// identifier, then the value.
pub fn write_parameter_payload(param: NetworkParameter, value: &[u8]) -> (r: Vec<u8>)
    requires
        value@.len() + 1 <= 0xFFFF,
    ensures
        r@ == le16_bytes((value@.len() + 1) as u16) + seq![parameter_byte(param)] + value@,
{
    let mut p: Vec<u8> = Vec::new();
    push_le16(&mut p, (value.len() + 1) as u16);
    p.push(param.to_u8());
    push_all(&mut p, value);
    assert(p@ =~= le16_bytes((value@.len() + 1) as u16) + seq![parameter_byte(param)] + value@);
    p
}

/// Payload of the request that fetches waiting APS data: length 1, flags 0x04.
pub fn aps_data_request_payload() -> (r: Vec<u8>)
    ensures
        r@ == seq![1u8, 0u8, 4u8],
{
    let mut p: Vec<u8> = Vec::new();
    p.push(1);
    p.push(0);
    p.push(4);
    assert(p@ =~= seq![1u8, 0u8, 4u8]);
    p
}

/// Payload of the device state query: one reserved byte.
pub fn device_state_request_payload() -> (r: Vec<u8>)
    ensures
        r@ == seq![0u8],
{
    let mut p: Vec<u8> = Vec::new();
    p.push(0);
    assert(p@ =~= seq![0u8]);
    p
}

/// The error a response status byte stands for: none for success, the
/// status otherwise, and `Error` for a byte that names no status.
pub fn check_status(status: u8) -> (r: Result<(), ProtocolError>)
    ensures
        status == 0 ==> r is Ok,
        status != 0 ==> r == Err::<(), ProtocolError>(ProtocolError::DeviceError(
            match status_of_byte(status) {
                Some(s) => s,
                None => Status::Error,
            },
        )),
{
    let s = match Status::from_u8(status) {
        Ok(s) => s,
        Err(_) => Status::Error,
    };
    match s {
        Status::Success => Ok(()),
        _ => Err(ProtocolError::DeviceError(s)),
    }
}

/// The value in a parameter read response: after the status check, the
/// payload past its length and identifier.
pub fn parameter_value(response: &Frame) -> (r: Result<Vec<u8>, ProtocolError>)
    ensures
        response.status != 0 ==> r == check_status_spec::<Vec<u8>>(response.status),
        response.status == 0 && response.payload@.len() < 3 ==> r matches Err(ProtocolError::InvalidFrame(_)),
        response.status == 0 && response.payload@.len() >= 3 ==> (r matches Ok(v) && v@ == response.payload@.subrange(3, response.payload@.len() as int)),
{
    check_status(response.status)?;
    if response.payload.len() < 3 {
        return Err(ProtocolError::InvalidFrame("parameter response too short".to_string()));
    }
    Ok(copy_range(response.payload.as_slice(), 3, response.payload.len()))
}

/// The error of a non-success status byte.
pub open spec fn check_status_spec<T>(status: u8) -> Result<T, ProtocolError> {
    Err(ProtocolError::DeviceError(
        match status_of_byte(status) {
            Some(s) => s,
            None => Status::Error,
        },
    ))
}

/// The device state in a device state response: its first payload byte.
pub fn device_state_response(response: &Frame) -> (r: Result<DeviceState, ProtocolError>)
    ensures
        response.payload@.len() == 0 ==> r matches Err(ProtocolError::InvalidFrame(_)),
        response.payload@.len() > 0 ==> r == Ok::<DeviceState, ProtocolError>(device_state_of(response.payload@[0])),
{
    if response.payload.len() == 0 {
        return Err(ProtocolError::InvalidFrame("device state response empty".to_string()));
    }
    Ok(DeviceState::from_byte(response.payload[0]))
}

/// The version reported through the protocol-version parameter: its two
/// bytes, little-endian, read as a version word.
pub fn firmware_version_from_parameter(value: &[u8]) -> (r: Result<FirmwareVersion, ProtocolError>)
    ensures
        value@.len() < 2 ==> r matches Err(ProtocolError::InvalidFrame(_)),
        value@.len() >= 2 ==> (r matches Ok(v) && v.major == 0 && v.minor == 0 && v.patch as int
            == le16(value@[0], value@[1]) as int / 256 && v.platform == platform_of(
            (le16(value@[0], value@[1]) as int % 256) as u8,
        )),
{
    if value.len() < 2 {
        return Err(ProtocolError::InvalidFrame("protocol version response too short".to_string()));
    }
    let word = read_le16(value, 0) as u32;
    Ok(FirmwareVersion::from_u32(word))
}

/// The payload of an APS data response, after the status check.
pub fn aps_data_response(response: &Frame) -> (r: Result<Vec<u8>, ProtocolError>)
    ensures
        response.status != 0 ==> r == check_status_spec::<Vec<u8>>(response.status),
        response.status == 0 ==> (r matches Ok(v) && v@ == response.payload@),
{
    check_status(response.status)?;
    let v = copy_range(response.payload.as_slice(), 0, response.payload.len());
    assert(v@ =~= response.payload@);
    Ok(v)
}

} // verus!

verus! {

/// The table after waiters `ws` were registered, in order, under the
/// numbers a counter standing at `start` hands out.
pub open spec fn issued<T>(m: Map<u8, T>, start: u8, ws: Seq<T>) -> Map<u8, T>
    decreases ws.len(),
{
    if ws.len() == 0 {
        m
    } else {
        issued(m, start, ws.drop_last()).insert(nth_sequence(start, (ws.len() - 1) as nat), ws.last())
    }
}

/// The counter after `k` allocations.
pub proof fn lemma_counter_advances(start: u8, k: nat)
    ensures
        nth_sequence(nth_sequence(start, k), 1) == nth_sequence(start, k + 1),
{
}

/// With at most 256 requests in flight, registered one after the other,
/// every request's sequence number leads to its own waiter: no waiter is
/// displaced and no two requests share a number.
pub proof fn lemma_in_flight_routed<T>(m: Map<u8, T>, start: u8, ws: Seq<T>)
    requires
        ws.len() <= 256,
    ensures
        forall|i: nat| #![trigger nth_sequence(start, i)]
            i < ws.len() ==> issued(m, start, ws).contains_key(nth_sequence(start, i))
                && issued(m, start, ws)[nth_sequence(start, i)] == ws[i as int],
        forall|i: nat, j: nat|
            i < j < ws.len() ==> #[trigger] nth_sequence(start, i) != #[trigger] nth_sequence(start, j),
    decreases ws.len(),
{
    if ws.len() > 0 {
        let n: nat = (ws.len() - 1) as nat;
        lemma_in_flight_routed(m, start, ws.drop_last());
        let prev = issued(m, start, ws.drop_last());
        assert(issued(m, start, ws) == prev.insert(nth_sequence(start, n), ws[n as int]));
        assert forall|i: nat| #![trigger nth_sequence(start, i)] i < ws.len() implies issued(m, start, ws).contains_key(nth_sequence(start, i))
            && issued(m, start, ws)[nth_sequence(start, i)] == ws[i as int] by {
            if i < n {
                lemma_sequences_distinct(start, i, n);
                assert(ws.drop_last()[i as int] == ws[i as int]);
            }
        }
        assert forall|i: nat, j: nat| i < j < ws.len() implies #[trigger] nth_sequence(start, i) != #[trigger] nth_sequence(start, j) by {
            lemma_sequences_distinct(start, i, j);
        }
    }
}

/// Registering one more request extends the issued table.
pub proof fn lemma_issue_one_more<T>(m: Map<u8, T>, start: u8, ws: Seq<T>, w: T)
    ensures
        issued(m, start, ws).insert(nth_sequence(start, ws.len()), w) == issued(m, start, ws.push(w)),
{
    assert(ws.push(w).drop_last() =~= ws);
}

/// The request side of the transport: the sequence counter and the table of
/// waiting requests, changed together.
pub struct RequestBook<T> {
    counter: SequenceCounter,
    pending: PendingTable<T>,
}

impl<T> RequestBook<T> {
    /// The number the next request gets.
    pub closed spec fn next_sequence(&self) -> u8 {
        self.counter@
    }

    /// The waiting requests.
    pub closed spec fn waiting(&self) -> Map<u8, T> {
        self.pending@
    }

    /// No request waiting; the first number is 1.
    pub fn new() -> (r: RequestBook<T>)
        ensures
            r.next_sequence() == 1,
            r.waiting() == Map::<u8, T>::empty(),
    {
        RequestBook { counter: SequenceCounter::new(), pending: PendingTable::new() }
    }

    /// Starts a request: takes the next sequence number, registers the
    /// waiter under it, and returns the number and the bytes to write.
    pub fn begin(&mut self, command_id: CommandId, payload: Vec<u8>, waiter: T) -> (r: (u8, Vec<u8>))
        requires
            payload@.len() + 5 <= 0xFFFF,
        ensures
            r.0 == old(self).next_sequence(),
            final(self).next_sequence() == nth_sequence(old(self).next_sequence(), 1),
            final(self).waiting() == old(self).waiting().insert(r.0, waiter),
            r.1@ == slip_encoding(frame_bytes(command_byte(command_id), r.0, payload@)),
    {
        let sequence = self.counter.allocate();
        let bytes = encode_request(command_id, sequence, payload);
        self.pending.register(sequence, waiter);
        (sequence, bytes)
    }

    /// Dispatches a received frame against the waiting requests.
    pub fn dispatch(&mut self, data: &[u8]) -> (r: Dispatch<T>)
        ensures
            final(self).next_sequence() == old(self).next_sequence(),
            match r {
                Dispatch::Dropped(e) => frame_outcome(data@, Err(e)) && final(self).waiting() == old(self).waiting(),
                Dispatch::Response { waiter, frame } => frame_outcome(data@, Ok(frame))
                    && old(self).waiting().contains_key(frame.sequence)
                    && waiter == old(self).waiting()[frame.sequence]
                    && final(self).waiting() == old(self).waiting().remove(frame.sequence),
                Dispatch::Unsolicited { frame, events } => frame_outcome(data@, Ok(frame))
                    && !old(self).waiting().contains_key(frame.sequence)
                    && final(self).waiting() == old(self).waiting()
                    && unsolicited_events(frame.command_id, frame.payload@, events@),
            },
    {
        dispatch_frame(data, &mut self.pending)
    }

    /// Gives up on the request with this number (on timeout).
    pub fn expire(&mut self, sequence: u8) -> (r: Option<T>)
        ensures
            final(self).next_sequence() == old(self).next_sequence(),
            final(self).waiting() == old(self).waiting().remove(sequence),
            match r {
                Some(w) => old(self).waiting().contains_key(sequence) && w == old(self).waiting()[sequence],
                None => !old(self).waiting().contains_key(sequence),
            },
    {
        self.pending.take(sequence)
    }
}

} // verus!
