//! Classification of controller events and what discovery does with each:
//! inquiry results become reported devices, the end of an inquiry becomes a
//! completion for the coordinator, everything else is passed over.

use crate::address::{key_of, AddressKind, DeviceAddress, DeviceModel, DiscoveredDevice};
use crate::codec::{decode, spec_decode, ControllerPacket, PacketModel};
use crate::dedup::{lemma_record_wf, CacheModel, DedupCache};
use crate::eir::{extract_name, lemma_name_is_bounded, spec_extract_name};
use bt_hci::event::{ExtendedInquiryResult, InquiryComplete, InquiryResult};
use bt_hci::FromHciBytes;
use vstd::prelude::*;

verus! {

/// Event code of Inquiry Complete.
pub const EVENT_INQUIRY_COMPLETE: u8 = 0x01;

/// Event code of Inquiry Result.
pub const EVENT_INQUIRY_RESULT: u8 = 0x02;

/// Event code of Extended Inquiry Result.
pub const EVENT_EXTENDED_INQUIRY_RESULT: u8 = 0x2f;

/// Status code of success.
pub const STATUS_SUCCESS: u8 = 0x00;

/// One response of an Inquiry Result event.
struct InquiryResponse {
    addr: [u8; 6],
    class_of_device: Option<[u8; 3]>,
}

/// The response of an Extended Inquiry Result event.
struct ExtendedResponse {
    addr: [u8; 6],
    class_of_device: [u8; 3],
    rssi: i8,
    eir: Vec<u8>,
}

/// The bytes of an optional class of device.
pub open spec fn class_view(class: Option<[u8; 3]>) -> Option<Seq<u8>> {
    match class {
        Some(c) => Some(c@),
        None => None,
    }
}

/// The value of a byte read as a signed number.
pub open spec fn signed_byte(b: u8) -> int {
    if b < 0x80 {
        b as int
    } else {
        b - 0x100
    }
}

/// How many responses the parameters of an Inquiry Result event hold: as
/// many as their first byte says, but no more than there are whole addresses
/// after it.
pub open spec fn response_count(params: Seq<u8>) -> int {
    if params[0] <= (params.len() - 1) / 6 {
        params[0] as int
    } else {
        (params.len() - 1) / 6
    }
}

/// Address of response `i`: the addresses of all responses come first.
pub open spec fn response_addr(params: Seq<u8>, i: int) -> Seq<u8> {
    params.subrange(1 + 6 * i, 7 + 6 * i)
}

/// Class of device of response `i`, where the parameters reach that far: the
/// classes follow the addresses, the page scan repetition modes and two
/// reserved bytes of every announced response.
pub open spec fn response_class(params: Seq<u8>, i: int) -> Option<Seq<u8>> {
    let at = 1 + 9 * params[0] + 3 * i;
    if at + 3 <= params.len() {
        Some(params.subrange(at, at + 3))
    } else {
        None
    }
}

/// Whether the parameters are those of an Extended Inquiry Result event: the
/// fixed fields are all there and the page scan repetition mode is one of
/// the three defined.
pub open spec fn is_extended_result(params: Seq<u8>) -> bool {
    params.len() >= 15 && params[7] <= 2
}

/// `bt_hci::event::InquiryResult::from_hci_bytes_complete` and the event's
/// `iter`: the parameters are accepted where they hold the count byte, and
/// the responses come out in order, each with its address and, where the
/// parameters reach that far, its class of device.
#[verifier::external_body]
fn inquiry_responses(params: &[u8]) -> (r: Result<Vec<InquiryResponse>, bt_hci::FromHciBytesError>)
    ensures
        r is Ok <==> params@.len() >= 1,
        r matches Ok(v) ==> v@.len() == response_count(params@) && forall|i: int|
            0 <= i < v@.len() ==> (#[trigger] v@[i]).addr@ == response_addr(params@, i)
                && class_view(v@[i].class_of_device) == response_class(params@, i),
{
    let event = InquiryResult::from_hci_bytes_complete(params)?;
    Ok(
        event.iter().map(
            |item|
                InquiryResponse {
                    addr: item.bd_addr.into_inner(),
                    class_of_device: item.class_of_device,
                },
        ).collect(),
    )
}

/// `bt_hci::event::ExtendedInquiryResult::from_hci_bytes_complete`: accepts
/// the parameters where the fixed fields are there and the page scan
/// repetition mode is defined, and gives address, class of device, signal
/// strength and the bytes after the fixed fields.
#[verifier::external_body]
fn extended_response(params: &[u8]) -> (r: Result<ExtendedResponse, bt_hci::FromHciBytesError>)
    ensures
        r is Ok <==> is_extended_result(params@),
        r matches Ok(e) ==> e.addr@ == params@.subrange(1, 7) && e.class_of_device@
            == params@.subrange(9, 12) && e.rssi as int == signed_byte(params@[14]) && e.eir@
            == params@.subrange(15, params@.len() as int),
{
    let event = ExtendedInquiryResult::from_hci_bytes_complete(params)?;
    Ok(
        ExtendedResponse {
            addr: event.bd_addr.into_inner(),
            class_of_device: event.class_of_device,
            rssi: event.rssi,
            eir: event.eir_data.to_vec(),
        },
    )
}

/// `bt_hci::event::InquiryComplete::from_hci_bytes_complete`: accepts
/// parameters of exactly one byte, the status.
#[verifier::external_body]
fn inquiry_complete_status(params: &[u8]) -> (r: Result<u8, bt_hci::FromHciBytesError>)
    ensures
        r is Ok <==> params@.len() == 1,
        r matches Ok(status) ==> status == params@[0],
{
    Ok(InquiryComplete::from_hci_bytes_complete(params)?.status.into_inner())
}

/// The kinds of event that discovery tells apart.
#[derive(Clone, Copy, Debug, PartialEq, Eq, Structural)]
pub enum EventClass {
    InquiryResult,
    ExtendedInquiryResult,
    InquiryComplete,
    Other,
}

/// The kind of the event with the given code.
pub open spec fn spec_classify(code: u8) -> EventClass {
    if code == EVENT_INQUIRY_RESULT {
        EventClass::InquiryResult
    } else if code == EVENT_EXTENDED_INQUIRY_RESULT {
        EventClass::ExtendedInquiryResult
    } else if code == EVENT_INQUIRY_COMPLETE {
        EventClass::InquiryComplete
    } else {
        EventClass::Other
    }
}

/// Tells the kind of an event by its code.
pub fn classify(code: u8) -> (r: EventClass)
    ensures
        r == spec_classify(code),
{
    if code == EVENT_INQUIRY_RESULT {
        EventClass::InquiryResult
    } else if code == EVENT_EXTENDED_INQUIRY_RESULT {
        EventClass::ExtendedInquiryResult
    } else if code == EVENT_INQUIRY_COMPLETE {
        EventClass::InquiryComplete
    } else {
        EventClass::Other
    }
}

/// What handling one packet came to.
#[derive(Debug)]
pub enum Outcome {
    /// The devices that the packet reported for the first time, in the order
    /// of the packet. There may be none.
    Discovered(Vec<DiscoveredDevice>),
    /// An inquiry ended with this status: the coordinator is to be signalled
    /// once. A status other than success is a warning, nothing more.
    CycleComplete { status: u8 },
    /// The packet or the parameters of its event were malformed: it was
    /// skipped.
    Malformed,
    /// A packet that discovery has no use for.
    Ignored,
}

/// What an outcome holds, as plain values.
pub enum OutcomeModel {
    Discovered(Seq<DeviceModel>),
    CycleComplete { status: u8 },
    Malformed,
    Ignored,
}

impl View for Outcome {
    type V = OutcomeModel;

    open spec fn view(&self) -> OutcomeModel {
        match self {
            Outcome::Discovered(devices) => OutcomeModel::Discovered(
                devices@.map_values(|d: DiscoveredDevice| d@),
            ),
            Outcome::CycleComplete { status } => OutcomeModel::CycleComplete { status: *status },
            Outcome::Malformed => OutcomeModel::Malformed,
            Outcome::Ignored => OutcomeModel::Ignored,
        }
    }
}

impl Outcome {
    /// Whether the outcome is to be logged as a warning: an inquiry that
    /// ended with a status other than success.
    pub fn is_warning(&self) -> (r: bool)
        ensures
            r == (self@ matches OutcomeModel::CycleComplete { status } && status != STATUS_SUCCESS),
    {
        match self {
            Outcome::CycleComplete { status } => *status != STATUS_SUCCESS,
            _ => false,
        }
    }

    /// Whether the coordinator is to be signalled that the cycle is over.
    pub fn signals_completion(&self) -> (r: bool)
        ensures
            r == (self@ is CycleComplete),
    {
        match self {
            Outcome::CycleComplete { .. } => true,
            _ => false,
        }
    }
}

/// The device that response `i` of an Inquiry Result event reports: address
/// and, where present, class of device.
pub open spec fn standard_device(params: Seq<u8>, i: int) -> DeviceModel {
    DeviceModel {
        address: response_addr(params, i),
        kind: AddressKind::Public,
        class_of_device: response_class(params, i),
        rssi: None,
        name: None,
    }
}

/// The device that an Extended Inquiry Result event reports: address, class
/// of device, signal strength, and the name that its response data holds.
pub open spec fn extended_device(params: Seq<u8>) -> DeviceModel {
    DeviceModel {
        address: params.subrange(1, 7),
        kind: AddressKind::Public,
        class_of_device: Some(params.subrange(9, 12)),
        rssi: Some(signed_byte(params[14])),
        name: spec_extract_name(params.subrange(15, params.len() as int)),
    }
}

/// The devices reported and the cache left by the first `n` responses of an
/// Inquiry Result event: each response whose address the cache has not seen
/// is reported and recorded, the others are passed over.
pub open spec fn report_first(params: Seq<u8>, n: int, cache: CacheModel) -> (Seq<DeviceModel>, CacheModel)
    decreases n,
{
    if n <= 0 {
        (Seq::empty(), cache)
    } else {
        let (devices, seen) = report_first(params, n - 1, cache);
        let key = key_of(response_addr(params, n - 1));
        if seen.seen(key) {
            (devices, seen)
        } else {
            (devices.push(standard_device(params, n - 1)), seen.record(key))
        }
    }
}

/// Outcome and cache after an event with the given code and parameters.
pub open spec fn spec_handle_event(code: u8, params: Seq<u8>, cache: CacheModel) -> (
    OutcomeModel,
    CacheModel,
) {
    match spec_classify(code) {
        EventClass::InquiryResult => if params.len() >= 1 {
            let (devices, after) = report_first(params, response_count(params), cache);
            (OutcomeModel::Discovered(devices), after)
        } else {
            (OutcomeModel::Malformed, cache)
        },
        EventClass::ExtendedInquiryResult => if is_extended_result(params) {
            let key = key_of(params.subrange(1, 7));
            if cache.seen(key) {
                (OutcomeModel::Discovered(Seq::empty()), cache)
            } else {
                (OutcomeModel::Discovered(seq![extended_device(params)]), cache.record(key))
            }
        } else {
            (OutcomeModel::Malformed, cache)
        },
        EventClass::InquiryComplete => if params.len() == 1 {
            (OutcomeModel::CycleComplete { status: params[0] }, cache)
        } else {
            (OutcomeModel::Malformed, cache)
        },
        EventClass::Other => (OutcomeModel::Ignored, cache),
    }
}

/// Outcome and cache after a packet: events are handled, data packets are
/// passed over.
pub open spec fn spec_handle_packet(packet: PacketModel, cache: CacheModel) -> (
    OutcomeModel,
    CacheModel,
) {
    match packet {
        PacketModel::Event { code, params } => spec_handle_event(code, params, cache),
        _ => (OutcomeModel::Ignored, cache),
    }
}

/// Outcome and cache after the bytes of one read: what does not decode is
/// skipped.
pub open spec fn spec_process_frame(frame: Seq<u8>, cache: CacheModel) -> (
    OutcomeModel,
    CacheModel,
) {
    match spec_decode(frame) {
        Some(packet) => spec_handle_packet(packet, cache),
        None => (OutcomeModel::Malformed, cache),
    }
}

/// Whatever the first responses of an Inquiry Result event hold, the cache
/// stays well-formed under its policy, no more devices are reported than
/// there were responses, and each reported device is well-formed.
pub proof fn lemma_report_first_wf(params: Seq<u8>, n: int, cache: CacheModel)
    requires
        cache.wf(),
        params.len() >= 1,
        n <= response_count(params),
    ensures
        report_first(params, n, cache).1.wf(),
        report_first(params, n, cache).1.policy() == cache.policy(),
        report_first(params, n, cache).0.len() <= if n >= 0 {
            n
        } else {
            0
        },
        forall|i: int|
            0 <= i < report_first(params, n, cache).0.len() ==> (#[trigger] report_first(
                params,
                n,
                cache,
            ).0[i]).wf(),
    decreases n,
{
    if n > 0 {
        lemma_report_first_wf(params, n - 1, cache);
        let (devices, seen) = report_first(params, n - 1, cache);
        lemma_record_wf(seen, key_of(response_addr(params, n - 1)));
        assert(standard_device(params, n - 1).wf());
    }
}

/// Whatever an event holds, the cache stays well-formed under its policy
/// and every device that is reported is well-formed: six address bytes, a
/// class of three bytes, a name within the limit.
pub proof fn lemma_handle_event_wf(code: u8, params: Seq<u8>, cache: CacheModel)
    requires
        cache.wf(),
    ensures
        spec_handle_event(code, params, cache).1.wf(),
        spec_handle_event(code, params, cache).1.policy() == cache.policy(),
        spec_handle_event(code, params, cache).0 matches OutcomeModel::Discovered(devices)
            ==> forall|i: int| 0 <= i < devices.len() ==> (#[trigger] devices[i]).wf(),
{
    match spec_classify(code) {
        EventClass::InquiryResult => {
            if params.len() >= 1 {
                lemma_report_first_wf(params, response_count(params), cache);
            }
        },
        EventClass::ExtendedInquiryResult => {
            if is_extended_result(params) {
                lemma_record_wf(cache, key_of(params.subrange(1, 7)));
                lemma_name_is_bounded(params.subrange(15, params.len() as int), 0);
            }
        },
        _ => {},
    }
}

/// An address that the cache has seen is not reported again: an Extended
/// Inquiry Result event for it reports nothing and leaves the cache as it
/// is.
pub proof fn lemma_seen_device_is_dropped(params: Seq<u8>, cache: CacheModel)
    requires
        is_extended_result(params),
        cache.seen(key_of(params.subrange(1, 7))),
    ensures
        spec_handle_event(EVENT_EXTENDED_INQUIRY_RESULT, params, cache) == (
            OutcomeModel::Discovered(Seq::empty()),
            cache,
        ),
{
}

/// Only events report devices or end a cycle; data packets and malformed
/// frames change nothing.
pub proof fn lemma_only_events_count(frame: Seq<u8>, cache: CacheModel)
    requires
        !(spec_decode(frame) matches Some(PacketModel::Event { .. })),
    ensures
        spec_process_frame(frame, cache).1 == cache,
        spec_process_frame(frame, cache).0 is Malformed || spec_process_frame(frame, cache).0
            is Ignored,
{
}

/// Reports the new devices of an Inquiry Result event.
fn handle_inquiry_result(params: &[u8], cache: &mut DedupCache) -> (out: Outcome)
    requires
        old(cache).wf(),
    ensures
        final(cache).wf(),
        (out@, final(cache)@) == spec_handle_event(EVENT_INQUIRY_RESULT, params@, old(cache)@),
{
    let responses = match inquiry_responses(params) {
        Ok(responses) => responses,
        Err(_) => {
            return Outcome::Malformed;
        },
    };
    let ghost start = cache@;
    let mut devices: Vec<DiscoveredDevice> = Vec::new();
    let mut i: usize = 0;
    while i < responses.len()
        invariant
            cache.wf(),
            i <= responses.len(),
            params@.len() >= 1,
            responses@.len() == response_count(params@),
            forall|j: int|
                0 <= j < responses@.len() ==> (#[trigger] responses@[j]).addr@ == response_addr(
                    params@,
                    j,
                ) && class_view(responses@[j].class_of_device) == response_class(params@, j),
            (devices@.map_values(|d: DiscoveredDevice| d@), cache@) == report_first(
                params@,
                i as int,
                start,
            ),
        decreases responses.len() - i,
    {
        let address = DeviceAddress::public(responses[i].addr);
        let ghost before = devices@.map_values(|d: DiscoveredDevice| d@);
        if !cache.seen(&address) {
            let device = DiscoveredDevice {
                address,
                class_of_device: responses[i].class_of_device,
                rssi: None,
                name: None,
            };
            assert(device@ == standard_device(params@, i as int));
            devices.push(device);
            cache.record(&address);
            assert(devices@.map_values(|d: DiscoveredDevice| d@) =~= before.push(
                standard_device(params@, i as int),
            ));
        }
        i = i + 1;
    }
    Outcome::Discovered(devices)
}

/// Reports the device of an Extended Inquiry Result event, unless its
/// address was seen.
fn handle_extended_inquiry_result(params: &[u8], cache: &mut DedupCache) -> (out: Outcome)
    requires
        old(cache).wf(),
    ensures
        final(cache).wf(),
        (out@, final(cache)@) == spec_handle_event(
            EVENT_EXTENDED_INQUIRY_RESULT,
            params@,
            old(cache)@,
        ),
{
    let response = match extended_response(params) {
        Ok(response) => response,
        Err(_) => {
            return Outcome::Malformed;
        },
    };
    let address = DeviceAddress::public(response.addr);
    let mut devices: Vec<DiscoveredDevice> = Vec::new();
    if cache.seen(&address) {
        assert(devices@.map_values(|d: DiscoveredDevice| d@) =~= Seq::empty());
        return Outcome::Discovered(devices);
    }
    let name = extract_name(response.eir.as_slice());
    let device = DiscoveredDevice {
        address,
        class_of_device: Some(response.class_of_device),
        rssi: Some(response.rssi),
        name,
    };
    assert(device@ == extended_device(params@));
    devices.push(device);
    cache.record(&address);
    assert(devices@.map_values(|d: DiscoveredDevice| d@) =~= seq![extended_device(params@)]);
    Outcome::Discovered(devices)
}

/// Handles one event: reports what it discovers, tells when it ends an
/// inquiry, and passes over what is malformed or of another kind.
pub fn handle_event(code: u8, params: &[u8], cache: &mut DedupCache) -> (out: Outcome)
    requires
        old(cache).wf(),
    ensures
        final(cache).wf(),
        (out@, final(cache)@) == spec_handle_event(code, params@, old(cache)@),
        out@ matches OutcomeModel::Discovered(devices) ==> forall|i: int|
            0 <= i < devices.len() ==> (#[trigger] devices[i]).wf(),
{
    proof {
        lemma_handle_event_wf(code, params@, old(cache)@);
    }
    match classify(code) {
        EventClass::InquiryResult => handle_inquiry_result(params, cache),
        EventClass::ExtendedInquiryResult => handle_extended_inquiry_result(params, cache),
        EventClass::InquiryComplete => match inquiry_complete_status(params) {
            Ok(status) => Outcome::CycleComplete { status },
            Err(_) => Outcome::Malformed,
        },
        EventClass::Other => Outcome::Ignored,
    }
}

/// Handles one packet from the controller.
pub fn handle_packet(packet: &ControllerPacket, cache: &mut DedupCache) -> (out: Outcome)
    requires
        old(cache).wf(),
    ensures
        final(cache).wf(),
        (out@, final(cache)@) == spec_handle_packet(packet@, old(cache)@),
        out@ matches OutcomeModel::Discovered(devices) ==> forall|i: int|
            0 <= i < devices.len() ==> (#[trigger] devices[i]).wf(),
{
    match packet {
        ControllerPacket::Event { code, params } => handle_event(*code, params.as_slice(), cache),
        _ => Outcome::Ignored,
    }
}

/// Decodes the bytes of one read and handles the packet they hold.
pub fn process_frame(frame: &[u8], cache: &mut DedupCache) -> (out: Outcome)
    requires
        old(cache).wf(),
    ensures
        final(cache).wf(),
        (out@, final(cache)@) == spec_process_frame(frame@, old(cache)@),
        out@ matches OutcomeModel::Discovered(devices) ==> forall|i: int|
            0 <= i < devices.len() ==> (#[trigger] devices[i]).wf(),
{
    match decode(frame) {
        Ok(packet) => handle_packet(&packet, cache),
        Err(_) => Outcome::Malformed,
    }
}

} // verus!
