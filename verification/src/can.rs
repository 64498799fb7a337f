//! Frames of the CAN bus as this node builds and reads them: a standard
//! 11-bit identifier and up to eight bytes of payload.

use vstd::prelude::*;
use embedded_can::StandardId;

verus! {

/// The largest standard identifier.
pub const MAX_STANDARD_ID: u16 = 0x7FF;

/// The largest payload, in bytes.
pub const MAX_PAYLOAD: usize = 8;

/// Position in the payload of the byte that carries the leak reading.
pub const STATUS_BYTE: usize = 3;

/// A data frame with a standard identifier.
#[derive(Clone, Debug, PartialEq, Eq)]
pub struct CanFrame {
    id: u16,
    data: Vec<u8>,
}

/// What a frame is.
pub struct CanFrameView {
    pub id: u16,
    pub data: Seq<u8>,
}

impl View for CanFrame {
    type V = CanFrameView;

    closed spec fn view(&self) -> CanFrameView {
        CanFrameView { id: self.id, data: self.data@ }
    }
}

/// The low byte of a word.
pub open spec fn low_byte(word: u64) -> u8 {
    (word % 256) as u8
}

/// The payload of a status frame: the bytes 1, 2, 3 and the low byte of the
/// reading.
pub open spec fn status_payload(reading: u64) -> Seq<u8> {
    seq![1u8, 2u8, 3u8, low_byte(reading)]
}

/// `StandardId::new` of `embedded-can`, followed by `StandardId::as_raw` on
/// what it accepts: the identifier comes back unchanged if it fits 11 bits,
/// and is refused if it is above `0x7FF`.
#[verifier::external_body]
fn standard_id(raw: u16) -> (id: Option<u16>)
    ensures
        raw <= MAX_STANDARD_ID ==> id == Some(raw),
        raw > MAX_STANDARD_ID ==> id is None,
{
    match StandardId::new(raw) {
        Some(id) => Some(id.as_raw()),
        None => None,
    }
}

impl CanFrame {
    /// The frame's invariant: the identifier fits 11 bits and the payload
    /// eight bytes.
    pub open spec fn wf(&self) -> bool {
        &&& self@.id <= MAX_STANDARD_ID
        &&& self@.data.len() <= MAX_PAYLOAD
    }

    /// Builds a data frame, or refuses where the identifier does not fit 11
    /// bits or the payload is longer than eight bytes.
    pub fn new(id: u16, data: Vec<u8>) -> (frame: Option<CanFrame>)
        ensures
            id <= MAX_STANDARD_ID && data@.len() <= MAX_PAYLOAD ==> frame is Some
                && frame->Some_0.wf() && frame->Some_0@ == (CanFrameView { id, data: data@ }),
            id > MAX_STANDARD_ID || data@.len() > MAX_PAYLOAD ==> frame is None,
    {
        match standard_id(id) {
            None => None,
            Some(raw) => {
                if data.len() > MAX_PAYLOAD {
                    None
                } else {
                    Some(CanFrame { id: raw, data })
                }
            },
        }
    }

    /// The frame's identifier.
    pub fn id(&self) -> (id: u16)
        ensures
            id == self@.id,
    {
        self.id
    }

    /// Number of payload bytes.
    pub fn dlc(&self) -> (n: usize)
        ensures
            n == self@.data.len(),
    {
        self.data.len()
    }

    /// The payload.
    pub fn data(&self) -> (data: &Vec<u8>)
        ensures
            data@ == self@.data,
    {
        &self.data
    }

    /// The byte that carries the sender's leak reading, if the payload is
    /// long enough to have one.
    pub fn status_byte(&self) -> (byte: Option<u8>)
        ensures
            self@.data.len() > STATUS_BYTE ==> byte == Some(self@.data[STATUS_BYTE as int]),
            self@.data.len() <= STATUS_BYTE ==> byte is None,
    {
        if self.data.len() > STATUS_BYTE {
            Some(self.data[STATUS_BYTE])
        } else {
            None
        }
    }
}

/// Builds the status frame that reports `data` under the identifier
/// `cob_id`: four bytes, of which the last is the low byte of `data`. The
/// identifier must fit 11 bits.
pub fn create_frame(cob_id: u16, data: u64) -> (frame: CanFrame)
    requires
        cob_id <= MAX_STANDARD_ID,
    ensures
        frame.wf(),
        frame@ == (CanFrameView { id: cob_id, data: status_payload(data) }),
{
    let low: u64 = data & 0xff;
    assert(low == data % 256) by (bit_vector)
        requires
            low == data & 0xff,
    ;
    let mut payload: Vec<u8> = Vec::new();
    payload.push(1);
    payload.push(2);
    payload.push(3);
    payload.push(low as u8);
    assert(payload@ =~= status_payload(data));
    match CanFrame::new(cob_id, payload) {
        Some(frame) => frame,
        None => vstd::pervasive::unreached(),
    }
}

/// Builds the status frame that reports `data` under `cob_id`, or refuses
/// where the identifier does not fit 11 bits.
pub fn try_create_frame(cob_id: u16, data: u64) -> (frame: Option<CanFrame>)
    ensures
        cob_id <= MAX_STANDARD_ID ==> frame is Some && frame->Some_0.wf() && frame->Some_0@ == (
        CanFrameView { id: cob_id, data: status_payload(data) }),
        cob_id > MAX_STANDARD_ID ==> frame is None,
{
    match standard_id(cob_id) {
        Some(id) => Some(create_frame(id, data)),
        None => None,
    }
}

/// Number of turns of the bus loop between two reports.
pub const REPORT_INTERVAL: u64 = 1_000_000;

/// The turn within each interval on which the report is made.
pub const REPORT_PHASE: u64 = 13;

/// Whether turn `count` of the bus loop is one on which the node reports
/// its leak reading and looks for a report: once in every interval.
pub fn report_due(count: u64) -> (due: bool)
    ensures
        due == (count % REPORT_INTERVAL == REPORT_PHASE),
{
    count % REPORT_INTERVAL == REPORT_PHASE
}

/// The reading that a node puts on the bus for the level of its leak
/// detector: 1 for a low input, 0 for a high one.
pub open spec fn reading_of(pin_is_low: bool) -> u64 {
    if pin_is_low {
        1
    } else {
        0
    }
}

/// The status frame that reports the level of the leak detector under
/// `cob_id`, which must fit 11 bits.
pub fn leak_report(cob_id: u16, pin_is_low: bool) -> (frame: CanFrame)
    requires
        cob_id <= MAX_STANDARD_ID,
    ensures
        frame.wf(),
        frame@ == (CanFrameView { id: cob_id, data: status_payload(reading_of(pin_is_low)) }),
        frame@.data[STATUS_BYTE as int] == reading_of(pin_is_low),
{
    let reading: u64 = if pin_is_low {
        1
    } else {
        0
    };
    create_frame(cob_id, reading)
}

/// What is put into a status frame is what is read out of it: the status
/// byte of the frame that reports `data` is the low byte of `data`.
pub proof fn lemma_status_byte_round_trip(data: u64)
    ensures
        status_payload(data).len() == 4,
        status_payload(data).len() > STATUS_BYTE,
        status_payload(data)[STATUS_BYTE as int] == low_byte(data),
        data < 256 ==> status_payload(data)[STATUS_BYTE as int] == data,
{
}

} // verus!
