//! Event and configuration types exchanged with the vendor CAN driver, and
//! the captured-frame record the engine builds from a receive event.
//!
//! The driver reports every call's result as a numeric status; a single
//! status means success and every other value is a failure that the driver
//! can describe as text. Receive events carry a tag that tells frames apart
//! from other bus events.

use vstd::prelude::*;

use crate::dlc::{can_dlc_to_len, dlc_len};

verus! {

/// Status the driver returns from a successful call.
pub const XL_SUCCESS: i16 = 0;

/// Status the driver returns from a receive call when no event is queued;
/// the expected idle condition, never an error.
pub const XL_ERR_QUEUE_IS_EMPTY: i16 = 10;

/// Event tag of a received frame.
pub const XL_CAN_EV_TAG_RX_OK: u16 = 0x0400;

/// Event tag of a transmit acknowledgement, also reported as a frame.
pub const XL_CAN_EV_TAG_TX_OK: u16 = 0x0404;

/// Channel output mode in which the channel takes part in bus traffic.
pub const XL_OUTPUT_MODE_NORMAL: i32 = 1;

/// Bus-type selector for CAN in driver queries and port calls.
pub const XL_BUS_TYPE_CAN: u32 = 1;

/// A CAN identifier is effectively 29 bits wide; the upper bits of the
/// driver's 32-bit field carry flags and are masked away.
pub const CAN_ID_29_BIT_MASK: u32 = 0x1FFF_FFFF;

/// Selects the trace-log format: one human-readable line per frame, or the
/// industry trace format with header and footer framing.
#[derive(Copy, Clone, Debug, PartialEq, Eq, Structural)]
pub enum CanLogFormat {
    Text,
    Asc,
}

/// Arbitration- and data-phase bit-timing parameters for a
/// flexible-data-rate bus, as handed to the driver's configuration call.
#[allow(non_snake_case)]
pub struct XLcanFdConf {
    pub arbitrationBitRate: u32,
    pub sjwAbr: u32,
    pub tseg1Abr: u32,
    pub tseg2Abr: u32,
    pub dataBitRate: u32,
    pub sjwDbr: u32,
    pub tseg1Dbr: u32,
    pub tseg2Dbr: u32,
    pub options: u8,
}

/// The fixed default bus configuration the engine applies to every opened
/// port: 500 kbit/s arbitration phase, 2 Mbit/s data phase, with fixed
/// segment and jump-width values.
pub fn canfd_default_conf() -> (conf: XLcanFdConf)
    ensures
        conf.arbitrationBitRate == 500_000,
        conf.sjwAbr == 16,
        conf.tseg1Abr == 63,
        conf.tseg2Abr == 16,
        conf.dataBitRate == 2_000_000,
        conf.sjwDbr == 10,
        conf.tseg1Dbr == 29,
        conf.tseg2Dbr == 10,
        conf.options == 0,
{
    XLcanFdConf {
        arbitrationBitRate: 500_000,
        sjwAbr: 16,
        tseg1Abr: 63,
        tseg2Abr: 16,
        dataBitRate: 2_000_000,
        sjwDbr: 10,
        tseg1Dbr: 29,
        tseg2Dbr: 10,
        options: 0,
    }
}

/// The frame body embedded in a receive or transmit-acknowledgement event.
#[allow(non_snake_case)]
pub struct XLCanRxMsg {
    pub canId: u32,
    pub msgFlags: u32,
    pub crc: u32,
    pub totalBitCnt: u16,
    pub dlc: u8,
    pub data: [u8; 64],
}

/// One event handed back by the driver's receive call: a tag telling the
/// event's kind, the physical channel that saw it, a synchronized
/// timestamp, and the frame body (meaningful for frame tags).
#[allow(non_snake_case)]
pub struct XLcanRxEvent {
    pub size: u32,
    pub tag: u16,
    pub channelIndex: u16,
    pub userHandle: u32,
    pub flagsChip: u16,
    pub timeStampSync: u64,
    pub tagData: XLCanRxMsg,
}

/// Whether an event tag announces a frame (a receive or a transmit
/// acknowledgement); every other tag is logged and not counted.
pub open spec fn is_frame_tag(tag: u16) -> bool {
    tag == XL_CAN_EV_TAG_RX_OK || tag == XL_CAN_EV_TAG_TX_OK
}

/// Tells a frame event apart from the other recognized bus events.
pub fn event_is_frame(event: &XLcanRxEvent) -> (b: bool)
    ensures
        b == is_frame_tag(event.tag),
{
    event.tag == XL_CAN_EV_TAG_RX_OK || event.tag == XL_CAN_EV_TAG_TX_OK
}

/// Mathematical image of a captured frame.
pub ghost struct FrameModel {
    pub channel_index: u16,
    pub can_id: u32,
    pub dlc: u8,
    pub payload: Seq<u8>,
    pub timestamp_us: u64,
}

impl FrameModel {
    /// A well-formed frame carries a 29-bit identifier and exactly the
    /// payload its data-length code announces, never more than 64 bytes.
    pub open spec fn wf(self) -> bool {
        &&& self.can_id <= CAN_ID_29_BIT_MASK
        &&& self.payload.len() == dlc_len(self.dlc)
    }
}

/// One frame taken off the bus: the physical channel that saw it, the
/// masked 29-bit identifier, the data-length code, the payload bytes the
/// code announces, and the relative timestamp in microseconds. Immutable
/// once decoded.
pub struct CapturedFrame {
    pub channel_index: u16,
    pub can_id: u32,
    pub dlc: u8,
    pub payload: Vec<u8>,
    pub timestamp_us: u64,
}

impl View for CapturedFrame {
    type V = FrameModel;

    open spec fn view(&self) -> FrameModel {
        FrameModel {
            channel_index: self.channel_index,
            can_id: self.can_id,
            dlc: self.dlc,
            payload: self.payload@,
            timestamp_us: self.timestamp_us,
        }
    }
}

/// The frame a well-formed receive event decodes to: identifier masked to
/// 29 bits, payload truncated to the length its data-length code selects.
pub open spec fn frame_of_event(event: XLcanRxEvent, elapsed_us: u64) -> FrameModel {
    FrameModel {
        channel_index: event.channelIndex,
        can_id: event.tagData.canId & CAN_ID_29_BIT_MASK,
        dlc: event.tagData.dlc,
        payload: event.tagData.data@.take(dlc_len(event.tagData.dlc) as int),
        timestamp_us: elapsed_us,
    }
}

/// Decodes a frame event into a captured frame: masks the identifier to 29
/// bits and truncates the payload to the data-length code's byte count.
pub fn decode_frame_event(event: &XLcanRxEvent, elapsed_us: u64) -> (frame: CapturedFrame)
    requires
        is_frame_tag(event.tag),
    ensures
        frame@ == frame_of_event(*event, elapsed_us),
        frame@.wf(),
{
    let len = can_dlc_to_len(event.tagData.dlc);
    let mut payload: Vec<u8> = Vec::new();
    let mut j: usize = 0;
    while j < len
        invariant
            j <= len,
            len == dlc_len(event.tagData.dlc),
            len <= 64,
            payload@ == event.tagData.data@.take(j as int),
        decreases len - j,
    {
        payload.push(event.tagData.data[j]);
        assert(payload@ == event.tagData.data@.take(j + 1 as int));
        j += 1;
    }
    let raw_id = event.tagData.canId;
    let masked = raw_id & CAN_ID_29_BIT_MASK;
    assert(raw_id & 0x1FFF_FFFFu32 <= 0x1FFF_FFFFu32) by (bit_vector);
    CapturedFrame {
        channel_index: event.channelIndex,
        can_id: masked,
        dlc: event.tagData.dlc,
        payload,
        timestamp_us: elapsed_us,
    }
}

} // verus!
