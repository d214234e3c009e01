use can_capture::ascparse::parse_asc_line;
use can_capture::events::CAN_ID_29_BIT_MASK;
use can_capture::events::CapturedFrame;
use can_capture::events::XLCanRxMsg;
use can_capture::events::XLcanRxEvent;
use can_capture::events::XL_CAN_EV_TAG_RX_OK;
use can_capture::events::XL_CAN_EV_TAG_TX_OK;
use can_capture::events::decode_frame_event;
use can_capture::events::event_is_frame;
use can_capture::trace::asc_footer_line;
use can_capture::trace::asc_header_lines;
use can_capture::trace::render_asc_line;
use can_capture::trace::render_text_line;

fn sample_event(tag: u16, channel: u16, can_id: u32, dlc: u8, data: &[u8]) -> XLcanRxEvent {
    let mut payload = [0u8; 64];
    payload[..data.len()].copy_from_slice(data);
    XLcanRxEvent {
        size: 0,
        tag,
        channelIndex: channel,
        userHandle: 0,
        flagsChip: 0,
        timeStampSync: 0,
        tagData: XLCanRxMsg {
            canId: can_id,
            msgFlags: 0,
            crc: 0,
            totalBitCnt: 0,
            dlc,
            data: payload,
        },
    }
}

#[test]
fn frame_tags_are_rx_and_tx_acknowledgement() {
    assert!(event_is_frame(&sample_event(XL_CAN_EV_TAG_RX_OK, 0, 1, 0, &[])));
    assert!(event_is_frame(&sample_event(XL_CAN_EV_TAG_TX_OK, 0, 1, 0, &[])));
    assert!(!event_is_frame(&sample_event(0x0401, 0, 1, 0, &[])));
}

#[test]
fn decode_masks_identifier_and_truncates_payload() {
    let event = sample_event(XL_CAN_EV_TAG_RX_OK, 3, 0xFFFF_FFFF, 2, &[0xAA, 0xBB, 0xCC]);
    let frame = decode_frame_event(&event, 42);
    assert_eq!(frame.can_id, CAN_ID_29_BIT_MASK);
    assert_eq!(frame.channel_index, 3);
    assert_eq!(frame.dlc, 2);
    assert_eq!(frame.payload, vec![0xAA, 0xBB]);
    assert_eq!(frame.timestamp_us, 42);
}

#[test]
fn decode_expands_flexible_payload_classes() {
    let event = sample_event(XL_CAN_EV_TAG_RX_OK, 0, 0x100, 9, &[1, 2, 3]);
    let frame = decode_frame_event(&event, 0);
    assert_eq!(frame.payload.len(), 12);
    assert_eq!(&frame.payload[..3], &[1, 2, 3]);
}

#[test]
fn text_line_renders_all_fields() {
    let frame = CapturedFrame {
        channel_index: 2,
        can_id: 0x1A,
        dlc: 3,
        payload: vec![0xAA, 0x0B, 0xFF],
        timestamp_us: 0,
    };
    let line = render_text_line(7, &frame);
    assert_eq!(line, b"frame=7 channel=2 id=0x1A dlc=3 data=[AA, 0B, FF]".to_vec());
}

#[test]
fn text_line_renders_empty_payload() {
    let frame = CapturedFrame {
        channel_index: 0,
        can_id: 0,
        dlc: 0,
        payload: Vec::new(),
        timestamp_us: 0,
    };
    let line = render_text_line(1, &frame);
    assert_eq!(line, b"frame=1 channel=0 id=0x0 dlc=0 data=[]".to_vec());
}

#[test]
fn asc_line_renders_all_fields() {
    let frame = CapturedFrame {
        channel_index: 0,
        can_id: 0x1ABC,
        dlc: 2,
        payload: vec![0xDE, 0x01],
        timestamp_us: 1_234_567,
    };
    let line = render_asc_line(&frame);
    assert_eq!(line, b"1.234567 1 1ABC Rx d 2 DE 01".to_vec());
}

#[test]
fn asc_line_keeps_separator_for_empty_payload() {
    let frame = CapturedFrame {
        channel_index: 2,
        can_id: 0x1F,
        dlc: 0,
        payload: Vec::new(),
        timestamp_us: 100,
    };
    let line = render_asc_line(&frame);
    assert_eq!(line, b"0.000100 3 1F Rx d 0 ".to_vec());
}

#[test]
fn asc_round_trip_recovers_fields() {
    let frame = CapturedFrame {
        channel_index: 4,
        can_id: 0x1FFF_FFFF,
        dlc: 8,
        payload: vec![0, 1, 2, 3, 4, 5, 6, 255],
        timestamp_us: 987_654_321,
    };
    let line = render_asc_line(&frame);
    let parsed = parse_asc_line(&line).expect("a rendered line must parse");
    assert_eq!(parsed.channel, 5);
    assert_eq!(parsed.can_id, 0x1FFF_FFFF);
    assert_eq!(parsed.dlc, 8);
    assert_eq!(parsed.payload, frame.payload);
}

#[test]
fn asc_round_trip_covers_size_classes() {
    for (dlc, len) in [(0u8, 0usize), (1, 1), (8, 8), (9, 12), (12, 24), (15, 64)] {
        let payload: Vec<u8> = (0..len).map(|i| (i * 7 % 256) as u8).collect();
        let frame = CapturedFrame {
            channel_index: 1,
            can_id: 0x42,
            dlc,
            payload: payload.clone(),
            timestamp_us: 5_000_123,
        };
        let parsed = parse_asc_line(&render_asc_line(&frame)).expect("must parse");
        assert_eq!(parsed.channel, 2);
        assert_eq!(parsed.can_id, 0x42);
        assert_eq!(parsed.dlc, dlc);
        assert_eq!(parsed.payload, payload);
    }
}

#[test]
fn asc_parser_rejects_malformed_lines() {
    assert!(parse_asc_line(&b"".to_vec()).is_none());
    assert!(parse_asc_line(&b"0.000001 1 1A Tx d 0 ".to_vec()).is_none());
    assert!(parse_asc_line(&b"0.000001 1 1A Rx x 0 ".to_vec()).is_none());
    assert!(parse_asc_line(&b"0.000001 x 1A Rx d 0 ".to_vec()).is_none());
    assert!(parse_asc_line(&b"0.000001 1 ZZ Rx d 0 ".to_vec()).is_none());
    // payload count must match the data-length code
    assert!(parse_asc_line(&b"0.000001 1 1A Rx d 2 AA".to_vec()).is_none());
    // identifier must fit 29 bits
    assert!(parse_asc_line(&b"0.000001 1 FFFFFFFF Rx d 0 ".to_vec()).is_none());
}

#[test]
fn asc_header_and_footer_frame_the_file() {
    let header = asc_header_lines();
    assert_eq!(header.len(), 4);
    assert!(header[0].starts_with(b"date "));
    assert!(header[0].len() > b"date ".len());
    assert!(!header[0].contains(&b'\n'));
    assert_eq!(header[1], b"base hex  timestamps relative".to_vec());
    assert_eq!(header[2], b"internal events logged".to_vec());
    assert!(header[3].starts_with(b"Begin Triggerblock "));
    assert!(header[3].len() > b"Begin Triggerblock ".len());
    assert!(!header[3].contains(&b'\n'));
    assert_eq!(asc_footer_line(), b"End Triggerblock".to_vec());
}
