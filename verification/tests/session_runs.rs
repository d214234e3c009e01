use can_capture::capture::run_capture;
use can_capture::errors::CanError;
use can_capture::events::CanLogFormat;
use can_capture::events::XLCanRxMsg;
use can_capture::events::XLcanRxEvent;
use can_capture::events::XL_CAN_EV_TAG_RX_OK;
use can_capture::events::canfd_default_conf;
use can_capture::listen::run_listen;
use can_capture::session::DriverAction;
use can_capture::session::DriverReply;
use can_capture::session::PollDecision;
use can_capture::session::PollReply;
use can_capture::session::PollSample;
use can_capture::session::SetupReplies;
use can_capture::session::capture_poll_step;
use can_capture::session::listen_poll_step;
use can_capture::session::try_open_driver;
use can_capture::trace::asc_header_lines;

fn ok_reply() -> DriverReply {
    DriverReply { status: 0, description: String::new() }
}

fn failed_reply(status: i16, text: &str) -> DriverReply {
    DriverReply { status, description: String::from(text) }
}

fn all_ok_setup() -> SetupReplies {
    SetupReplies {
        open: ok_reply(),
        output_mode: ok_reply(),
        fd_config: ok_reply(),
        activate: ok_reply(),
    }
}

fn frame_sample(elapsed_us: u64, can_id: u32, dlc: u8, data: &[u8]) -> PollSample {
    let mut payload = [0u8; 64];
    payload[..data.len()].copy_from_slice(data);
    PollSample {
        elapsed_us,
        reply: PollReply::Event(XLcanRxEvent {
            size: 0,
            tag: XL_CAN_EV_TAG_RX_OK,
            channelIndex: 0,
            userHandle: 0,
            flagsChip: 0,
            timeStampSync: 0,
            tagData: XLCanRxMsg {
                canId: can_id,
                msgFlags: 0,
                crc: 0,
                totalBitCnt: 0,
                dlc,
                data: payload,
            },
        }),
    }
}

fn count(actions: &[DriverAction], wanted: DriverAction) -> usize {
    actions.iter().filter(|a| **a == wanted).count()
}

#[test]
fn teardown_runs_once_even_when_polling_errors_immediately() {
    let setup = all_ok_setup();
    let polls = vec![PollSample {
        elapsed_us: 0,
        reply: PollReply::Failed(failed_reply(12, "XL_ERR_HW_NOT_PRESENT")),
    }];
    let run = run_capture(1000, &setup, &polls);
    assert_eq!(count(&run.actions, DriverAction::DeactivateChannel), 1);
    assert_eq!(count(&run.actions, DriverAction::ClosePort), 1);
    match run.outcome {
        Err(CanError::PollFailed { status, description }) => {
            assert_eq!(status, 12);
            assert_eq!(description, "XL_ERR_HW_NOT_PRESENT");
        }
        _ => panic!("expected the poll failure"),
    }
}

#[test]
fn teardown_runs_once_on_success_and_on_timeout() {
    let setup = all_ok_setup();
    let with_frame = vec![frame_sample(10, 0x7FF, 1, &[0x55])];
    let run = run_capture(1000, &setup, &with_frame);
    assert!(matches!(run.outcome, Ok(true)));
    assert_eq!(count(&run.actions, DriverAction::DeactivateChannel), 1);
    assert_eq!(count(&run.actions, DriverAction::ClosePort), 1);

    let quiet: Vec<PollSample> =
        (0..5).map(|i| PollSample { elapsed_us: i * 100, reply: PollReply::QueueEmpty }).collect();
    let run = run_capture(1000, &setup, &quiet);
    assert!(matches!(run.outcome, Ok(false)));
    assert_eq!(count(&run.actions, DriverAction::DeactivateChannel), 1);
    assert_eq!(count(&run.actions, DriverAction::ClosePort), 1);
}

#[test]
fn no_teardown_before_a_port_exists() {
    let setup = SetupReplies {
        open: failed_reply(111, "XL_ERR_INVALID_ACCESS"),
        output_mode: ok_reply(),
        fd_config: ok_reply(),
        activate: ok_reply(),
    };
    let run = run_capture(1000, &setup, &Vec::new());
    assert_eq!(count(&run.actions, DriverAction::DeactivateChannel), 0);
    assert_eq!(count(&run.actions, DriverAction::ClosePort), 0);
    assert!(matches!(run.outcome, Err(CanError::OpenPortFailed { status: 111, .. })));
}

#[test]
fn failed_configuration_closes_the_port_without_deactivation() {
    let setup = SetupReplies {
        open: ok_reply(),
        output_mode: failed_reply(101, "XL_ERR_WRONG_COMMAND"),
        fd_config: ok_reply(),
        activate: ok_reply(),
    };
    let run = run_capture(1000, &setup, &Vec::new());
    assert_eq!(count(&run.actions, DriverAction::DeactivateChannel), 0);
    assert_eq!(count(&run.actions, DriverAction::ClosePort), 1);
    assert!(matches!(run.outcome, Err(CanError::OutputModeFailed { status: 101, .. })));

    let setup = SetupReplies {
        open: ok_reply(),
        output_mode: ok_reply(),
        fd_config: ok_reply(),
        activate: failed_reply(110, "XL_ERR_NOT_SUPPORTED"),
    };
    let run = run_capture(1000, &setup, &Vec::new());
    assert_eq!(count(&run.actions, DriverAction::DeactivateChannel), 0);
    assert_eq!(count(&run.actions, DriverAction::ClosePort), 1);
    assert!(matches!(run.outcome, Err(CanError::ActivateFailed { status: 110, .. })));
}

#[test]
fn hundred_empty_polls_then_one_frame_emit_exactly_one_frame() {
    let setup = all_ok_setup();
    let mut polls: Vec<PollSample> =
        (0..100).map(|i| PollSample { elapsed_us: i, reply: PollReply::QueueEmpty }).collect();
    polls.push(frame_sample(100, 0x123, 2, &[0xCA, 0xFE]));
    let run = run_capture(1000, &setup, &polls);
    assert!(matches!(run.outcome, Ok(true)));
    let frame = run.frame.expect("exactly one frame");
    assert_eq!(frame.can_id, 0x123);
    assert_eq!(frame.payload, vec![0xCA, 0xFE]);
    assert_eq!(count(&run.actions, DriverAction::Receive), 101);
    assert_eq!(count(&run.actions, DriverAction::Sleep { ms: 10 }), 100);
}

#[test]
fn capture_stops_at_the_deadline() {
    let setup = all_ok_setup();
    // the budget is 1 ms; the second sample arrives too late
    let polls = vec![
        PollSample { elapsed_us: 500, reply: PollReply::QueueEmpty },
        frame_sample(1_000, 0x123, 1, &[1]),
    ];
    let run = run_capture(1, &setup, &polls);
    assert!(matches!(run.outcome, Ok(false)));
    assert!(run.frame.is_none());
    assert_eq!(count(&run.actions, DriverAction::Receive), 1);
}

#[test]
fn zero_duration_listen_writes_header_and_footer_only() {
    let setup = all_ok_setup();
    let header = asc_header_lines();
    let polls: Vec<PollSample> = (0..3).map(|_| frame_sample(0, 0x1, 1, &[9])).collect();
    let run = run_listen(Some(0), CanLogFormat::Asc, true, &setup, &header, &polls);
    assert!(matches!(run.outcome, Ok(())));
    assert_eq!(run.frame_count, 0);
    assert!(run.frames.is_empty());
    assert!(run.console_lines.is_empty());
    assert_eq!(run.file_lines.len(), 5);
    assert_eq!(run.file_lines[..4], header[..]);
    assert_eq!(run.file_lines[4], b"End Triggerblock".to_vec());
    assert_eq!(count(&run.actions, DriverAction::Receive), 0);
    assert_eq!(count(&run.actions, DriverAction::DeactivateChannel), 1);
    assert_eq!(count(&run.actions, DriverAction::ClosePort), 1);
}

#[test]
fn listen_renders_frames_in_arrival_order() {
    let setup = all_ok_setup();
    let header = asc_header_lines();
    let polls = vec![
        PollSample { elapsed_us: 5, reply: PollReply::QueueEmpty },
        frame_sample(1_000_000, 0x1A, 1, &[0xAB]),
        frame_sample(2_500_000, 0x2B, 2, &[0x01, 0x02]),
    ];
    let run = run_listen(None, CanLogFormat::Asc, true, &setup, &header, &polls);
    assert!(matches!(run.outcome, Ok(())));
    assert_eq!(run.frame_count, 2);
    assert_eq!(run.console_lines.len(), 2);
    assert_eq!(run.console_lines[0], b"frame=1 channel=0 id=0x1A dlc=1 data=[AB]".to_vec());
    assert_eq!(run.console_lines[1], b"frame=2 channel=0 id=0x2B dlc=2 data=[01, 02]".to_vec());
    assert_eq!(run.file_lines.len(), 4 + 2 + 1);
    assert_eq!(run.file_lines[4], b"1.000000 1 1A Rx d 1 AB".to_vec());
    assert_eq!(run.file_lines[5], b"2.500000 1 2B Rx d 2 01 02".to_vec());
    assert_eq!(run.file_lines[6], b"End Triggerblock".to_vec());
}

#[test]
fn listen_in_text_format_mirrors_console_lines_to_the_file() {
    let setup = all_ok_setup();
    let header = asc_header_lines();
    let polls = vec![frame_sample(10, 0x7, 1, &[0x99])];
    let run = run_listen(None, CanLogFormat::Text, true, &setup, &header, &polls);
    assert_eq!(run.file_lines, run.console_lines);
    assert_eq!(run.file_lines[0], b"frame=1 channel=0 id=0x7 dlc=1 data=[99]".to_vec());
}

#[test]
fn listen_without_file_still_captures() {
    let setup = all_ok_setup();
    let header = asc_header_lines();
    let polls = vec![frame_sample(10, 0x7, 1, &[0x99])];
    let run = run_listen(None, CanLogFormat::Asc, false, &setup, &header, &polls);
    assert!(matches!(run.outcome, Ok(())));
    assert_eq!(run.frame_count, 1);
    assert!(run.file_lines.is_empty());
    assert_eq!(run.console_lines.len(), 1);
}

#[test]
fn listen_keeps_frames_and_footer_when_polling_fails() {
    let setup = all_ok_setup();
    let header = asc_header_lines();
    let polls = vec![
        frame_sample(10, 0x7, 1, &[0x99]),
        PollSample { elapsed_us: 20, reply: PollReply::Failed(failed_reply(12, "XL_ERR_HW_NOT_PRESENT")) },
    ];
    let run = run_listen(None, CanLogFormat::Asc, true, &setup, &header, &polls);
    assert!(matches!(run.outcome, Err(CanError::PollFailed { status: 12, .. })));
    assert_eq!(run.frame_count, 1);
    assert_eq!(run.file_lines.len(), 4 + 1 + 1);
    assert_eq!(run.file_lines[5], b"End Triggerblock".to_vec());
    assert_eq!(count(&run.actions, DriverAction::DeactivateChannel), 1);
    assert_eq!(count(&run.actions, DriverAction::ClosePort), 1);
}

#[test]
fn listen_reports_setup_failures_without_output() {
    let setup = SetupReplies {
        open: ok_reply(),
        output_mode: ok_reply(),
        fd_config: failed_reply(101, "XL_ERR_WRONG_COMMAND"),
        activate: ok_reply(),
    };
    let header = asc_header_lines();
    let run = run_listen(None, CanLogFormat::Asc, true, &setup, &header, &Vec::new());
    assert!(matches!(run.outcome, Err(CanError::FdConfigurationFailed { status: 101, .. })));
    assert_eq!(run.frame_count, 0);
    assert!(run.file_lines.is_empty());
    assert_eq!(count(&run.actions, DriverAction::ClosePort), 1);
    assert_eq!(count(&run.actions, DriverAction::DeactivateChannel), 0);
}

#[test]
fn driver_open_reply_is_judged_by_status() {
    assert!(try_open_driver(&ok_reply()).is_ok());
    match try_open_driver(&failed_reply(6, "XL_ERR_QUEUE_IS_FULL")) {
        Err(CanError::DriverOpenFailed { status, description }) => {
            assert_eq!(status, 6);
            assert_eq!(description, "XL_ERR_QUEUE_IS_FULL");
        }
        _ => panic!("expected the driver-open failure"),
    }
}

#[test]
fn poll_steps_classify_replies() {
    assert!(matches!(
        capture_poll_step(&PollReply::QueueEmpty, 0),
        PollDecision::Backoff { ms: 10 }
    ));
    assert!(matches!(
        listen_poll_step(&PollReply::QueueEmpty, 0),
        PollDecision::Backoff { ms: 5 }
    ));
    let sample = frame_sample(3, 0x10, 1, &[7]);
    if let PollReply::Event(e) = &sample.reply {
        assert!(matches!(capture_poll_step(&sample.reply, 3), PollDecision::EmitFrame(_)));
        assert_eq!(e.tag, XL_CAN_EV_TAG_RX_OK);
    }
    let failed = PollReply::Failed(failed_reply(12, "XL_ERR_HW_NOT_PRESENT"));
    assert!(matches!(
        capture_poll_step(&failed, 0),
        PollDecision::Abort(CanError::PollFailed { status: 12, .. })
    ));
}

#[test]
fn default_bus_configuration_is_fixed() {
    let conf = canfd_default_conf();
    assert_eq!(conf.arbitrationBitRate, 500_000);
    assert_eq!(conf.sjwAbr, 16);
    assert_eq!(conf.tseg1Abr, 63);
    assert_eq!(conf.tseg2Abr, 16);
    assert_eq!(conf.dataBitRate, 2_000_000);
    assert_eq!(conf.sjwDbr, 10);
    assert_eq!(conf.tseg1Dbr, 29);
    assert_eq!(conf.tseg2Dbr, 10);
}
