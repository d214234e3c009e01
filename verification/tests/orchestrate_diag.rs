use can_capture::alias::alias_or_unmapped;
use can_capture::alias::can_network_alias;
use can_capture::alias::can_output_file_stem;
use can_capture::alias::output_file_name;
use can_capture::diagnose::DiagCategory;
use can_capture::diagnose::DiagHint;
use can_capture::diagnose::classify_probe;
use can_capture::diagnose::diagnose_hints;
use can_capture::diagnose::diagnose_summary;
use can_capture::errors::CanError;
use can_capture::events::CanLogFormat;
use can_capture::orchestrate::aggregate_outcomes;
use can_capture::orchestrate::commit_channels;
use can_capture::orchestrate::mapping_report_line;
use can_capture::orchestrate::scan_channels;
use can_capture::orchestrate::select_usable_channels;
use can_capture::orchestrate::try_capture_can;
use can_capture::orchestrate::try_capture_can_request;

fn open_failed(status: i16) -> Result<bool, CanError> {
    Err(CanError::OpenPortFailed { status, description: String::from("refused") })
}

#[test]
fn probe_commits_exactly_the_channels_that_opened() {
    // channels 0 and 2 open, channels 1 and 3 fail to open
    let probes = vec![Ok(false), open_failed(111), Ok(true), open_failed(12)];
    let usable = select_usable_channels(&probes);
    assert_eq!(usable, vec![0, 2]);
    match commit_channels(&probes) {
        Ok(channels) => assert_eq!(channels, vec![0, 2]),
        Err(_) => panic!("two channels are usable"),
    }
}

#[test]
fn no_usable_channels_is_an_error() {
    let probes = vec![open_failed(111), open_failed(111)];
    assert!(matches!(commit_channels(&probes), Err(CanError::NoUsableChannels)));
    assert!(matches!(commit_channels(&Vec::new()), Err(CanError::NoUsableChannels)));
}

#[test]
fn scan_returns_first_channel_with_traffic() {
    let probes = vec![Ok(false), open_failed(12), Ok(true), Ok(true)];
    assert!(matches!(scan_channels(&probes), Ok(2)));
}

#[test]
fn scan_reports_uniform_denial() {
    let probes = vec![open_failed(111), open_failed(111), open_failed(111)];
    assert!(matches!(scan_channels(&probes), Err(CanError::AllChannelsDenied { channels: 3 })));
}

#[test]
fn scan_reports_uniform_open_failure() {
    let probes = vec![open_failed(12), open_failed(111)];
    assert!(matches!(scan_channels(&probes), Err(CanError::NoChannelOpened { failures: 2 })));
}

#[test]
fn scan_reports_silence_otherwise() {
    let probes = vec![Ok(false), open_failed(12)];
    assert!(matches!(scan_channels(&probes), Err(CanError::NoTrafficOnAnyChannel { channels: 2 })));
}

#[test]
fn aggregate_counts_worker_failures() {
    assert!(aggregate_outcomes(&vec![true, true, true]).is_ok());
    assert!(matches!(
        aggregate_outcomes(&vec![true, false, false, true]),
        Err(CanError::CaptureFailures { failures: 2 })
    ));
    assert!(aggregate_outcomes(&Vec::new()).is_ok());
}

#[test]
fn default_check_judges_by_received_frame() {
    assert!(try_capture_can(true).is_ok());
    assert!(matches!(
        try_capture_can(false),
        Err(CanError::NoTrafficObserved { channel: 0 })
    ));
    let request = try_capture_can_request();
    assert_eq!(request.app_channel, 0);
    assert_eq!(request.timeout_ms, 1000);
    assert_eq!(request.app_name, "RustApp");
    assert_eq!(request.interface_version, 4);
}

#[test]
fn probe_outcomes_classify_into_categories() {
    assert_eq!(classify_probe(&Ok(true)), DiagCategory::FramesObserved);
    assert_eq!(classify_probe(&Ok(false)), DiagCategory::OpenedNoTraffic);
    assert_eq!(
        classify_probe(&Err(CanError::WildcardMaskUnavailable {
            channel: 1,
            status: 20,
            description: String::new(),
        })),
        DiagCategory::MappingMissing
    );
    assert_eq!(
        classify_probe(&Err(CanError::InvalidChannelIndex { channel: 64 })),
        DiagCategory::InvalidChannel
    );
    assert_eq!(
        classify_probe(&Err(CanError::ChannelOrdinalOutOfRange { channel: 9 })),
        DiagCategory::InvalidChannel
    );
    assert_eq!(classify_probe(&open_failed(111)), DiagCategory::OpenPortFailed);
    assert_eq!(
        classify_probe(&Err(CanError::PollFailed { status: 12, description: String::new() })),
        DiagCategory::Other
    );
}

#[test]
fn summary_counts_each_category() {
    let outcomes = vec![
        Ok(true),
        Ok(false),
        Ok(false),
        Err(CanError::WildcardMaskUnavailable {
            channel: 3,
            status: 20,
            description: String::new(),
        }),
        open_failed(111),
        Err(CanError::PollFailed { status: 12, description: String::new() }),
    ];
    let summary = diagnose_summary(&outcomes);
    assert_eq!(summary.frames, 1);
    assert_eq!(summary.open_no_frames, 2);
    assert_eq!(summary.mapping_errors, 1);
    assert_eq!(summary.invalid_channel_errors, 0);
    assert_eq!(summary.open_port_errors, 1);
    assert_eq!(summary.other_errors, 1);
}

#[test]
fn sweeping_identical_outcomes_twice_gives_identical_counts() {
    let outcomes: Vec<Result<bool, CanError>> =
        (0..8).map(|i| if i % 2 == 0 { Ok(false) } else { open_failed(111) }).collect();
    let first = diagnose_summary(&outcomes);
    let second = diagnose_summary(&outcomes);
    assert_eq!(first, second);
}

#[test]
fn hints_follow_the_summary() {
    let mut summary = diagnose_summary(&vec![Ok(true), Ok(false)]);
    assert_eq!(diagnose_hints(&summary, 2), vec![DiagHint::CapturePathWorking]);
    summary.frames = 0;
    assert_eq!(diagnose_hints(&summary, 2), vec![DiagHint::ChannelsOpenNoTraffic]);

    let uniform_mapping: Vec<Result<bool, CanError>> = (0..4)
        .map(|i| {
            Err(CanError::WildcardMaskUnavailable {
                channel: i,
                status: 20,
                description: String::new(),
            })
        })
        .collect();
    let summary = diagnose_summary(&uniform_mapping);
    assert_eq!(diagnose_hints(&summary, 4), vec![DiagHint::ConfigureAppMapping]);
    assert_eq!(diagnose_hints(&summary, 5), Vec::<DiagHint>::new());

    let uniform_open: Vec<Result<bool, CanError>> = (0..3).map(|_| open_failed(111)).collect();
    let summary = diagnose_summary(&uniform_open);
    assert_eq!(diagnose_hints(&summary, 3), vec![DiagHint::VerifyPortAccess]);
}

#[test]
fn alias_table_matches_known_channels() {
    assert_eq!(can_network_alias(0), Some(("vn 1670 1", "FD_CANW")));
    assert_eq!(can_network_alias(1), Some(("vn 1670 1", "FD_CAN5")));
    assert_eq!(can_network_alias(2), Some(("vn 1670 2", "FD_CAN9")));
    assert_eq!(can_network_alias(3), Some(("vn 1670 2", "FD_CAN13")));
    assert_eq!(can_network_alias(4), Some(("vn 1670 2", "FD_CAN14")));
    assert_eq!(can_network_alias(5), Some(("vn 1670 1", "FD_CAN15")));
    assert_eq!(can_network_alias(6), Some(("vn 1670 1", "FD_CAN17")));
    assert_eq!(can_network_alias(7), Some(("vn 1670 1", "FD_CAN18")));
    assert_eq!(can_network_alias(8), Some(("vn 1670 1", "FD_CAN20")));
    assert_eq!(can_network_alias(9), Some(("vn 1670 1", "FD_CAN21")));
    assert_eq!(can_network_alias(10), Some(("vn 1670 1", "HS_CAN1")));
    assert_eq!(can_network_alias(11), None);
    assert_eq!(alias_or_unmapped(11), ("UNMAPPED", "UNMAPPED"));
}

#[test]
fn file_stems_use_alias_or_generic_channel_number() {
    assert_eq!(can_output_file_stem(1), "FD_CAN5");
    assert_eq!(can_output_file_stem(10), "HS_CAN1");
    assert_eq!(can_output_file_stem(11), "channel12");
    assert_eq!(can_output_file_stem(63), "channel64");
    assert_eq!(output_file_name(can_output_file_stem(1), CanLogFormat::Asc), "FD_CAN5.asc");
    assert_eq!(output_file_name(can_output_file_stem(11), CanLogFormat::Text), "channel12.log");
}

#[test]
fn mapping_report_line_lists_the_row() {
    let line = mapping_report_line(1, 57, 0, 2, 0x4, "vn 1670 1", "FD_CAN5");
    assert_eq!(
        line,
        b"ch=2 (appCh=1) -> hwType=57 hwIndex=0 hwChannel=2 mask=0x4 -> vn 1670 1 -> FD_CAN5"
            .to_vec()
    );
}
