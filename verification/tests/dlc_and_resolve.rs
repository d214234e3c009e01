use can_capture::dlc::can_dlc_to_len;
use can_capture::errors::CanError;
use can_capture::resolve::ApplConfigReply;
use can_capture::resolve::ResolveStep;
use can_capture::resolve::nth_set_bit_mask;
use can_capture::resolve::resolve_after_appl_config;
use can_capture::resolve::resolve_after_wildcard;
use can_capture::resolve::resolve_begin;

#[test]
fn dlc_table_is_total_and_exact() {
    for dlc in 0u8..=8 {
        assert_eq!(can_dlc_to_len(dlc), dlc as usize);
    }
    assert_eq!(can_dlc_to_len(9), 12);
    assert_eq!(can_dlc_to_len(10), 16);
    assert_eq!(can_dlc_to_len(11), 20);
    assert_eq!(can_dlc_to_len(12), 24);
    assert_eq!(can_dlc_to_len(13), 32);
    assert_eq!(can_dlc_to_len(14), 48);
    for dlc in 15u8..=255 {
        assert_eq!(can_dlc_to_len(dlc), 64);
    }
}

#[test]
fn large_channel_rejected_before_any_driver_query() {
    for channel in [64u32, 65, 100, 1000, u32::MAX] {
        let step = resolve_begin(channel, "CANoe");
        assert!(
            matches!(step, ResolveStep::Failed(CanError::InvalidChannelIndex { channel: c }) if c == channel)
        );
    }
}

#[test]
fn valid_channel_reaches_mapping_query() {
    assert!(matches!(resolve_begin(0, "CANoe"), ResolveStep::QueryApplConfig));
    assert!(matches!(resolve_begin(63, "CANoe"), ResolveStep::QueryApplConfig));
}

#[test]
fn app_name_with_embedded_nul_rejected() {
    let step = resolve_begin(0, "CAN\0oe");
    assert!(matches!(step, ResolveStep::Failed(CanError::AppNameContainsNul)));
}

#[test]
fn mapped_channel_with_nonzero_mask_resolves() {
    let reply = ApplConfigReply::Mapped { hw_type: 57, hw_index: 0, hw_channel: 1, mask: 0x2 };
    assert!(matches!(resolve_after_appl_config(3, reply), ResolveStep::Resolved(0x2)));
}

#[test]
fn mapped_channel_with_zero_mask_fails() {
    let reply = ApplConfigReply::Mapped { hw_type: 57, hw_index: 2, hw_channel: 1, mask: 0 };
    let step = resolve_after_appl_config(5, reply);
    assert!(matches!(
        step,
        ResolveStep::Failed(CanError::MappingResolvedToEmptyMask {
            channel: 5,
            hw_type: 57,
            hw_index: 2,
            hw_channel: 1,
        })
    ));
}

#[test]
fn unmapped_channel_falls_back_to_wildcard_query() {
    let reply = ApplConfigReply::Unmapped { status: 20 };
    assert!(matches!(resolve_after_appl_config(0, reply), ResolveStep::QueryWildcardMask));
}

#[test]
fn missing_wildcard_mask_surfaces_mapping_status() {
    let step = resolve_after_wildcard(2, 20, String::from("XL_ERR_WRONG_PARAMETER"), 0);
    match step {
        ResolveStep::Failed(CanError::WildcardMaskUnavailable { channel, status, description }) => {
            assert_eq!(channel, 2);
            assert_eq!(status, 20);
            assert_eq!(description, "XL_ERR_WRONG_PARAMETER");
        }
        _ => panic!("expected the wildcard-unavailable error"),
    }
}

#[test]
fn nth_set_bit_selects_by_ordinal() {
    // bits 1, 3 and 5 set
    let mask: u64 = 0b101010;
    assert_eq!(nth_set_bit_mask(mask, 0), Some(0b000010));
    assert_eq!(nth_set_bit_mask(mask, 1), Some(0b001000));
    assert_eq!(nth_set_bit_mask(mask, 2), Some(0b100000));
    assert_eq!(nth_set_bit_mask(mask, 3), None);
    assert_eq!(nth_set_bit_mask(0, 0), None);
    assert_eq!(nth_set_bit_mask(u64::MAX, 63), Some(1u64 << 63));
}

#[test]
fn wildcard_ordinal_two_of_three_set_bits_resolves_to_third() {
    // three set bits; ordinal 2 (0-based) selects the third of them
    let all_mask: u64 = 0b101010;
    let step = resolve_after_wildcard(2, 20, String::new(), all_mask);
    assert!(matches!(step, ResolveStep::Resolved(0b100000)));
}

#[test]
fn wildcard_ordinal_three_of_three_set_bits_is_out_of_range() {
    let all_mask: u64 = 0b101010;
    let step = resolve_after_wildcard(3, 20, String::new(), all_mask);
    assert!(matches!(step, ResolveStep::Failed(CanError::ChannelOrdinalOutOfRange { channel: 3 })));
}
