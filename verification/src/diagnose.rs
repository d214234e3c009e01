//! Diagnostics: a read-only sweep over channels that classifies each
//! channel's probe outcome into one category, counts the categories, and
//! derives one actionable hint per category where every channel shares
//! the same failure — rather than per-channel noise.

use vstd::prelude::*;

use crate::errors::CanError;

verus! {

/// What one channel's probe outcome means to an operator.
#[derive(Copy, Clone, Debug, PartialEq, Eq, Structural)]
pub enum DiagCategory {
    /// The channel opened and frames arrived in the probe window.
    FramesObserved,
    /// The channel opened but no traffic was seen in the probe window.
    OpenedNoTraffic,
    /// No application mapping stands behind the channel and the wildcard
    /// fallback was unavailable.
    MappingMissing,
    /// The channel index was invalid: rejected before any driver call, or
    /// the fallback ordinal exceeded the channels the system exposes.
    InvalidChannel,
    /// The driver refused to open a port on the channel.
    OpenPortFailed,
    /// Any other failure.
    Other,
}

/// The category of one probe outcome.
pub open spec fn category_spec(outcome: Result<bool, CanError>) -> DiagCategory {
    match outcome {
        Ok(saw_traffic) => if saw_traffic {
            DiagCategory::FramesObserved
        } else {
            DiagCategory::OpenedNoTraffic
        },
        Err(e) => match e {
            CanError::WildcardMaskUnavailable { .. } => DiagCategory::MappingMissing,
            CanError::InvalidChannelIndex { .. } => DiagCategory::InvalidChannel,
            CanError::ChannelOrdinalOutOfRange { .. } => DiagCategory::InvalidChannel,
            CanError::OpenPortFailed { .. } => DiagCategory::OpenPortFailed,
            _ => DiagCategory::Other,
        },
    }
}

/// Classifies one channel's probe outcome.
pub fn classify_probe(outcome: &Result<bool, CanError>) -> (c: DiagCategory)
    ensures
        c == category_spec(*outcome),
{
    match outcome {
        Ok(saw_traffic) => if *saw_traffic {
            DiagCategory::FramesObserved
        } else {
            DiagCategory::OpenedNoTraffic
        },
        Err(e) => match e {
            CanError::WildcardMaskUnavailable { .. } => DiagCategory::MappingMissing,
            CanError::InvalidChannelIndex { .. } => DiagCategory::InvalidChannel,
            CanError::ChannelOrdinalOutOfRange { .. } => DiagCategory::InvalidChannel,
            CanError::OpenPortFailed { .. } => DiagCategory::OpenPortFailed,
            _ => DiagCategory::Other,
        },
    }
}

/// How many probe outcomes fall into a category.
pub open spec fn category_count(outcomes: Seq<Result<bool, CanError>>, c: DiagCategory) -> nat
    decreases outcomes.len(),
{
    if outcomes.len() == 0 {
        0
    } else {
        category_count(outcomes.drop_last(), c) + if category_spec(outcomes.last()) == c {
            1nat
        } else {
            0nat
        }
    }
}

/// The per-category counts of one diagnostics sweep.
#[derive(Copy, Clone, Debug, PartialEq, Eq, Structural)]
pub struct DiagSummary {
    pub frames: u32,
    pub open_no_frames: u32,
    pub mapping_errors: u32,
    pub invalid_channel_errors: u32,
    pub open_port_errors: u32,
    pub other_errors: u32,
}

/// The summary of a sweep's outcomes, category by category.
pub open spec fn summary_spec(outcomes: Seq<Result<bool, CanError>>) -> DiagSummary {
    DiagSummary {
        frames: category_count(outcomes, DiagCategory::FramesObserved) as u32,
        open_no_frames: category_count(outcomes, DiagCategory::OpenedNoTraffic) as u32,
        mapping_errors: category_count(outcomes, DiagCategory::MappingMissing) as u32,
        invalid_channel_errors: category_count(outcomes, DiagCategory::InvalidChannel) as u32,
        open_port_errors: category_count(outcomes, DiagCategory::OpenPortFailed) as u32,
        other_errors: category_count(outcomes, DiagCategory::Other) as u32,
    }
}

/// Every outcome falls into exactly one category, so the counts add up
/// to the number of channels swept.
pub proof fn lemma_categories_partition(outcomes: Seq<Result<bool, CanError>>)
    ensures
        category_count(outcomes, DiagCategory::FramesObserved) + category_count(
            outcomes,
            DiagCategory::OpenedNoTraffic,
        ) + category_count(outcomes, DiagCategory::MappingMissing) + category_count(
            outcomes,
            DiagCategory::InvalidChannel,
        ) + category_count(outcomes, DiagCategory::OpenPortFailed) + category_count(
            outcomes,
            DiagCategory::Other,
        ) == outcomes.len(),
    decreases outcomes.len(),
{
    if outcomes.len() > 0 {
        lemma_categories_partition(outcomes.drop_last());
    }
}

/// The diagnostics sweep is read-only and deterministic: its summary is a
/// function of the per-channel outcomes alone, so sweeping identical
/// outcomes twice — as with no real traffic — gives identical category
/// counts.
pub proof fn lemma_diagnostics_idempotent(
    first: Seq<Result<bool, CanError>>,
    second: Seq<Result<bool, CanError>>,
)
    requires
        first == second,
    ensures
        summary_spec(first) == summary_spec(second),
{
}

/// Counts each category over a sweep's outcomes.
pub fn diagnose_summary(outcomes: &Vec<Result<bool, CanError>>) -> (s: DiagSummary)
    requires
        outcomes@.len() <= u32::MAX,
    ensures
        s == summary_spec(outcomes@),
{
    let mut frames: u32 = 0;
    let mut open_no_frames: u32 = 0;
    let mut mapping_errors: u32 = 0;
    let mut invalid_channel_errors: u32 = 0;
    let mut open_port_errors: u32 = 0;
    let mut other_errors: u32 = 0;
    let mut i: usize = 0;
    proof {
        assert(outcomes@.take(0) =~= Seq::<Result<bool, CanError>>::empty());
    }
    while i < outcomes.len()
        invariant
            i <= outcomes@.len(),
            outcomes@.len() <= u32::MAX,
            frames == category_count(outcomes@.take(i as int), DiagCategory::FramesObserved),
            open_no_frames == category_count(
                outcomes@.take(i as int),
                DiagCategory::OpenedNoTraffic,
            ),
            mapping_errors == category_count(outcomes@.take(i as int), DiagCategory::MappingMissing),
            invalid_channel_errors == category_count(
                outcomes@.take(i as int),
                DiagCategory::InvalidChannel,
            ),
            open_port_errors == category_count(
                outcomes@.take(i as int),
                DiagCategory::OpenPortFailed,
            ),
            other_errors == category_count(outcomes@.take(i as int), DiagCategory::Other),
            frames <= i && open_no_frames <= i && mapping_errors <= i && invalid_channel_errors
                <= i && open_port_errors <= i && other_errors <= i,
        decreases outcomes@.len() - i,
    {
        proof {
            assert(outcomes@.take(i + 1).drop_last() =~= outcomes@.take(i as int));
            assert(outcomes@.take(i + 1).last() == outcomes@[i as int]);
        }
        match classify_probe(&outcomes[i]) {
            DiagCategory::FramesObserved => {
                frames += 1;
            },
            DiagCategory::OpenedNoTraffic => {
                open_no_frames += 1;
            },
            DiagCategory::MappingMissing => {
                mapping_errors += 1;
            },
            DiagCategory::InvalidChannel => {
                invalid_channel_errors += 1;
            },
            DiagCategory::OpenPortFailed => {
                open_port_errors += 1;
            },
            DiagCategory::Other => {
                other_errors += 1;
            },
        }
        i += 1;
    }
    proof {
        assert(outcomes@.take(outcomes@.len() as int) =~= outcomes@);
    }
    DiagSummary {
        frames,
        open_no_frames,
        mapping_errors,
        invalid_channel_errors,
        open_port_errors,
        other_errors,
    }
}

/// One actionable conclusion of a diagnostics sweep.
#[derive(Copy, Clone, Debug, PartialEq, Eq, Structural)]
pub enum DiagHint {
    /// Frames were captured somewhere: the capture path works.
    CapturePathWorking,
    /// Channels open cleanly but saw no traffic in the test window.
    ChannelsOpenNoTraffic,
    /// Every channel misses its application mapping: configure at least
    /// one application channel in the driver's configuration tool.
    ConfigureAppMapping,
    /// Every channel's ordinal was invalid for the current setup:
    /// re-check the application-channel mapping indices.
    RecheckChannelOrdinals,
    /// Every channel failed to open: verify driver permissions, the
    /// application name, and the interface version.
    VerifyPortAccess,
}

/// Derives the sweep's hints: a working capture path or an idle bus ends
/// the report; otherwise one hint per failure category that covers every
/// channel swept.
pub fn diagnose_hints(s: &DiagSummary, max_channels: u32) -> (r: Vec<DiagHint>)
    ensures
        s.frames > 0 ==> r@ == seq![DiagHint::CapturePathWorking],
        s.frames == 0 && s.open_no_frames > 0 ==> r@ == seq![DiagHint::ChannelsOpenNoTraffic],
        s.frames == 0 && s.open_no_frames == 0 ==> r@ == (if s.mapping_errors == max_channels {
            seq![DiagHint::ConfigureAppMapping]
        } else {
            Seq::<DiagHint>::empty()
        }) + (if s.invalid_channel_errors == max_channels {
            seq![DiagHint::RecheckChannelOrdinals]
        } else {
            Seq::<DiagHint>::empty()
        }) + (if s.open_port_errors == max_channels {
            seq![DiagHint::VerifyPortAccess]
        } else {
            Seq::<DiagHint>::empty()
        }),
{
    let mut r: Vec<DiagHint> = Vec::new();
    if s.frames > 0 {
        r.push(DiagHint::CapturePathWorking);
        return r;
    }
    if s.open_no_frames > 0 {
        r.push(DiagHint::ChannelsOpenNoTraffic);
        return r;
    }
    if s.mapping_errors == max_channels {
        r.push(DiagHint::ConfigureAppMapping);
    }
    if s.invalid_channel_errors == max_channels {
        r.push(DiagHint::RecheckChannelOrdinals);
    }
    if s.open_port_errors == max_channels {
        r.push(DiagHint::VerifyPortAccess);
    }
    proof {
        assert(r@ =~= (if s.mapping_errors == max_channels {
            seq![DiagHint::ConfigureAppMapping]
        } else {
            Seq::<DiagHint>::empty()
        }) + (if s.invalid_channel_errors == max_channels {
            seq![DiagHint::RecheckChannelOrdinals]
        } else {
            Seq::<DiagHint>::empty()
        }) + (if s.open_port_errors == max_channels {
            seq![DiagHint::VerifyPortAccess]
        } else {
            Seq::<DiagHint>::empty()
        }));
    }
    r
}

} // verus!
