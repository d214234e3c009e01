//! Channel resolution: maps a logical, 0-based application channel index to
//! a physical hardware channel mask.
//!
//! The resolver first asks the driver's application-configuration table for
//! an explicit mapping. When none is configured it falls back to the
//! driver's wildcard mask and selects the N-th set bit, N being the logical
//! channel, treating channels as a dense ordinal sequence over set bits.
//! The fallback is a deliberate, documented policy and is kept exactly,
//! including its 0-based ordinal.
//!
//! The resolver itself performs no driver call: it tells the caller which
//! query to make next and turns the replies into a mask or an error.

use vstd::prelude::*;

use vstd::string::StringSliceAdditionalSpecFns;

use crate::errors::CanError;

verus! {

/// The set bit of `mask` with exactly `ordinal` set bits below it, as a
/// single-bit mask, scanning upward from bit `from`; `None` when fewer
/// than `ordinal + 1` set bits remain.
pub open spec fn nth_set_bit_from(mask: u64, ordinal: nat, from: nat) -> Option<u64>
    decreases 64 - from,
{
    if from >= 64 {
        None
    } else if mask & (1u64 << from) != 0 {
        if ordinal == 0 {
            Some(1u64 << from)
        } else {
            nth_set_bit_from(mask, (ordinal - 1) as nat, from + 1)
        }
    } else {
        nth_set_bit_from(mask, ordinal, from + 1)
    }
}

/// The `ordinal`-th set bit of `mask` (0-based), as a single-bit mask.
pub open spec fn nth_set_bit(mask: u64, ordinal: nat) -> Option<u64> {
    nth_set_bit_from(mask, ordinal, 0)
}

/// A selected bit is always a single bit of the scanned mask.
pub proof fn lemma_nth_set_bit_is_single_bit(mask: u64, ordinal: nat, from: nat, m: u64)
    requires
        nth_set_bit_from(mask, ordinal, from) == Some(m),
    ensures
        exists|b: nat| b < 64 && m == 1u64 << b && mask & (1u64 << b) != 0,
    decreases 64 - from,
{
    if from >= 64 {
    } else if mask & (1u64 << from) != 0 {
        if ordinal == 0 {
            assert(from < 64 && m == 1u64 << from && mask & (1u64 << from) != 0);
        } else {
            lemma_nth_set_bit_is_single_bit(mask, (ordinal - 1) as nat, from + 1, m);
        }
    } else {
        lemma_nth_set_bit_is_single_bit(mask, ordinal, from + 1, m);
    }
}

/// Selects the `ordinal`-th set bit of `mask` (0-based) as a single-bit
/// mask, or `None` when `mask` has no more than `ordinal` set bits.
pub fn nth_set_bit_mask(mask: u64, ordinal: usize) -> (r: Option<u64>)
    ensures
        r == nth_set_bit(mask, ordinal as nat),
{
    let mut found: usize = 0;
    let mut bit: u64 = 0;
    while bit < 64
        invariant
            bit <= 64,
            found <= ordinal,
            nth_set_bit(mask, ordinal as nat) == nth_set_bit_from(
                mask,
                (ordinal - found) as nat,
                bit as nat,
            ),
        decreases 64 - bit,
    {
        let bit_mask = 1u64 << bit;
        if mask & bit_mask != 0 {
            if found == ordinal {
                return Some(bit_mask);
            }
            found += 1;
        }
        bit += 1;
    }
    None
}

/// The next thing the caller must do while resolving a channel: make one
/// of the two driver queries, or stop with the mask or the error.
pub enum ResolveStep {
    /// Ask the application-configuration table for this application and
    /// logical channel, and on success derive the mask from the returned
    /// hardware triple.
    QueryApplConfig,
    /// Ask for the wildcard mask of all channels the local system exposes.
    QueryWildcardMask,
    /// Resolution finished with this access mask.
    Resolved(u64),
    /// Resolution failed; no further driver query is wanted.
    Failed(CanError),
}

/// The driver's answer to the application-configuration query, with the
/// channel mask already derived from the hardware triple on success.
#[derive(Copy, Clone)]
pub enum ApplConfigReply {
    Mapped { hw_type: u32, hw_index: u32, hw_channel: u32, mask: u64 },
    Unmapped { status: i16 },
}

/// Whether a name is free of embedded null bytes and can be handed to the
/// driver as a C string.
pub open spec fn nul_free(bytes: Seq<u8>) -> bool {
    forall|i: int| 0 <= i < bytes.len() ==> bytes[i] != 0
}

/// Checks an application name for embedded null bytes.
pub fn app_name_is_nul_free(app_name: &str) -> (ok: bool)
    ensures
        ok == nul_free(app_name.spec_bytes()),
{
    let bytes = app_name.as_bytes();
    let mut i: usize = 0;
    while i < bytes.len()
        invariant
            i <= bytes@.len(),
            bytes@ == app_name.spec_bytes(),
            forall|j: int| 0 <= j < i ==> bytes@[j] != 0,
        decreases bytes@.len() - i,
    {
        if bytes[i] == 0 {
            return false;
        }
        i += 1;
    }
    true
}

/// Begins resolution: rejects a logical channel outside [0, 64) and an
/// application name with an embedded null before any driver call; only a
/// valid pair reaches the first driver query.
pub fn resolve_begin(logical_channel: u32, app_name: &str) -> (step: ResolveStep)
    ensures
        logical_channel >= 64 ==> step == (ResolveStep::Failed(
            CanError::InvalidChannelIndex { channel: logical_channel },
        )),
        logical_channel < 64 && !nul_free(app_name.spec_bytes()) ==> step == (ResolveStep::Failed(
            CanError::AppNameContainsNul,
        )),
        logical_channel < 64 && nul_free(app_name.spec_bytes()) ==> step
            == ResolveStep::QueryApplConfig,
{
    if logical_channel >= 64 {
        return ResolveStep::Failed(CanError::InvalidChannelIndex { channel: logical_channel });
    }
    if !app_name_is_nul_free(app_name) {
        return ResolveStep::Failed(CanError::AppNameContainsNul);
    }
    ResolveStep::QueryApplConfig
}

/// Turns the application-configuration reply into the next step: a mapped,
/// non-zero mask resolves; a mapped zero mask is the empty-mask error; a
/// missing mapping falls back to the wildcard query.
pub fn resolve_after_appl_config(logical_channel: u32, reply: ApplConfigReply) -> (step:
    ResolveStep)
    requires
        logical_channel < 64,
    ensures
        forall|t: u32, i: u32, c: u32|
            reply == (ApplConfigReply::Mapped { hw_type: t, hw_index: i, hw_channel: c, mask: 0u64 })
                ==> step == (ResolveStep::Failed(
                CanError::MappingResolvedToEmptyMask {
                    channel: logical_channel,
                    hw_type: t,
                    hw_index: i,
                    hw_channel: c,
                },
            )),
        forall|t: u32, i: u32, c: u32, m: u64|
            m != 0 && reply == (ApplConfigReply::Mapped {
                hw_type: t,
                hw_index: i,
                hw_channel: c,
                mask: m,
            }) ==> step == ResolveStep::Resolved(m),
        (reply is Unmapped) ==> step == ResolveStep::QueryWildcardMask,
{
    match reply {
        ApplConfigReply::Mapped { hw_type, hw_index, hw_channel, mask } => {
            if mask == 0 {
                ResolveStep::Failed(
                    CanError::MappingResolvedToEmptyMask {
                        channel: logical_channel,
                        hw_type,
                        hw_index,
                        hw_channel,
                    },
                )
            } else {
                ResolveStep::Resolved(mask)
            }
        },
        ApplConfigReply::Unmapped { .. } => ResolveStep::QueryWildcardMask,
    }
}

/// Turns the wildcard-mask reply into the final step: with no channels at
/// all the wildcard is unavailable (the mapping lookup's failure status is
/// surfaced); otherwise the logical channel selects a set bit by ordinal,
/// or the ordinal is out of range.
pub fn resolve_after_wildcard(
    logical_channel: u32,
    appl_status: i16,
    appl_description: String,
    all_mask: u64,
) -> (step: ResolveStep)
    requires
        logical_channel < 64,
    ensures
        all_mask == 0 ==> step == (ResolveStep::Failed(
            CanError::WildcardMaskUnavailable {
                channel: logical_channel,
                status: appl_status,
                description: appl_description,
            },
        )),
        all_mask != 0 ==> step == match nth_set_bit(all_mask, logical_channel as nat) {
            Some(m) => ResolveStep::Resolved(m),
            None => ResolveStep::Failed(
                CanError::ChannelOrdinalOutOfRange { channel: logical_channel },
            ),
        },
{
    if all_mask == 0 {
        return ResolveStep::Failed(
            CanError::WildcardMaskUnavailable {
                channel: logical_channel,
                status: appl_status,
                description: appl_description,
            },
        );
    }
    match nth_set_bit_mask(all_mask, logical_channel as usize) {
        Some(m) => ResolveStep::Resolved(m),
        None => ResolveStep::Failed(
            CanError::ChannelOrdinalOutOfRange { channel: logical_channel },
        ),
    }
}

} // verus!
