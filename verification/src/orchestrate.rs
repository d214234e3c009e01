//! Multi-channel orchestration decisions: which channels a scan selects,
//! which channels the probe phase commits to capture on, how per-worker
//! results aggregate into one outcome, and the default single-shot check.
//!
//! Probing is sequential; the capture workers the commit phase spawns are
//! independent, and an error in one never cancels the others. All of that
//! scheduling stays with the caller: the decisions it acts on are here.

use vstd::prelude::*;
use vstd::string::StringSliceAdditionalSpecFns;

use crate::errors::CanError;
use crate::fmtbytes::dec_seq;
use crate::fmtbytes::hex_seq;
use crate::fmtbytes::push_dec_u64;
use crate::fmtbytes::push_hex_u64;
use crate::trace::push_lit;

verus! {

/// The status the driver answers with when its access control denies a
/// port on the channel.
pub const XL_STATUS_CHANNEL_DENIED: i16 = 111;

/// Whether a probe saw traffic: the channel opened and a frame arrived
/// within the probe window.
pub open spec fn probe_traffic(p: Result<bool, CanError>) -> bool {
    p == Ok::<bool, CanError>(true)
}

/// Whether a probe found the channel usable: it opened cleanly, with or
/// without traffic in the window.
pub open spec fn probe_usable(p: Result<bool, CanError>) -> bool {
    p is Ok
}

/// The 0-based indices of the probes that found a usable channel.
pub open spec fn usable_spec(probes: Seq<Result<bool, CanError>>) -> Seq<u32>
    decreases probes.len(),
{
    if probes.len() == 0 {
        Seq::empty()
    } else {
        usable_spec(probes.drop_last()) + if probe_usable(probes.last()) {
            seq![(probes.len() - 1) as u32]
        } else {
            Seq::empty()
        }
    }
}

/// Selects the channels whose probe opened cleanly, in channel order.
pub fn select_usable_channels(probes: &Vec<Result<bool, CanError>>) -> (r: Vec<u32>)
    requires
        probes@.len() <= u32::MAX,
    ensures
        r@ == usable_spec(probes@),
{
    let mut r: Vec<u32> = Vec::new();
    let mut i: usize = 0;
    proof {
        assert(probes@.take(0) =~= Seq::<Result<bool, CanError>>::empty());
        assert(r@ =~= usable_spec(probes@.take(0)));
    }
    while i < probes.len()
        invariant
            i <= probes@.len(),
            probes@.len() <= u32::MAX,
            r@ == usable_spec(probes@.take(i as int)),
        decreases probes@.len() - i,
    {
        let ghost done = probes@.take(i as int);
        proof {
            assert(probes@.take(i + 1).drop_last() =~= done);
            assert(probes@.take(i + 1).last() == probes@[i as int]);
        }
        let usable = match &probes[i] {
            Ok(_) => true,
            Err(_) => false,
        };
        if usable {
            r.push(i as u32);
            proof {
                assert(r@ =~= usable_spec(done) + seq![i as u32]);
            }
        }
        proof {
            assert(r@ =~= usable_spec(probes@.take(i + 1)));
        }
        i += 1;
    }
    proof {
        assert(probes@.take(probes@.len() as int) =~= probes@);
    }
    r
}

/// Commits the probe phase: the usable channels in order, or the
/// no-usable-channels error when the probes found none at all.
pub fn commit_channels(probes: &Vec<Result<bool, CanError>>) -> (r: Result<Vec<u32>, CanError>)
    requires
        probes@.len() <= u32::MAX,
    ensures
        usable_spec(probes@).len() == 0 ==> r matches Err(CanError::NoUsableChannels),
        usable_spec(probes@).len() > 0 ==> (r matches Ok(v) && v@ == usable_spec(probes@)),
{
    let usable = select_usable_channels(probes);
    if usable.len() == 0 {
        Err(CanError::NoUsableChannels)
    } else {
        Ok(usable)
    }
}

/// How many capture workers failed, given each worker's success flag (a
/// worker that panicked counts as failed).
pub open spec fn failure_count(results: Seq<bool>) -> nat
    decreases results.len(),
{
    if results.len() == 0 {
        0
    } else {
        failure_count(results.drop_last()) + if results.last() {
            0nat
        } else {
            1nat
        }
    }
}

/// Aggregates the capture workers' results: overall success exactly when
/// every worker succeeded, otherwise the count of failures.
pub fn aggregate_outcomes(results: &Vec<bool>) -> (r: Result<(), CanError>)
    requires
        results@.len() <= u32::MAX,
    ensures
        failure_count(results@) == 0 ==> r == Ok::<(), CanError>(()),
        failure_count(results@) > 0 ==> (r matches Err(CanError::CaptureFailures { failures })
            && failures == failure_count(results@)),
{
    let mut failures: u32 = 0;
    let mut i: usize = 0;
    proof {
        assert(results@.take(0) =~= Seq::<bool>::empty());
    }
    while i < results.len()
        invariant
            i <= results@.len(),
            results@.len() <= u32::MAX,
            failures == failure_count(results@.take(i as int)),
            failures <= i,
        decreases results@.len() - i,
    {
        proof {
            assert(results@.take(i + 1).drop_last() =~= results@.take(i as int));
            assert(results@.take(i + 1).last() == results@[i as int]);
        }
        if !results[i] {
            failures += 1;
        }
        i += 1;
    }
    proof {
        assert(results@.take(results@.len() as int) =~= results@);
    }
    if failures > 0 {
        Err(CanError::CaptureFailures { failures })
    } else {
        Ok(())
    }
}

/// The 0-based index of the first probe that saw traffic.
pub open spec fn first_traffic(probes: Seq<Result<bool, CanError>>) -> Option<int>
    decreases probes.len(),
{
    if probes.len() == 0 {
        None
    } else if probe_traffic(probes[0]) {
        Some(0)
    } else {
        match first_traffic(probes.drop_first()) {
            Some(k) => Some(k + 1),
            None => None,
        }
    }
}

/// With no traffic in a prefix and traffic at its end, the scan stops
/// exactly there.
proof fn lemma_first_traffic_at(probes: Seq<Result<bool, CanError>>, i: int)
    requires
        0 <= i < probes.len(),
        forall|k: int| 0 <= k < i ==> !probe_traffic(#[trigger] probes[k]),
        probe_traffic(probes[i]),
    ensures
        first_traffic(probes) == Some(i),
    decreases i,
{
    if i == 0 {
    } else {
        assert(!probe_traffic(probes[0]));
        assert(forall|k: int|
            0 <= k < i - 1 ==> !probe_traffic(#[trigger] probes.drop_first()[k]));
        assert(probes.drop_first()[i - 1] == probes[i]);
        lemma_first_traffic_at(probes.drop_first(), i - 1);
    }
}

/// With no traffic anywhere, the scan finds nothing.
proof fn lemma_first_traffic_none(probes: Seq<Result<bool, CanError>>)
    requires
        forall|k: int| 0 <= k < probes.len() ==> !probe_traffic(#[trigger] probes[k]),
    ensures
        first_traffic(probes) is None,
    decreases probes.len(),
{
    if probes.len() > 0 {
        assert(forall|k: int|
            0 <= k < probes.drop_first().len() ==> !probe_traffic(
                #[trigger] probes.drop_first()[k],
            ));
        lemma_first_traffic_none(probes.drop_first());
    }
}

/// Whether a probe failed because the driver denied the port.
pub open spec fn probe_denied(p: Result<bool, CanError>) -> bool {
    p matches Err(CanError::OpenPortFailed { status, .. }) && status == XL_STATUS_CHANNEL_DENIED
}

/// Whether a probe failed at the port-open step.
pub open spec fn probe_open_failed(p: Result<bool, CanError>) -> bool {
    p matches Err(CanError::OpenPortFailed { .. })
}

/// How many probes the driver denied.
pub open spec fn denied_count(probes: Seq<Result<bool, CanError>>) -> nat
    decreases probes.len(),
{
    if probes.len() == 0 {
        0
    } else {
        denied_count(probes.drop_last()) + if probe_denied(probes.last()) {
            1nat
        } else {
            0nat
        }
    }
}

/// How many probes failed at the port-open step.
pub open spec fn open_failed_count(probes: Seq<Result<bool, CanError>>) -> nat
    decreases probes.len(),
{
    if probes.len() == 0 {
        0
    } else {
        open_failed_count(probes.drop_last()) + if probe_open_failed(probes.last()) {
            1nat
        } else {
            0nat
        }
    }
}

/// Judges an any-channel scan: the first channel with traffic wins; with
/// none, the error names what the whole scan ran into — every channel
/// denied by the driver, every channel failing to open, or simply no
/// traffic anywhere.
pub fn scan_channels(probes: &Vec<Result<bool, CanError>>) -> (r: Result<u32, CanError>)
    requires
        probes@.len() <= u32::MAX,
    ensures
        first_traffic(probes@) matches Some(k) ==> r == Ok::<u32, CanError>(k as u32),
        first_traffic(probes@) is None ==> {
            let n = probes@.len();
            if n > 0 && denied_count(probes@) == n {
                r matches Err(CanError::AllChannelsDenied { channels }) && channels == n
            } else if n > 0 && open_failed_count(probes@) == n {
                r matches Err(CanError::NoChannelOpened { failures }) && failures == n
            } else {
                r matches Err(CanError::NoTrafficOnAnyChannel { channels }) && channels == n
            }
        },
{
    let mut denied: u32 = 0;
    let mut open_failed: u32 = 0;
    let mut i: usize = 0;
    proof {
        assert(probes@.take(0) =~= Seq::<Result<bool, CanError>>::empty());
    }
    while i < probes.len()
        invariant
            i <= probes@.len(),
            probes@.len() <= u32::MAX,
            forall|k: int| 0 <= k < i ==> !probe_traffic(#[trigger] probes@[k]),
            denied == denied_count(probes@.take(i as int)),
            open_failed == open_failed_count(probes@.take(i as int)),
            denied <= i,
            open_failed <= i,
        decreases probes@.len() - i,
    {
        proof {
            assert(probes@.take(i + 1).drop_last() =~= probes@.take(i as int));
            assert(probes@.take(i + 1).last() == probes@[i as int]);
        }
        match &probes[i] {
            Ok(saw_traffic) => {
                if *saw_traffic {
                    proof {
                        lemma_first_traffic_at(probes@, i as int);
                    }
                    return Ok(i as u32);
                }
            },
            Err(e) => {
                match e {
                    CanError::OpenPortFailed { status, .. } => {
                        open_failed += 1;
                        if *status == XL_STATUS_CHANNEL_DENIED {
                            denied += 1;
                        }
                    },
                    _ => {},
                }
            },
        }
        i += 1;
    }
    proof {
        assert(probes@.take(probes@.len() as int) =~= probes@);
        lemma_first_traffic_none(probes@);
    }
    let n = probes.len() as u32;
    if n > 0 && denied == n {
        return Err(CanError::AllChannelsDenied { channels: n });
    }
    if n > 0 && open_failed == n {
        return Err(CanError::NoChannelOpened { failures: n });
    }
    Err(CanError::NoTrafficOnAnyChannel { channels: n })
}

/// The fixed parameters of the engine's default single-shot check.
pub struct CaptureRequest {
    pub app_channel: u32,
    pub timeout_ms: u64,
    pub app_name: &'static str,
    pub interface_version: u32,
}

/// The default single-shot check probes logical channel 0 for one second
/// under the stock application name and interface version 4.
pub fn try_capture_can_request() -> (r: CaptureRequest)
    ensures
        r.app_channel == 0,
        r.timeout_ms == 1000,
        r.app_name@ == "RustApp"@,
        r.interface_version == 4,
{
    CaptureRequest { app_channel: 0, timeout_ms: 1000, app_name: "RustApp", interface_version: 4 }
}

/// Judges the default single-shot check: success exactly when a frame was
/// observed on channel 0 within the budget.
pub fn try_capture_can(received: bool) -> (r: Result<(), CanError>)
    ensures
        received <==> r is Ok,
        !received ==> (r matches Err(CanError::NoTrafficObserved { channel }) && channel == 0),
{
    if received {
        Ok(())
    } else {
        Err(CanError::NoTrafficObserved { channel: 0 })
    }
}

/// One row of the channel-mapping report: the 1-based display channel,
/// the 0-based application channel, the hardware triple the driver
/// returned, the derived mask in hex, and the channel's labels.
pub fn mapping_report_line(
    app_channel: u32,
    hw_type: u32,
    hw_index: u32,
    hw_channel: u32,
    mask: u64,
    vn_label: &str,
    network_name: &str,
) -> (line: Vec<u8>)
    ensures
        line@ == "ch=".spec_bytes() + dec_seq(app_channel as nat + 1) + " (appCh=".spec_bytes()
            + dec_seq(app_channel as nat) + ") -> hwType=".spec_bytes() + dec_seq(hw_type as nat)
            + " hwIndex=".spec_bytes() + dec_seq(hw_index as nat) + " hwChannel=".spec_bytes()
            + dec_seq(hw_channel as nat) + " mask=0x".spec_bytes() + hex_seq(mask as nat)
            + " -> ".spec_bytes() + vn_label.spec_bytes() + " -> ".spec_bytes()
            + network_name.spec_bytes(),
{
    let mut out: Vec<u8> = Vec::new();
    push_lit(&mut out, "ch=");
    push_dec_u64(&mut out, app_channel as u64 + 1);
    push_lit(&mut out, " (appCh=");
    push_dec_u64(&mut out, app_channel as u64);
    push_lit(&mut out, ") -> hwType=");
    push_dec_u64(&mut out, hw_type as u64);
    push_lit(&mut out, " hwIndex=");
    push_dec_u64(&mut out, hw_index as u64);
    push_lit(&mut out, " hwChannel=");
    push_dec_u64(&mut out, hw_channel as u64);
    push_lit(&mut out, " mask=0x");
    push_hex_u64(&mut out, mask);
    push_lit(&mut out, " -> ");
    push_lit(&mut out, vn_label);
    push_lit(&mut out, " -> ");
    push_lit(&mut out, network_name);
    assert(out@ =~= "ch=".spec_bytes() + dec_seq(app_channel as nat + 1) + " (appCh=".spec_bytes()
        + dec_seq(app_channel as nat) + ") -> hwType=".spec_bytes() + dec_seq(hw_type as nat)
        + " hwIndex=".spec_bytes() + dec_seq(hw_index as nat) + " hwChannel=".spec_bytes()
        + dec_seq(hw_channel as nat) + " mask=0x".spec_bytes() + hex_seq(mask as nat)
        + " -> ".spec_bytes() + vn_label.spec_bytes() + " -> ".spec_bytes()
        + network_name.spec_bytes());
    out
}

} // verus!
