//! Error taxonomy of the capture engine.
//!
//! Configuration errors are rejected before any driver interaction; mapping
//! errors are fatal to one channel only; driver call failures carry the
//! numeric status together with the driver's own description of it; the
//! empty-queue condition is not an error at all and never appears here.

use vstd::prelude::*;

verus! {

/// Why an operation on a channel, or a whole multi-channel run, failed.
pub enum CanError {
    /// The logical channel index is outside [0, 64); rejected before any
    /// driver call.
    InvalidChannelIndex { channel: u32 },
    /// The application name holds an embedded null byte and cannot be
    /// handed to the driver; rejected before any driver call.
    AppNameContainsNul,
    /// The application mapping lookup succeeded but the derived channel
    /// mask is zero, so no physical channel stands behind the mapping.
    MappingResolvedToEmptyMask { channel: u32, hw_type: u32, hw_index: u32, hw_channel: u32 },
    /// No application mapping exists and the wildcard query reported no
    /// channels either; carries the mapping lookup's failure status.
    WildcardMaskUnavailable { channel: u32, status: i16, description: String },
    /// No application mapping exists and the fallback ordinal exceeds the
    /// number of channels the wildcard mask exposes.
    ChannelOrdinalOutOfRange { channel: u32 },
    /// The driver refused to open the process-wide driver session.
    DriverOpenFailed { status: i16, description: String },
    /// The driver refused to open a port on the resolved channel mask.
    OpenPortFailed { status: i16, description: String },
    /// The driver refused to set the channel output mode while the default
    /// bus configuration was applied.
    OutputModeFailed { status: i16, description: String },
    /// The driver refused the flexible-data-rate bit-timing configuration.
    FdConfigurationFailed { status: i16, description: String },
    /// The driver refused to activate the channel on the opened port.
    ActivateFailed { status: i16, description: String },
    /// A receive call failed with a status other than success or
    /// empty-queue; the session is torn down.
    PollFailed { status: i16, description: String },
    /// A bounded single-shot capture saw no frame within its time budget.
    NoTrafficObserved { channel: u32 },
    /// Every scanned channel was denied by the driver's access control.
    AllChannelsDenied { channels: u32 },
    /// Every scanned channel failed at the port-open step.
    NoChannelOpened { failures: u32 },
    /// Scanning finished without observing traffic on any channel.
    NoTrafficOnAnyChannel { channels: u32 },
    /// The probe phase found no channel that opens cleanly, so there is
    /// nothing to capture on.
    NoUsableChannels,
    /// One or more per-channel capture workers failed; carries how many.
    CaptureFailures { failures: u32 },
}

} // verus!
