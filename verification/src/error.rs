//! The kinds of failure the two pipelines know, and how severe each is.

use vstd::prelude::*;

verus! {

/// What can go wrong while a pipeline is set up or running.
#[derive(Clone, Copy, Debug, PartialEq, Eq, Structural)]
pub enum MediaError {
    /// No matching input or output device was found when opening.
    DeviceUnavailable,
    /// No device configuration matches what was asked for.
    FormatUnsupported,
    /// The hardware or driver reported an error on a running stream.
    StreamIoError,
    /// A sample was offered to a full channel and dropped.
    ChannelOverflow,
    /// No writable device buffer became available in time.
    BufferTimeout,
    /// A frame and the device buffer differ in byte length.
    BufferSizeMismatch,
}

/// How a pipeline reacts to a kind of failure.
#[derive(Clone, Copy, Debug, PartialEq, Eq, Structural)]
pub enum Severity {
    /// Setup of the owning pipeline is aborted.
    Fatal,
    /// The failure is absorbed where it happened and the stream goes on.
    Transient,
    /// Not a failure: the data is dropped silently.
    Ignored,
}

impl MediaError {
    /// The severity of each kind.
    pub open spec fn spec_severity(self) -> Severity {
        match self {
            MediaError::DeviceUnavailable => Severity::Fatal,
            MediaError::FormatUnsupported => Severity::Fatal,
            MediaError::BufferSizeMismatch => Severity::Fatal,
            MediaError::StreamIoError => Severity::Transient,
            MediaError::BufferTimeout => Severity::Transient,
            MediaError::ChannelOverflow => Severity::Ignored,
        }
    }

    /// The severity of this kind.
    #[verifier::when_used_as_spec(spec_severity)]
    pub fn severity(self) -> (severity: Severity)
        ensures
            severity == self.spec_severity(),
    {
        match self {
            MediaError::DeviceUnavailable
            | MediaError::FormatUnsupported
            | MediaError::BufferSizeMismatch => Severity::Fatal,
            MediaError::StreamIoError | MediaError::BufferTimeout => Severity::Transient,
            MediaError::ChannelOverflow => Severity::Ignored,
        }
    }

    /// Whether this kind aborts the setup of its pipeline.
    pub fn is_fatal(self) -> (fatal: bool)
        ensures
            fatal == (self.spec_severity() == Severity::Fatal),
    {
        match self.severity() {
            Severity::Fatal => true,
            _ => false,
        }
    }
}

} // verus!
