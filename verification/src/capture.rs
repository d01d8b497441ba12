//! Choosing the configuration of the audio input device.

use crate::error::MediaError;
use crate::window::SAMPLE_RATE;
use vstd::prelude::*;

verus! {

/// How a device encodes one sample.
#[derive(Clone, Copy, Debug, PartialEq, Eq, Structural)]
pub enum SampleFormat {
    I8,
    I16,
    I24,
    I32,
    I64,
    U8,
    U16,
    U32,
    U64,
    F32,
    F64,
}

/// The stream a capture source asks its device for.
#[derive(Clone, Copy, Debug, PartialEq, Eq, Structural)]
pub struct StreamRequest {
    pub channels: u16,
    pub sample_rate: u32,
    pub sample_format: SampleFormat,
}

/// One configuration a device offers: a channel count, a sample format and
/// the range of sample rates it supports with them, both ends included.
#[derive(Clone, Copy, Debug, PartialEq, Eq, Structural)]
pub struct ConfigRange {
    pub channels: u16,
    pub min_sample_rate: u32,
    pub max_sample_rate: u32,
    pub sample_format: SampleFormat,
}

impl ConfigRange {
    /// Whether this configuration has the channel count and the format of
    /// `request` and covers its sample rate.
    pub open spec fn satisfies(&self, request: &StreamRequest) -> bool {
        &&& self.channels == request.channels
        &&& self.sample_format == request.sample_format
        &&& self.min_sample_rate <= request.sample_rate <= self.max_sample_rate
    }

    /// Whether this configuration can serve `request`.
    pub fn supports(&self, request: &StreamRequest) -> (supported: bool)
        ensures
            supported == self.satisfies(request),
    {
        self.channels == request.channels && self.sample_format == request.sample_format
            && self.min_sample_rate <= request.sample_rate && request.sample_rate
            <= self.max_sample_rate
    }
}

/// The stream the capture source records: one channel of 32-bit float
/// samples at `SAMPLE_RATE`.
pub fn capture_request() -> (request: StreamRequest)
    ensures
        request == (StreamRequest {
            channels: 1,
            sample_rate: SAMPLE_RATE,
            sample_format: SampleFormat::F32,
        }),
{
    StreamRequest { channels: 1, sample_rate: SAMPLE_RATE, sample_format: SampleFormat::F32 }
}

/// Whether none of the first `end` configurations satisfies `request`.
pub open spec fn none_satisfies(configs: Seq<ConfigRange>, end: int, request: &StreamRequest) -> bool {
    forall|k: int| 0 <= k < end ==> !(#[trigger] configs[k]).satisfies(request)
}

/// Picks the configuration to open the input device with.
///
/// `device` holds the configurations of the input device, or nothing when
/// there is no such device. The answer is the position of the first
/// configuration that satisfies `request`.
pub fn select_input_config(device: Option<&[ConfigRange]>, request: &StreamRequest) -> (choice:
    Result<usize, MediaError>)
    ensures
        match device {
            None => choice == Err::<usize, MediaError>(MediaError::DeviceUnavailable),
            Some(configs) => match choice {
                Ok(index) => {
                    &&& index < configs@.len()
                    &&& configs@[index as int].satisfies(request)
                    &&& none_satisfies(configs@, index as int, request)
                },
                Err(kind) => {
                    &&& kind == MediaError::FormatUnsupported
                    &&& none_satisfies(configs@, configs@.len() as int, request)
                },
            },
        },
{
    match device {
        None => Err(MediaError::DeviceUnavailable),
        Some(configs) => {
            let n: usize = configs.len();
            let mut i: usize = 0;
            while i < n
                invariant
                    device == Some(configs),
                    n == configs@.len(),
                    i <= n,
                    none_satisfies(configs@, i as int, request),
                decreases n - i,
            {
                if configs[i].supports(request) {
                    return Ok(i);
                }
                i += 1;
            }
            Err(MediaError::FormatUnsupported)
        },
    }
}

} // verus!
