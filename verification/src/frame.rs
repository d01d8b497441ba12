//! Frame geometry and the copy of completed frames into device buffers.

use crate::error::MediaError;
use vstd::prelude::*;

verus! {

/// Width of a frame, in pixels.
pub const WIDTH: u32 = 1280;

/// Height of a frame, in pixels.
pub const HEIGHT: u32 = 720;

/// Bytes that one pixel takes.
pub const BYTES_PER_PIXEL: u32 = 4;

/// Index of the output device.
pub const DEVICE_INDEX: usize = 0;

/// The geometry and pixel format of the frames a relay carries.
#[derive(Clone, Copy, Debug)]
pub struct FrameFormat {
    pub width: u32,
    pub height: u32,
    pub bytes_per_pixel: u32,
    /// The four-character code of the pixel format.
    pub fourcc: [u8; 4],
}

/// The format an output device reports after it was asked for one.
#[derive(Clone, Copy, Debug)]
pub struct DeviceFormat {
    pub width: u32,
    pub height: u32,
    pub fourcc: [u8; 4],
    /// Bytes of one frame buffer of the device.
    pub size: u32,
}

/// What came of opening an output device and asking it for a format.
#[derive(Clone, Copy, Debug)]
pub enum DeviceAnswer {
    /// The device could not be opened.
    Unavailable,
    /// The device turned the format down.
    Rejected,
    /// The device settled on this format.
    Granted(DeviceFormat),
}

impl FrameFormat {
    /// Bytes of one frame: every pixel of every row.
    pub open spec fn byte_len(&self) -> nat {
        (self.width * self.height * self.bytes_per_pixel) as nat
    }

    /// Whether `granted` is this format: same geometry, same pixel format,
    /// and device buffers of exactly one frame.
    pub open spec fn granted_by(&self, granted: &DeviceFormat) -> bool {
        &&& granted.width == self.width
        &&& granted.height == self.height
        &&& granted.fourcc@ == self.fourcc@
        &&& granted.size == self.byte_len()
    }

    /// Bytes of one frame, if that many can be addressed.
    pub fn frame_len(&self) -> (len: Option<usize>)
        ensures
            len == if self.byte_len() <= usize::MAX {
                Some(self.byte_len() as usize)
            } else {
                None
            },
    {
        assert(self.width * self.height <= u64::MAX) by (nonlinear_arith)
            requires
                self.width <= u32::MAX,
                self.height <= u32::MAX,
        ;
        let area: u64 = self.width as u64 * self.height as u64;
        match area.checked_mul(self.bytes_per_pixel as u64) {
            None => None,
            Some(total) => if total <= usize::MAX as u64 {
                Some(total as usize)
            } else {
                None
            },
        }
    }
}

/// The format of the virtual camera: `WIDTH` by `HEIGHT` pixels of
/// `BYTES_PER_PIXEL` bytes, in the packed layout named `AR24`.
pub fn output_format() -> (format: FrameFormat)
    ensures
        format.width == WIDTH,
        format.height == HEIGHT,
        format.bytes_per_pixel == BYTES_PER_PIXEL,
        format.fourcc@ == seq![0x41u8, 0x52u8, 0x32u8, 0x34u8],
        format.byte_len() == 3686400,
{
    FrameFormat {
        width: WIDTH,
        height: HEIGHT,
        bytes_per_pixel: BYTES_PER_PIXEL,
        fourcc: [0x41, 0x52, 0x32, 0x34],
    }
}

/// Whether two four-character codes are the same.
fn same_fourcc(a: &[u8; 4], b: &[u8; 4]) -> (same: bool)
    ensures
        same == (a@ == b@),
{
    let same = a[0] == b[0] && a[1] == b[1] && a[2] == b[2] && a[3] == b[3];
    assert(same ==> a@ =~= b@);
    same
}

/// Decides, before any frame is relayed, whether the device can take the
/// frames of `requested`, and if so how many bytes each relay will copy.
pub fn check_output(requested: &FrameFormat, answer: &DeviceAnswer) -> (checked: Result<
    usize,
    MediaError,
>)
    ensures
        match checked {
            Ok(len) => {
                &&& answer matches DeviceAnswer::Granted(granted)
                &&& requested.granted_by(&granted)
                &&& len == requested.byte_len()
            },
            Err(MediaError::DeviceUnavailable) => answer is Unavailable,
            Err(MediaError::FormatUnsupported) => {
                ||| answer is Rejected
                ||| answer matches DeviceAnswer::Granted(granted) && !requested.granted_by(&granted)
            },
            Err(_) => false,
        },
{
    match answer {
        DeviceAnswer::Unavailable => Err(MediaError::DeviceUnavailable),
        DeviceAnswer::Rejected => Err(MediaError::FormatUnsupported),
        DeviceAnswer::Granted(granted) => {
            if granted.width != requested.width || granted.height != requested.height
                || !same_fourcc(&granted.fourcc, &requested.fourcc) {
                return Err(MediaError::FormatUnsupported);
            }
            match requested.frame_len() {
                Some(len) => if len as u64 == granted.size as u64 {
                    Ok(len)
                } else {
                    Err(MediaError::FormatUnsupported)
                },
                None => Err(MediaError::FormatUnsupported),
            }
        },
    }
}

/// Copies `source` into `destination` when both have the same length, and
/// leaves `destination` untouched otherwise.
pub fn relay(source: &[u8], destination: &mut [u8]) -> (outcome: Result<(), MediaError>)
    ensures
        old(destination)@.len() == source@.len() ==> outcome is Ok && final(destination)@
            == source@,
        old(destination)@.len() != source@.len() ==> outcome == Err::<(), MediaError>(
            MediaError::BufferSizeMismatch,
        ) && final(destination)@ == old(destination)@,
{
    if source.len() != destination.len() {
        return Err(MediaError::BufferSizeMismatch);
    }
    let n: usize = source.len();
    let mut i: usize = 0;
    while i < n
        invariant
            n == source@.len(),
            destination@.len() == n,
            i <= n,
            forall|k: int| 0 <= k < i ==> destination@[k] == source@[k],
        decreases n - i,
    {
        destination[i] = source[i];
        i += 1;
    }
    Ok(())
}

/// What became of one completed frame.
#[derive(Clone, Copy, Debug, PartialEq, Eq, Structural)]
pub enum RelayOutcome {
    /// The frame was copied into the device buffer.
    Written,
    /// No device buffer was to be had in time; the frame was left out.
    Dropped,
}

/// Handles one completed frame: copies it into the device buffer that was
/// acquired for it, or drops it when none was.
pub fn relay_frame(source: &[u8], acquired: Option<&mut [u8]>) -> (outcome: Result<
    RelayOutcome,
    MediaError,
>)
    ensures
        match acquired {
            None => outcome == Ok::<RelayOutcome, MediaError>(RelayOutcome::Dropped),
            Some(destination) => if destination@.len() == source@.len() {
                &&& outcome == Ok::<RelayOutcome, MediaError>(RelayOutcome::Written)
                &&& final(destination)@ == source@
            } else {
                &&& outcome == Err::<RelayOutcome, MediaError>(MediaError::BufferSizeMismatch)
                &&& final(destination)@ == destination@
            },
        },
{
    match acquired {
        None => Ok(RelayOutcome::Dropped),
        Some(destination) => match relay(source, destination) {
            Ok(()) => Ok(RelayOutcome::Written),
            Err(e) => Err(e),
        },
    }
}

} // verus!
