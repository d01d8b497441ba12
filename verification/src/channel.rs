//! The bounded channel between the capture callback and the refill.
//!
//! The producer and the consumer run on different threads, so what a call
//! on either end sees depends on what the other end did in the meantime.
//! The contracts here state what holds whatever the channel answered.

use crate::window::{latest, AudioBuffer};
use crossbeam_channel::{Receiver, Sender};
use vstd::layout::size_of;
use vstd::prelude::*;

verus! {

/// Samples the channel can hold: one second of audio.
pub const CHANNEL_CAPACITY: usize = 48000;

/// The largest sample, in bytes, that a channel is made for.
pub const MAX_SAMPLE_BYTES: usize = 1024;

/// The sending end of a `crossbeam_channel` channel, opaque to the verifier.
#[verifier::external_type_specification]
#[verifier::external_body]
#[verifier::reject_recursive_types(T)]
pub struct ExSender<T>(Sender<T>);

/// The receiving end of a `crossbeam_channel` channel, opaque to the verifier.
#[verifier::external_type_specification]
#[verifier::external_body]
#[verifier::reject_recursive_types(T)]
pub struct ExReceiver<T>(Receiver<T>);

/// Calls `crossbeam_channel::bounded`, which sets aside one slot, a sample
/// beside a stamp of one word, for each unit of capacity. It panics when the
/// capacity is too large for that: when twice the next power of two above it
/// does not fit in `usize`, or when the slots take more bytes than
/// `isize::MAX`. The two bounds rule both out. Nothing is claimed of the two
/// ends that come back.
#[verifier::external_body]
fn bounded_channel<T>(capacity: usize) -> (ends: (Sender<T>, Receiver<T>))
    requires
        capacity <= usize::MAX / 4,
        capacity * (2 * size_of::<T>() + 16) <= isize::MAX,
{
    crossbeam_channel::bounded(capacity)
}

/// Calls `Sender::try_send`, which never blocks, and reports whether the
/// channel took the sample. Whether it does depends on the consumer, so
/// nothing is claimed of the answer.
#[verifier::external_body]
fn try_send<T>(tx: &Sender<T>, sample: T) -> (accepted: bool) {
    tx.try_send(sample).is_ok()
}

/// Calls `Receiver::try_recv`, which never blocks, and hands back the oldest
/// queued sample if the channel had one. Whether it has depends on the
/// producer, so nothing is claimed of the answer.
#[verifier::external_body]
fn try_recv<T>(rx: &Receiver<T>) -> (sample: Option<T>) {
    rx.try_recv().ok()
}

/// A channel that holds up to `CHANNEL_CAPACITY` samples, or nothing when
/// a sample takes more than `MAX_SAMPLE_BYTES` bytes.
pub fn sample_channel<T>() -> (ends: Option<(Sender<T>, Receiver<T>)>)
    ensures
        ends is Some <==> size_of::<T>() <= MAX_SAMPLE_BYTES,
{
    if core::mem::size_of::<T>() <= MAX_SAMPLE_BYTES {
        Some(bounded_channel(CHANNEL_CAPACITY))
    } else {
        None
    }
}

/// Offers every sample of `data` to the channel, in order and without
/// blocking, and returns how many the channel took.
///
/// A sample that finds the channel full is dropped: what is already queued
/// stays, the newest sample goes. Which samples the channel takes depends
/// on how far the consumer has drained it, so the count is bounded by the
/// number of samples offered and by nothing else.
pub fn enqueue_samples<T: Copy>(tx: &Sender<T>, data: &[T]) -> (accepted: usize)
    ensures
        accepted <= data@.len(),
{
    let n: usize = data.len();
    let mut accepted: usize = 0;
    let mut i: usize = 0;
    while i < n
        invariant
            n == data@.len(),
            i <= n,
            accepted <= i,
        decreases n - i,
    {
        if try_send(tx, data[i]) {
            accepted += 1;
        }
        i += 1;
    }
    accepted
}

/// Whether `after` is what a window `before` becomes when `taken` samples
/// arrive and only the `capacity` most recent are kept.
pub open spec fn is_refill_of<T>(after: Seq<T>, before: Seq<T>, taken: nat, capacity: nat) -> bool {
    exists|arrived: Seq<T>| #[trigger]
        latest(before + arrived, capacity) == after && arrived.len() == taken
}

/// Moves what the channel holds into the window, without blocking, and
/// returns how many samples were taken.
///
/// At most `CHANNEL_CAPACITY` samples are taken per call, which is all that
/// can be queued at one moment. They are appended in the order the channel
/// hands them out; then the window is cut down to its most recent
/// `capacity` samples.
pub fn refill_buffer_from_stream<T: Copy>(rx: &Receiver<T>, buf: &mut AudioBuffer<T>) -> (taken:
    usize)
    ensures
        final(buf).spec_capacity() == old(buf).spec_capacity(),
        taken <= CHANNEL_CAPACITY,
        is_refill_of(final(buf)@, old(buf)@, taken as nat, old(buf).spec_capacity() as nat),
        final(buf).within_capacity(),
        taken == 0 && old(buf).within_capacity() ==> final(buf)@ == old(buf)@,
{
    let mut arrived: Vec<T> = Vec::new();
    let mut pending: bool = true;
    while pending && arrived.len() < CHANNEL_CAPACITY
        invariant
            arrived@.len() <= CHANNEL_CAPACITY,
        decreases CHANNEL_CAPACITY - arrived@.len() + if pending { 1int } else { 0int },
    {
        match try_recv(rx) {
            Some(sample) => {
                arrived.push(sample);
            },
            None => {
                pending = false;
            },
        }
    }
    buf.absorb(arrived.as_slice());
    arrived.len()
}

/// One capture pipeline: the receiving end of the channel, the window it
/// refills, and the device stream, which is held only so that recording
/// goes on for as long as the pipeline lives.
#[verifier::reject_recursive_types(T)]
pub struct AudioInput<T, S> {
    receiver: Receiver<T>,
    buffer: AudioBuffer<T>,
    #[allow(dead_code)]
    stream: S,
}

impl<T: Copy, S> AudioInput<T, S> {
    /// The window of this pipeline.
    pub closed spec fn window(&self) -> AudioBuffer<T> {
        self.buffer
    }

    /// Puts a pipeline together from its three parts.
    pub fn new(receiver: Receiver<T>, buffer: AudioBuffer<T>, stream: S) -> (input: Self)
        ensures
            input.window() == buffer,
    {
        AudioInput { receiver, buffer, stream }
    }

    /// The window of this pipeline, for reading.
    pub fn buffer(&self) -> (buffer: &AudioBuffer<T>)
        ensures
            *buffer == self.window(),
    {
        &self.buffer
    }

    /// One refill of the window from the channel; returns how many samples
    /// were taken. Meant to be called once per update of the host.
    pub fn tick(&mut self) -> (taken: usize)
        ensures
            final(self).window().spec_capacity() == old(self).window().spec_capacity(),
            taken <= CHANNEL_CAPACITY,
            is_refill_of(
                final(self).window()@,
                old(self).window()@,
                taken as nat,
                old(self).window().spec_capacity() as nat,
            ),
            final(self).window().within_capacity(),
            taken == 0 && old(self).window().within_capacity() ==> final(self).window()@ == old(
                self,
            ).window()@,
    {
        refill_buffer_from_stream(&self.receiver, &mut self.buffer)
    }
}

} // verus!
