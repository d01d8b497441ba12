use media_relay::channel::{
    enqueue_samples, refill_buffer_from_stream, sample_channel, AudioInput, CHANNEL_CAPACITY,
    MAX_SAMPLE_BYTES,
};
use media_relay::window::{AudioBuffer, BUFFER_CAPACITY, SAMPLE_RATE};

fn ramp(start: usize, count: usize) -> Vec<f32> {
    (start..start + count).map(|i| i as f32).collect()
}

fn contents(buffer: &AudioBuffer<f32>) -> Vec<f32> {
    buffer.samples().iter().copied().collect()
}

#[test]
fn capacity_constants_describe_a_tenth_and_a_whole_second() {
    assert_eq!(SAMPLE_RATE, 48000);
    assert_eq!(BUFFER_CAPACITY, 4800);
    assert_eq!(BUFFER_CAPACITY * 10, SAMPLE_RATE as usize);
    assert_eq!(CHANNEL_CAPACITY, SAMPLE_RATE as usize);
}

#[test]
fn new_window_is_empty() {
    let buffer: AudioBuffer<f32> = AudioBuffer::new(4800);
    assert_eq!(buffer.len(), 0);
    assert!(buffer.is_empty());
    assert_eq!(buffer.capacity(), 4800);
    assert_eq!(buffer.get(0), None);
}

#[test]
fn prefilled_window_holds_twice_its_capacity_of_zeros() {
    let buffer = AudioBuffer::prefilled(BUFFER_CAPACITY, 0.0f32);
    assert_eq!(buffer.capacity(), 4800);
    assert_eq!(buffer.len(), 9600);
    assert!(!buffer.is_empty());
    assert!(contents(&buffer).iter().all(|s| *s == 0.0));
    assert_eq!(buffer.get(9599), Some(0.0));
    assert_eq!(buffer.get(9600), None);
}

#[test]
fn prefilled_window_of_capacity_zero_is_empty() {
    let buffer = AudioBuffer::prefilled(0, 0.0f32);
    assert_eq!(buffer.len(), 0);
    assert_eq!(buffer.capacity(), 0);
}

#[test]
fn absorb_keeps_everything_while_within_capacity() {
    let mut buffer: AudioBuffer<f32> = AudioBuffer::new(5);
    buffer.absorb(&[1.0, 2.0]);
    buffer.absorb(&[3.0]);
    assert_eq!(contents(&buffer), vec![1.0, 2.0, 3.0]);
    assert_eq!(buffer.get(0), Some(1.0));
    assert_eq!(buffer.get(2), Some(3.0));
    assert_eq!(buffer.get(3), None);
}

#[test]
fn absorb_evicts_the_oldest_first() {
    let mut buffer: AudioBuffer<f32> = AudioBuffer::new(3);
    buffer.absorb(&[1.0, 2.0]);
    buffer.absorb(&[3.0, 4.0]);
    assert_eq!(contents(&buffer), vec![2.0, 3.0, 4.0]);
    buffer.absorb(&[5.0, 6.0, 7.0, 8.0, 9.0]);
    assert_eq!(contents(&buffer), vec![7.0, 8.0, 9.0]);
    assert_eq!(buffer.capacity(), 3);
}

#[test]
fn absorb_into_capacity_zero_keeps_nothing() {
    let mut buffer: AudioBuffer<f32> = AudioBuffer::new(0);
    buffer.absorb(&[1.0, 2.0]);
    assert!(buffer.is_empty());
}

#[test]
fn absorb_of_nothing_cuts_a_prefilled_window_down_to_capacity() {
    let mut buffer = AudioBuffer::prefilled(4, 0.5f32);
    assert_eq!(buffer.len(), 8);
    buffer.absorb(&[]);
    assert_eq!(contents(&buffer), vec![0.5; 4]);
}

#[test]
fn one_tick_moves_a_full_window_of_samples_in_order() {
    let (tx, rx) = sample_channel::<f32>().unwrap();
    let mut buffer: AudioBuffer<f32> = AudioBuffer::new(4800);
    let sent = ramp(0, 4800);
    assert_eq!(enqueue_samples(&tx, &sent), 4800);
    let taken = refill_buffer_from_stream(&rx, &mut buffer);
    assert_eq!(taken, 4800);
    assert_eq!(buffer.len(), 4800);
    assert_eq!(contents(&buffer), sent);
}

#[test]
fn a_second_tick_evicts_as_many_as_arrived() {
    let (tx, rx) = sample_channel::<f32>().unwrap();
    let mut buffer: AudioBuffer<f32> = AudioBuffer::new(4800);
    let first = ramp(0, 4800);
    enqueue_samples(&tx, &first);
    refill_buffer_from_stream(&rx, &mut buffer);

    let second = ramp(10_000, 100);
    assert_eq!(enqueue_samples(&tx, &second), 100);
    let taken = refill_buffer_from_stream(&rx, &mut buffer);
    assert_eq!(taken, 100);
    assert_eq!(buffer.len(), 4800);
    let now = contents(&buffer);
    assert_eq!(&now[..4700], &first[100..]);
    assert_eq!(&now[4700..], &second[..]);
    assert_eq!(buffer.get(0), Some(100.0));
}

#[test]
fn tick_on_an_empty_channel_changes_nothing() {
    let (tx, rx) = sample_channel::<f32>().unwrap();
    let mut buffer: AudioBuffer<f32> = AudioBuffer::new(8);
    enqueue_samples(&tx, &[0.25, -0.5, 1.0]);
    refill_buffer_from_stream(&rx, &mut buffer);
    let before = contents(&buffer);
    let bits_before: Vec<u32> = before.iter().map(|s| s.to_bits()).collect();
    for _ in 0..3 {
        assert_eq!(refill_buffer_from_stream(&rx, &mut buffer), 0);
        let bits: Vec<u32> = contents(&buffer).iter().map(|s| s.to_bits()).collect();
        assert_eq!(bits, bits_before);
    }
    assert_eq!(before, vec![0.25, -0.5, 1.0]);
}

#[test]
fn first_tick_on_an_empty_channel_settles_a_prefilled_window() {
    let (_tx, rx) = sample_channel::<f32>().unwrap();
    let mut buffer = AudioBuffer::prefilled(BUFFER_CAPACITY, 0.0f32);
    assert_eq!(refill_buffer_from_stream(&rx, &mut buffer), 0);
    assert_eq!(buffer.len(), BUFFER_CAPACITY);
    assert_eq!(refill_buffer_from_stream(&rx, &mut buffer), 0);
    assert_eq!(buffer.len(), BUFFER_CAPACITY);
}

#[test]
fn window_never_exceeds_capacity_over_many_ticks() {
    let (tx, rx) = sample_channel::<f32>().unwrap();
    let mut buffer = AudioBuffer::prefilled(50, 0.0f32);
    let sizes = [0usize, 1, 49, 50, 51, 200, 0, 7, 1000];
    let mut next = 0usize;
    for size in sizes {
        enqueue_samples(&tx, &ramp(next, size));
        next += size;
        let taken = refill_buffer_from_stream(&rx, &mut buffer);
        assert_eq!(taken, size);
        assert!(buffer.len() <= 50);
        assert_eq!(buffer.capacity(), 50);
    }
}

#[test]
fn window_is_the_tail_of_everything_that_arrived() {
    let (tx, rx) = sample_channel::<f32>().unwrap();
    let mut buffer = AudioBuffer::prefilled(10, 0.0f32);
    let mut arrived: Vec<f32> = vec![0.0; 20];
    let sizes = [3usize, 0, 12, 1, 9, 25];
    let mut next = 1usize;
    for size in sizes {
        let batch = ramp(next, size);
        next += size;
        enqueue_samples(&tx, &batch);
        arrived.extend_from_slice(&batch);
        refill_buffer_from_stream(&rx, &mut buffer);
        let expected = &arrived[arrived.len() - 10..];
        assert_eq!(&contents(&buffer)[..], expected);
    }
}

#[test]
fn overfull_channel_keeps_the_first_capacity_samples() {
    let (tx, rx) = sample_channel::<f32>().unwrap();
    let offered = ramp(0, CHANNEL_CAPACITY + 500);
    let accepted = enqueue_samples(&tx, &offered);
    assert_eq!(accepted, CHANNEL_CAPACITY);
    assert_eq!(rx.len(), CHANNEL_CAPACITY);
    assert_eq!(enqueue_samples(&tx, &[7.0]), 0);

    let mut buffer: AudioBuffer<f32> = AudioBuffer::new(CHANNEL_CAPACITY);
    let taken = refill_buffer_from_stream(&rx, &mut buffer);
    assert_eq!(taken, CHANNEL_CAPACITY);
    assert_eq!(&contents(&buffer)[..], &offered[..CHANNEL_CAPACITY]);
    assert!(rx.is_empty());
}

#[test]
fn samples_sent_after_a_drain_are_accepted_again() {
    let (tx, rx) = sample_channel::<f32>().unwrap();
    enqueue_samples(&tx, &ramp(0, CHANNEL_CAPACITY));
    let mut buffer: AudioBuffer<f32> = AudioBuffer::new(4);
    refill_buffer_from_stream(&rx, &mut buffer);
    assert_eq!(enqueue_samples(&tx, &[1.0, 2.0]), 2);
    refill_buffer_from_stream(&rx, &mut buffer);
    assert_eq!(contents(&buffer), vec![47998.0, 47999.0, 1.0, 2.0]);
}

#[test]
fn channel_is_made_only_for_samples_of_bounded_size() {
    assert_eq!(MAX_SAMPLE_BYTES, 1024);
    assert!(sample_channel::<u8>().is_some());
    assert!(sample_channel::<()>().is_some());
    assert!(sample_channel::<[u8; 1024]>().is_some());
    assert!(sample_channel::<[u8; 1025]>().is_none());
}

#[test]
fn enqueue_of_nothing_accepts_nothing() {
    let (tx, rx) = sample_channel::<f32>().unwrap();
    assert_eq!(enqueue_samples(&tx, &[]), 0);
    assert!(rx.is_empty());
}

#[test]
fn enqueue_after_the_receiver_is_gone_accepts_nothing() {
    let (tx, rx) = sample_channel::<f32>().unwrap();
    drop(rx);
    assert_eq!(enqueue_samples(&tx, &[1.0, 2.0, 3.0]), 0);
}

#[test]
fn tick_after_the_sender_is_gone_takes_what_is_left() {
    let (tx, rx) = sample_channel::<f32>().unwrap();
    enqueue_samples(&tx, &[1.0, 2.0]);
    drop(tx);
    let mut buffer: AudioBuffer<f32> = AudioBuffer::new(4);
    assert_eq!(refill_buffer_from_stream(&rx, &mut buffer), 2);
    assert_eq!(refill_buffer_from_stream(&rx, &mut buffer), 0);
    assert_eq!(contents(&buffer), vec![1.0, 2.0]);
}

#[test]
fn pipeline_ticks_refill_its_window() {
    let (tx, rx) = sample_channel::<f32>().unwrap();
    let mut input = AudioInput::new(rx, AudioBuffer::prefilled(4, 0.0f32), "stream");
    assert_eq!(input.buffer().len(), 8);
    enqueue_samples(&tx, &[1.0, 2.0, 3.0]);
    assert_eq!(input.tick(), 3);
    assert_eq!(contents(input.buffer()), vec![0.0, 1.0, 2.0, 3.0]);
    assert_eq!(input.tick(), 0);
    assert_eq!(contents(input.buffer()), vec![0.0, 1.0, 2.0, 3.0]);
    assert_eq!(input.buffer().capacity(), 4);
}
