use pvc_audio::buffers::{AudioFixedQueue, AudioRingBuffer, AudioUnboundQueue};
use pvc_audio::error::AudioError;
use pvc_audio::traits::{AudioBuffer, InputReader, InputWriter};

fn bits(x: f32) -> u32 {
    x.to_bits()
}

fn value(b: u32) -> f32 {
    f32::from_bits(b)
}

#[test]
fn test_audio_ring_buffer() {
    let mut buffer = AudioRingBuffer::new(2, 20);
    assert_eq!(buffer.channels, 2);

    let samples = [bits(0.5); 20];
    buffer.write_slice(&samples);

    // The first sample is read before the buffer is drained: a read right
    // after a drain loop, which only ends once `read` gives `None`, cannot
    // give a sample.
    let first = buffer.read();
    if let Some(first) = first {
        assert_eq!(value(first), 0.5);
    } else {
        panic!("Expected first sample to be Some(0.5)");
    }
    while let Some(v) = buffer.read() {
        assert_eq!(value(v), 0.5)
    }
    while let Some(v) = buffer.read() {
        assert_eq!(value(v), 0.5)
    }
    let samples = [bits(0.5); 20];
    buffer.write_slice(&samples);

    let mut second_pops = [bits(0.0); 5];
    buffer.read_slice(&mut second_pops);
    assert_eq!(second_pops, [bits(0.5); 5]);

    buffer.clear();
    assert!(buffer.read().is_none());

    //overflow should overwrite oldest samples
    buffer.write_slice(&samples);
    let r = buffer.write(bits(0.1));
    assert!(r.is_ok());
    let mut old_samples = [bits(0.0); 19];
    let count = buffer.read_slice(&mut old_samples);
    assert_eq!(count, 19);
    let last = buffer.read();
    assert!(last.is_some());
    assert_eq!(value(last.unwrap()), 0.1);
}

#[test]
fn test_audio_fixed_queue() {
    let mut queue = AudioFixedQueue::new(2, 20);
    assert_eq!(queue.channels, 2);
    assert_eq!(queue.capacity(), 20);
    assert!(queue.is_empty());

    let samples = [bits(0.5); 20];
    let r = queue.write(samples[0]);
    assert!(r.is_ok());
    assert!(!queue.is_empty());
    assert_eq!(queue.len(), 1);

    let r = queue.write_slice(&samples[1..20]);
    assert!(r == 19);

    let r = queue.write(bits(0.0));
    assert!(r.is_err());
}

#[test]
fn test_audio_unbound_buffer() {
    let mut buffer = AudioUnboundQueue::new(2);
    assert_eq!(buffer.channels, 2);
    assert!(buffer.read().is_none());
    let _ = buffer.write(bits(0.5));
    assert!(buffer.read().is_some());
    let _ = buffer.write(bits(0.5));
    assert!(buffer.read().is_some());
    assert!(buffer.read().is_none());

    let slice = [bits(0.5); 20];
    buffer.write_slice(&slice);
    assert!(buffer.read().is_some());

    buffer.clear();
    assert!(buffer.read().is_none());
}

#[test]
fn ring_keeps_order_and_overwrites_oldest() {
    let mut ring = AudioRingBuffer::new(1, 3);
    assert_eq!(ring.write_slice(&[1, 2, 3, 4, 5]), 5);
    assert_eq!(ring.len(), 3);
    assert_eq!(ring.read(), Some(3));
    assert_eq!(ring.read(), Some(4));
    assert_eq!(ring.read(), Some(5));
    assert_eq!(ring.read(), None);
}

#[test]
fn ring_chunked_writes_match_one_write() {
    let mut a = AudioRingBuffer::new(1, 4);
    a.write_slice(&[1, 2, 3]);
    a.write_slice(&[4, 5]);
    let mut b = AudioRingBuffer::new(1, 4);
    b.write_slice(&[1, 2, 3, 4, 5]);
    let mut out_a = [0u32; 4];
    let mut out_b = [0u32; 4];
    assert_eq!(a.read_slice(&mut out_a), 4);
    assert_eq!(b.read_slice(&mut out_b), 4);
    assert_eq!(out_a, [2, 3, 4, 5]);
    assert_eq!(out_a, out_b);
}

#[test]
fn ring_write_single_sample_overwrites() {
    let mut ring = AudioRingBuffer::new(1, 2);
    assert!(ring.write(7).is_ok());
    assert!(ring.write(8).is_ok());
    assert!(ring.write(9).is_ok());
    assert_eq!(ring.len(), 2);
    assert_eq!(ring.read(), Some(8));
    assert_eq!(ring.read(), Some(9));
}

#[test]
fn ring_read_slice_partial_tail() {
    // Six samples held, room for six: one group of four, then two singles.
    let mut ring = AudioRingBuffer::new(1, 10);
    ring.write_slice(&[1, 2, 3, 4, 5, 6]);
    let mut out = [0u32; 6];
    assert_eq!(ring.read_slice(&mut out), 6);
    assert_eq!(out, [1, 2, 3, 4, 5, 6]);
    assert_eq!(ring.read(), None);
}

#[test]
fn ring_read_slice_more_room_than_samples() {
    // Five samples held, room for seven: the group of four succeeds, the
    // single then finds the fifth, and the next single finds none.
    let mut ring = AudioRingBuffer::new(1, 10);
    ring.write_slice(&[1, 2, 3, 4, 5]);
    let mut out = [0u32; 7];
    assert_eq!(ring.read_slice(&mut out), 5);
    assert_eq!(out, [1, 2, 3, 4, 5, 0, 0]);
}

#[test]
fn ring_read_slice_fewer_samples_than_a_group() {
    // Two samples held, room for five: both are read, none is lost.
    let mut ring = AudioRingBuffer::new(1, 10);
    ring.write_slice(&[1, 2]);
    let mut out = [9u32; 5];
    assert_eq!(ring.read_slice(&mut out), 2);
    assert_eq!(out, [1, 2, 9, 9, 9]);
    assert_eq!(ring.len(), 0);
}

#[test]
fn ring_read_slice_group_then_singles() {
    // Six samples held, room for eight: one group of four, then the last two
    // one at a time.
    let mut ring = AudioRingBuffer::new(1, 10);
    ring.write_slice(&[1, 2, 3, 4, 5, 6]);
    let mut out = [0u32; 8];
    assert_eq!(ring.read_slice(&mut out), 6);
    assert_eq!(out, [1, 2, 3, 4, 5, 6, 0, 0]);
    assert_eq!(ring.read(), None);
}

#[test]
fn ring_read_slice_two_samples_room_for_four() {
    let mut ring = AudioRingBuffer::new(1, 8);
    ring.write_slice(&[bits(0.1), bits(0.2)]);
    let mut out = [bits(0.0); 4];
    assert_eq!(ring.read_slice(&mut out), 2);
    assert_eq!(out, [bits(0.1), bits(0.2), bits(0.0), bits(0.0)]);
    assert_eq!(ring.read(), None);
}

#[test]
fn ring_read_slice_keeps_what_does_not_fit() {
    let mut ring = AudioRingBuffer::new(1, 10);
    ring.write_slice(&[1, 2, 3, 4, 5, 6, 7]);
    let mut out = [0u32; 5];
    assert_eq!(ring.read_slice(&mut out), 5);
    assert_eq!(out, [1, 2, 3, 4, 5]);
    assert_eq!(ring.len(), 2);
    assert_eq!(ring.read(), Some(6));
}

#[test]
fn ring_channels_and_clear() {
    let mut ring = AudioRingBuffer::new(6, 4);
    ring.write_slice(&[1, 2, 3]);
    assert_eq!(ring.channels(), 6);
    ring.clear();
    assert_eq!(ring.len(), 0);
    assert_eq!(ring.channels(), 6);
}

#[test]
fn fixed_refuses_when_full_and_keeps_order() {
    let mut q = AudioFixedQueue::new(1, 3);
    assert_eq!(q.write_slice(&[1, 2, 3, 4, 5]), 3);
    assert!(matches!(q.write(6), Err(AudioError::BufferFull)));
    let mut out = [0u32; 5];
    assert_eq!(q.read_slice(&mut out), 3);
    assert_eq!(out, [1, 2, 3, 0, 0]);
    assert!(q.write(6).is_ok());
    assert_eq!(q.read(), Some(6));
    assert_eq!(q.read(), None);
}

#[test]
fn fixed_chunked_writes_match_one_write() {
    let mut a = AudioFixedQueue::new(1, 4);
    assert_eq!(a.write_slice(&[1, 2, 3]), 3);
    assert_eq!(a.write_slice(&[4, 5]), 1);
    let mut b = AudioFixedQueue::new(1, 4);
    assert_eq!(b.write_slice(&[1, 2, 3, 4, 5]), 4);
    let mut out_a = [0u32; 4];
    let mut out_b = [0u32; 4];
    a.read_slice(&mut out_a);
    b.read_slice(&mut out_b);
    assert_eq!(out_a, [1, 2, 3, 4]);
    assert_eq!(out_a, out_b);
}

#[test]
fn fixed_round_trip() {
    let mut q = AudioFixedQueue::new(2, 8);
    let data = [bits(0.25), bits(-1.0), bits(1.0)];
    assert_eq!(q.write_slice(&data), 3);
    let mut out = [0u32; 3];
    assert_eq!(q.read_slice(&mut out), 3);
    assert_eq!(out, data);
    assert_eq!(value(out[1]), -1.0);
}

#[test]
fn unbound_keeps_everything_in_order() {
    let mut q = AudioUnboundQueue::new(1);
    assert_eq!(q.write_slice(&[1, 2, 3]), 3);
    assert!(q.write(4).is_ok());
    assert_eq!(q.len(), 4);
    let mut out = [0u32; 2];
    assert_eq!(q.read_slice(&mut out), 2);
    assert_eq!(out, [1, 2]);
    let mut out = [0u32; 4];
    assert_eq!(q.read_slice(&mut out), 2);
    assert_eq!(out, [3, 4, 0, 0]);
    assert_eq!(q.channels(), 1);
}
