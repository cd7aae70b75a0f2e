use pvc_audio::queues::is_valid_capacity;
use pvc_audio::builder::{AudioBufferBuilder, AudioBuffers, BufferBuilder, BufferKind, AUDIOBUFFER_SIZE};
use pvc_audio::device::Input;
use pvc_audio::traits::{AudioBuffer, InputWriter};

#[test]
fn builder_defaults_to_ring() {
    let buffers = AudioBufferBuilder::input().set_buffer_size(4).build(2);
    match buffers {
        AudioBuffers::Ring(mut b) => {
            assert_eq!(b.channels(), 2);
            assert_eq!(b.write_slice(&[1, 2, 3, 4, 5]), 5);
            assert_eq!(b.len(), 4);
        }
        _ => panic!("expected a ring buffer"),
    }
}

#[test]
fn builder_fixed_kind_and_size() {
    let buffers = BufferBuilder::<Input>::new(BufferKind::Ring)
        .set_kind(BufferKind::Fixed)
        .set_buffer_size(3)
        .build(1);
    match buffers {
        AudioBuffers::Fixed(mut q) => {
            assert_eq!(q.capacity(), 3);
            assert_eq!(q.write_slice(&[1, 2, 3, 4]), 3);
        }
        _ => panic!("expected a fixed queue"),
    }
}

#[test]
fn builder_unbound_kind() {
    let buffers = AudioBufferBuilder::input().set_kind(BufferKind::Unbound).build(8);
    match buffers {
        AudioBuffers::Unbound(q) => {
            assert_eq!(q.channels(), 8);
            assert_eq!(q.len(), 0);
        }
        _ => panic!("expected an unbound queue"),
    }
}

#[test]
fn builder_default_size() {
    assert_eq!(AUDIOBUFFER_SIZE, 96000);
    let buffers = AudioBufferBuilder::input().set_kind(BufferKind::Fixed).build(1);
    match buffers {
        AudioBuffers::Fixed(q) => assert_eq!(q.capacity(), 96000),
        _ => panic!("expected a fixed queue"),
    }
    let _output = AudioBufferBuilder::output().set_kind(BufferKind::Unbound);
    assert!(matches!(BufferKind::default(), BufferKind::Ring));
}

#[test]
fn capacity_limits() {
    assert!(!is_valid_capacity(0));
    assert!(is_valid_capacity(1));
    assert!(is_valid_capacity(96000));
    assert!(!is_valid_capacity(usize::MAX));
    assert!(!is_valid_capacity(usize::MAX / 8));
}
