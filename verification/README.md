# pvc_audio

Buffers of audio samples, verified with Verus, and the audio-device glue
around them.

- `src/` is the verified library:
  - `buffers/`: `AudioRingBuffer` (bounded, overwrites the oldest samples),
    `AudioFixedQueue` (bounded, refuses samples when full) and
    `AudioUnboundQueue` (keeps everything), each with a mathematical model of
    what it holds and proofs of its laws (chunked writes equal one write,
    round trips); a bounded buffer's well-formedness, which every operation
    keeps, says it holds at most its capacity, and no operation changes the
    capacity or the channel count;
  - `traits.rs`: the `AudioBuffer`, `InputReader` and `InputWriter` traits;
  - `builder.rs`: `BufferBuilder` and `AudioBufferBuilder`;
  - `device.rs`, `stream.rs`: sample formats, bits per sample, which devices
    are noise, which formats a stream can use;
  - `queues.rs`: the `crossbeam` queues that hold the samples and the
    contracts the library relies on for them.
- `app/` holds what talks to the audio backend (`cpal`): devices, streams,
  sample conversion and the sinks that feed the buffers.

A sample is stored as the bits of its `f32` value (`f32::to_bits`).
