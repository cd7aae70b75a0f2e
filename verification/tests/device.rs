use pvc_audio::device::{bits_per_sample, is_noise_device, SampleFormat};
use pvc_audio::stream::is_stream_format_supported;

#[test]
fn bits_per_sample_of_each_format() {
    assert_eq!(bits_per_sample(SampleFormat::I8), 8);
    assert_eq!(bits_per_sample(SampleFormat::U8), 8);
    assert_eq!(bits_per_sample(SampleFormat::I16), 16);
    assert_eq!(bits_per_sample(SampleFormat::U16), 16);
    assert_eq!(bits_per_sample(SampleFormat::I24), 24);
    assert_eq!(bits_per_sample(SampleFormat::U24), 24);
    assert_eq!(bits_per_sample(SampleFormat::I32), 32);
    assert_eq!(bits_per_sample(SampleFormat::U32), 32);
    assert_eq!(bits_per_sample(SampleFormat::F32), 32);
    assert_eq!(bits_per_sample(SampleFormat::I64), 64);
    assert_eq!(bits_per_sample(SampleFormat::U64), 64);
    assert_eq!(bits_per_sample(SampleFormat::F64), 64);
    assert_eq!(bits_per_sample(SampleFormat::DsdU8), 8);
    assert_eq!(bits_per_sample(SampleFormat::DsdU16), 16);
    assert_eq!(bits_per_sample(SampleFormat::DsdU32), 32);
    assert_eq!(bits_per_sample(SampleFormat::Unknown), 32);
}

#[test]
fn noise_devices_by_name_and_id() {
    assert!(is_noise_device("Discard all samples (playback) or generate zero samples", "null"));
    assert!(is_noise_device("HDA Intel", "hw:CARD=PCH,DEV=0"));
    assert!(is_noise_device("HDA Intel", "plughw:CARD=PCH"));
    assert!(is_noise_device("Speakers", "surround51:CARD=PCH"));
    assert!(is_noise_device("Speakers", "iec958:CARD=PCH"));
    assert!(is_noise_device("Speakers", "front:CARD=PCH"));
    assert!(is_noise_device("Speakers", "sysdefault:CARD=PCH"));
    assert!(!is_noise_device("Default Audio Device", "default"));
    assert!(!is_noise_device("pipewire", "pipewire"));
    // The prefix must start the id; a name merely containing it is fine.
    assert!(!is_noise_device("hw:lookalike", "pulse"));
    assert!(!is_noise_device("Discard", "dmix:CARD=PCH"));
}

#[test]
fn stream_formats() {
    for f in [
        SampleFormat::I8,
        SampleFormat::I16,
        SampleFormat::I24,
        SampleFormat::U24,
        SampleFormat::I32,
        SampleFormat::F32,
        SampleFormat::I64,
        SampleFormat::U64,
        SampleFormat::DsdU8,
        SampleFormat::DsdU16,
        SampleFormat::DsdU32,
    ] {
        assert!(is_stream_format_supported(f));
    }
    for f in [
        SampleFormat::U8,
        SampleFormat::U16,
        SampleFormat::U32,
        SampleFormat::F64,
        SampleFormat::Unknown,
    ] {
        assert!(!is_stream_format_supported(f));
    }
}
