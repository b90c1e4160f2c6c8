use ps2_host::audio::{AudioFormat, DEFAULT_CHANNELS, DEFAULT_SAMPLE_RATE};

#[test]
fn requested_format_defaults() {
    assert_eq!(
        AudioFormat::requested(0, 0),
        AudioFormat { sample_rate: DEFAULT_SAMPLE_RATE, channels: DEFAULT_CHANNELS }
    );
    assert_eq!(AudioFormat::requested(0, 0), AudioFormat { sample_rate: 48000, channels: 2 });
    assert_eq!(AudioFormat::requested(44100, 1), AudioFormat { sample_rate: 44100, channels: 1 });
    assert_eq!(AudioFormat::requested(32000, 0), AudioFormat { sample_rate: 32000, channels: 2 });
}

#[test]
fn submit_len_counts_interleaved_s16_bytes() {
    let f = AudioFormat { sample_rate: 48000, channels: 2 };
    assert_eq!(f.submit_len(0), None);
    assert_eq!(f.submit_len(1), Some(4));
    assert_eq!(f.submit_len(800), Some(3200));
    let mono = AudioFormat { sample_rate: 48000, channels: 1 };
    assert_eq!(mono.submit_len(512), Some(1024));
}

#[test]
fn submit_len_refuses_counts_beyond_a_c_int() {
    let f = AudioFormat { sample_rate: 48000, channels: 2 };
    // 2^29 frames of stereo are 2^31 bytes, one more than a C int holds.
    assert_eq!(f.submit_len(1 << 29), None);
    assert_eq!(f.submit_len((1 << 29) - 1), Some(i32::MAX - 3));
    let wide = AudioFormat { sample_rate: 48000, channels: u32::MAX };
    assert_eq!(wide.submit_len(u32::MAX), None);
    let silent = AudioFormat { sample_rate: 48000, channels: 0 };
    assert_eq!(silent.submit_len(10), Some(0));
}

#[test]
fn queued_frames_divides_by_frame_size() {
    let f = AudioFormat { sample_rate: 48000, channels: 2 };
    assert_eq!(f.queued_frames(-1), 0);
    assert_eq!(f.queued_frames(0), 0);
    assert_eq!(f.queued_frames(3), 0);
    assert_eq!(f.queued_frames(4), 1);
    assert_eq!(f.queued_frames(4003), 1000);
    let none = AudioFormat { sample_rate: 48000, channels: 0 };
    assert_eq!(none.queued_frames(7), 7);
}

#[test]
fn submit_then_queued_round_trips() {
    let f = AudioFormat { sample_rate: 48000, channels: 6 };
    for frames in [1u32, 2, 735, 800, 4096] {
        let bytes = f.submit_len(frames).unwrap();
        assert_eq!(f.queued_frames(bytes), frames);
    }
}
