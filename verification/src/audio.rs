//! Audio output sizing: the playback format the host opens, how many bytes a
//! submission of interleaved S16 frames queues, and how many whole frames a
//! queued byte count stands for.

use vstd::prelude::*;

verus! {

/// Sample rate used when the runtime asks for rate 0.
pub const DEFAULT_SAMPLE_RATE: u32 = 48000;

/// Channel count used when the runtime asks for 0 channels.
pub const DEFAULT_CHANNELS: u32 = 2;

/// Bytes in one S16 sample.
pub const SAMPLE_BYTES: u32 = 2;

/// The format of the host's playback stream: interleaved signed 16-bit PCM.
#[derive(Clone, Copy, Debug, PartialEq, Eq)]
pub struct AudioFormat {
    pub sample_rate: u32,
    pub channels: u32,
}

/// Bytes in one sample-frame (one sample per channel).
pub open spec fn frame_bytes(channels: u32) -> int {
    channels * 2
}

/// Bytes queued for `frames` sample-frames, before narrowing to a C `int`.
pub open spec fn submit_bytes(channels: u32, frames: u32) -> int {
    frames * frame_bytes(channels)
}

/// Whole frames in `queued` bytes; nothing when SDL reports no data or an error.
pub open spec fn frames_in(channels: u32, queued: int) -> int {
    if queued <= 0 {
        0
    } else if frame_bytes(channels) == 0 {
        queued
    } else {
        queued / frame_bytes(channels)
    }
}

impl AudioFormat {
    /// The format for an open request; a zero rate means 48000 Hz and zero
    /// channels means stereo.
    pub fn requested(sample_rate: u32, channels: u32) -> (f: AudioFormat)
        ensures
            f.sample_rate == (if sample_rate == 0 { DEFAULT_SAMPLE_RATE } else { sample_rate }),
            f.channels == (if channels == 0 { DEFAULT_CHANNELS } else { channels }),
    {
        AudioFormat {
            sample_rate: if sample_rate == 0 { DEFAULT_SAMPLE_RATE } else { sample_rate },
            channels: if channels == 0 { DEFAULT_CHANNELS } else { channels },
        }
    }

    /// The length argument for queueing `frames` sample-frames of interleaved
    /// S16 in one call, as the C `int` SDL takes; `None` when there is
    /// nothing to queue or when the byte count does not fit a C `int`.
    pub fn submit_len(&self, frames: u32) -> (r: Option<i32>)
        ensures
            r is Some <==> frames != 0 && submit_bytes(self.channels, frames) <= i32::MAX,
            r matches Some(n) ==> n == submit_bytes(self.channels, frames),
    {
        if frames == 0 {
            return None;
        }
        let fb: u64 = self.channels as u64 * 2;
        assert(frames as int * fb as int <= u128::MAX) by (nonlinear_arith)
            requires
                frames <= u32::MAX,
                fb <= 2 * u32::MAX,
        ;
        let bytes: u128 = frames as u128 * fb as u128;
        assert(bytes == submit_bytes(self.channels, frames)) by (nonlinear_arith)
            requires
                bytes == frames as int * fb as int,
                fb == self.channels * 2,
        ;
        if bytes > 0x7fff_ffff {
            None
        } else {
            Some(bytes as i32)
        }
    }

    /// Whole sample-frames in the `queued` bytes that SDL reports, for
    /// backpressure; 0 when it reports none or an error.
    pub fn queued_frames(&self, queued: i32) -> (r: u32)
        ensures
            r == frames_in(self.channels, queued as int),
            queued <= 0 ==> r == 0,
            queued > 0 && self.channels > 0 ==> r * frame_bytes(self.channels) <= queued < (r + 1)
                * frame_bytes(self.channels),
    {
        if queued <= 0 {
            return 0;
        }
        let fb: u64 = self.channels as u64 * 2;
        let per: u64 = if fb == 0 { 1 } else { fb };
        let q: u64 = queued as u64 / per;
        assert(q <= queued) by {
            vstd::arithmetic::div_mod::lemma_div_is_ordered_by_denominator(queued as int, 1, per as int);
        }
        assert(q * per <= queued < (q + 1) * per) by {
            vstd::arithmetic::div_mod::lemma_fundamental_div_mod(queued as int, per as int);
            vstd::arithmetic::div_mod::lemma_mod_pos_bound(queued as int, per as int);
            assert(per * q == q * per) by (nonlinear_arith);
            assert((q + 1) * per == q * per + per) by (nonlinear_arith);
        }
        q as u32
    }
}

/// Queueing `frames` frames and asking how many frames the queued bytes hold
/// gives back `frames`, whenever the byte count fits a C `int`.
pub proof fn lemma_submit_then_queued(channels: u32, frames: u32)
    requires
        channels > 0,
        submit_bytes(channels, frames) <= i32::MAX,
    ensures
        frames_in(channels, submit_bytes(channels, frames) as i32 as int) == frames,
{
    let fb = frame_bytes(channels);
    assert(submit_bytes(channels, frames) >= 0) by (nonlinear_arith)
        requires
            fb > 0,
            submit_bytes(channels, frames) == frames * fb,
    ;
    let n = submit_bytes(channels, frames);
    assert(n as i32 as int == n);
    if frames > 0 {
        assert(n == frames * fb);
        vstd::arithmetic::div_mod::lemma_div_multiples_vanish(frames as int, fb);
        assert(fb * frames == frames * fb) by (nonlinear_arith);
        assert(frames * fb > 0) by (nonlinear_arith)
            requires
                frames > 0,
                fb > 0,
        ;
        assert((frames * fb) / fb == frames);
        assert(frames_in(channels, n) == frames);
    } else {
        assert(n == 0) by (nonlinear_arith)
            requires
                n == frames * fb,
                frames == 0,
        ;
    }
}

} // verus!
