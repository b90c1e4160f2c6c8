//! Frame presentation bookkeeping. The guest hands over finished RGBA8888
//! frames; the host keeps a GPU texture sized to the current frame and an
//! upload buffer large enough to stage one frame. This module decides when
//! those must be (re)created and keeps the record of what exists, so that an
//! upload never writes past the staging buffer.

use vstd::prelude::*;

verus! {

/// Bytes per RGBA8888 pixel.
pub const PIXEL_BYTES: u32 = 4;

/// Bytes in a `w` x `h` RGBA8888 frame.
pub open spec fn frame_size(w: u32, h: u32) -> int {
    w * h * 4
}

/// The byte size of a `w` x `h` RGBA8888 frame, or `None` when it does not
/// fit in 32 bits.
pub fn frame_bytes(w: u32, h: u32) -> (r: Option<u32>)
    ensures
        r is Some <==> frame_size(w, h) <= u32::MAX,
        r matches Some(n) ==> n == frame_size(w, h),
        r matches Some(n) ==> n == w as int * h as int * 4,
{
    assert(w as int * h as int <= u64::MAX) by (nonlinear_arith)
        requires
            w <= u32::MAX,
            h <= u32::MAX,
    ;
    let wh: u64 = w as u64 * h as u64;
    if wh > 0x3fff_ffff {
        assert(frame_size(w, h) > u32::MAX) by (nonlinear_arith)
            requires
                wh == w * h,
                wh > 0x3fff_ffff,
        ;
        None
    } else {
        assert(wh * 4 == frame_size(w, h)) by (nonlinear_arith)
            requires
                wh == w * h,
        ;
        Some((wh * 4) as u32)
    }
}

/// Whether a frame of this size is presented at all: empty frames are dropped.
pub fn present_wanted(w: u32, h: u32) -> (r: bool)
    ensures
        r == (w != 0 && h != 0),
{
    w != 0 && h != 0
}

/// Whether the swapchain target acquired for this frame can be drawn to: the
/// acquire succeeded, returned a texture, and the target is not empty (it is
/// empty while the window is minimised).
pub fn swapchain_usable(acquired: bool, has_texture: bool, sw: u32, sh: u32) -> (r: bool)
    ensures
        r == (acquired && has_texture && sw != 0 && sh != 0),
{
    acquired && has_texture && sw != 0 && sh != 0
}

/// What the host must do next to have resources for a frame.
#[derive(Clone, Copy, Debug, PartialEq, Eq)]
pub enum FrameAction {
    /// Stop: the texture and an upload buffer holding a whole frame exist
    /// (`true`), or one of them could not be made (`false`).
    Done(bool),
    /// Create the frame texture, first releasing the one that exists when
    /// `release_old` holds.
    CreateTexture { release_old: bool },
    /// Create an upload buffer of `bytes` bytes, first releasing the one that
    /// exists when `release_old` holds.
    CreateTransfer { release_old: bool, bytes: u32 },
}

/// The record of the GPU resources that exist: the frame texture with its
/// size, and the upload buffer with its byte size.
pub struct FrameResources {
    texture: Option<(u32, u32)>,
    transfer: Option<u32>,
}

/// The staging buffer, when there is one alongside a texture, holds a whole
/// frame of the texture's size, and that size fits in 32 bits.
pub open spec fn staging_covers(texture: Option<(u32, u32)>, transfer: Option<u32>) -> bool {
    match texture {
        Some((w, h)) => {
            &&& frame_size(w, h) <= u32::MAX
            &&& (transfer matches Some(b) ==> b >= frame_size(w, h))
        },
        None => true,
    }
}

impl FrameResources {
    #[verifier::type_invariant]
    spec fn inv(self) -> bool {
        staging_covers(self.texture, self.transfer)
    }

    /// The frame texture's size, when one exists.
    pub closed spec fn texture_size(self) -> Option<(u32, u32)> {
        self.texture
    }

    /// The upload buffer's byte size, when one exists.
    pub closed spec fn staging_size(self) -> Option<u32> {
        self.transfer
    }

    /// Nothing created yet.
    pub fn new() -> (r: FrameResources)
        ensures
            r.texture_size() is None,
            r.staging_size() is None,
    {
        FrameResources { texture: None, transfer: None }
    }

    /// The frame texture's size, when one exists.
    pub fn texture(&self) -> (r: Option<(u32, u32)>)
        ensures
            r == self.texture_size(),
    {
        self.texture
    }

    /// The upload buffer's byte size, when one exists.
    pub fn staging(&self) -> (r: Option<u32>)
        ensures
            r == self.staging_size(),
    {
        self.transfer
    }

    /// Start preparing for a `w` x `h` frame. A texture of that size is kept
    /// as it is, and the resources are ready when an upload buffer holding a
    /// whole frame exists too; otherwise a new upload buffer is asked for. Any
    /// texture of another size is released and a new one is asked for.
    pub fn begin(&mut self, w: u32, h: u32) -> (r: FrameAction)
        ensures
            (r == FrameAction::Done(true)) == old(self).ready_for(w, h),
            r != FrameAction::Done(false),
            r == FrameAction::Done(true) ==> final(self).ready_for(w, h),
            old(self).texture_size() == Some((w, h)) ==> {
                &&& final(self).texture_size() == old(self).texture_size()
                &&& frame_size(w, h) <= u32::MAX
                &&& match old(self).staging_size() {
                    Some(b) if b >= frame_size(w, h) => {
                        &&& r == FrameAction::Done(true)
                        &&& final(self).staging_size() == Some(b)
                    },
                    _ => {
                        &&& r == FrameAction::CreateTransfer {
                            release_old: old(self).staging_size() is Some,
                            bytes: frame_size(w, h) as u32,
                        }
                        &&& final(self).staging_size() is None
                    },
                }
            },
            old(self).texture_size() != Some((w, h)) ==> {
                &&& r == FrameAction::CreateTexture { release_old: old(self).texture_size() is Some }
                &&& final(self).texture_size() is None
                &&& final(self).staging_size() == old(self).staging_size()
            },
    {
        proof {
            use_type_invariant(&*self);
        }
        match self.texture {
            Some((tw, th)) => {
                if tw == w && th == h {
                    let needed: u32 = w * h * 4;
                    match self.transfer {
                        Some(b) => {
                            if b >= needed {
                                FrameAction::Done(true)
                            } else {
                                self.transfer = None;
                                FrameAction::CreateTransfer { release_old: true, bytes: needed }
                            }
                        },
                        None => FrameAction::CreateTransfer { release_old: false, bytes: needed },
                    }
                } else {
                    self.texture = None;
                    FrameAction::CreateTexture { release_old: true }
                }
            },
            None => FrameAction::CreateTexture { release_old: false },
        }
    }

    /// Whether a `w` x `h` frame needs nothing created: the texture has that
    /// size and the upload buffer holds a whole frame.
    pub open spec fn ready_for(self, w: u32, h: u32) -> bool {
        &&& self.texture_size() == Some((w, h))
        &&& self.staging_size() matches Some(b) && b >= frame_size(w, h)
    }

    /// The texture asked for by `begin` was created (`ok`) or not. On success
    /// the upload buffer is kept when it holds a whole frame, and otherwise is
    /// released and a new one of a frame's size is asked for.
    pub fn texture_created(&mut self, ok: bool, w: u32, h: u32) -> (r: FrameAction)
        requires
            frame_size(w, h) <= u32::MAX,
        ensures
            r == FrameAction::Done(true) ==> final(self).ready_for(w, h),
            !ok ==> {
                &&& r == FrameAction::Done(false)
                &&& final(self).texture_size() is None
                &&& final(self).staging_size() == old(self).staging_size()
            },
            ok ==> {
                &&& final(self).texture_size() == Some((w, h))
                &&& match old(self).staging_size() {
                    Some(b) if b >= frame_size(w, h) => {
                        &&& r == FrameAction::Done(true)
                        &&& final(self).staging_size() == Some(b)
                    },
                    _ => {
                        &&& r == FrameAction::CreateTransfer {
                            release_old: old(self).staging_size() is Some,
                            bytes: frame_size(w, h) as u32,
                        }
                        &&& final(self).staging_size() is None
                    },
                }
            },
    {
        proof {
            use_type_invariant(&*self);
        }
        if !ok {
            self.texture = None;
            return FrameAction::Done(false);
        }
        let needed: u32 = w * h * 4;
        match self.transfer {
            Some(b) => {
                if b >= needed {
                    self.texture = Some((w, h));
                    FrameAction::Done(true)
                } else {
                    self.transfer = None;
                    self.texture = Some((w, h));
                    FrameAction::CreateTransfer { release_old: true, bytes: needed }
                }
            },
            None => {
                self.texture = Some((w, h));
                FrameAction::CreateTransfer { release_old: false, bytes: needed }
            },
        }
    }

    /// The upload buffer asked for by `texture_created` was created (`ok`) or
    /// not; on success it is recorded with a frame's size of the texture.
    /// Returns whether the resources are now ready.
    pub fn transfer_created(&mut self, ok: bool) -> (r: bool)
        ensures
            final(self).texture_size() == old(self).texture_size(),
            r == (ok && old(self).texture_size() is Some),
            r ==> final(self).ready_for(
                (old(self).texture_size()->0).0,
                (old(self).texture_size()->0).1,
            ),
            r ==> final(self).staging_size() == Some(
                frame_size((old(self).texture_size()->0).0, (old(self).texture_size()->0).1) as u32,
            ),
            !r ==> final(self).staging_size() == old(self).staging_size(),
    {
        proof {
            use_type_invariant(&*self);
        }
        match self.texture {
            Some((w, h)) => {
                if ok {
                    self.transfer = Some(w * h * 4);
                    true
                } else {
                    false
                }
            },
            None => false,
        }
    }

    /// Whether a `w` x `h` frame can be uploaded now: the texture has that
    /// size and the upload buffer exists (it then holds the whole frame).
    pub fn upload_ready(&self, w: u32, h: u32) -> (r: bool)
        ensures
            r == (self.texture_size() == Some((w, h)) && self.staging_size() is Some),
            r ==> self.staging_size()->0 >= frame_size(w, h),
    {
        proof {
            use_type_invariant(self);
        }
        match (self.texture, self.transfer) {
            (Some((tw, th)), Some(_)) => tw == w && th == h,
            _ => false,
        }
    }
}

} // verus!
