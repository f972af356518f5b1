//! Still-image and animated sources of pixel frames.
//!
//! Decoding is the caller's business: a source is built from decoded RGBA
//! samples and, for an animation, advanced with the caller's clock.

use std::sync::Arc;
use vstd::prelude::*;
use crate::frame::FrameBuffer;

verus! {

/// Why a source could not be built.
#[derive(Clone, Copy, Debug, PartialEq, Eq, Structural)]
pub enum SourceError {
    /// The frame at this position does not hold `width * height * 4`
    /// samples.
    SizeMismatch(usize),
}

/// The shortest delay between two frames of an animation, in milliseconds.
pub const MIN_FRAME_DELAY_MS: u64 = 10;

/// The delay of a frame whose delay ratio has a zero denominator, in
/// milliseconds.
pub const DEFAULT_FRAME_DELAY_MS: u64 = 100;

/// Whether `data` holds exactly the samples of a `width` by `height` frame.
pub open spec fn fits(data: Seq<u8>, width: u32, height: u32) -> bool {
    data.len() == width * height * 4
}

/// A still image: the same frame on every request.
#[derive(Clone, Debug)]
pub struct ImageSource {
    frame: Arc<FrameBuffer>,
}

impl ImageSource {
    /// The frame that the source holds.
    pub closed spec fn frame(&self) -> FrameBuffer {
        *self.frame
    }

    /// A source over decoded RGBA samples; an error unless there are
    /// `width * height * 4` of them.
    pub fn new(data: Vec<u8>, width: u32, height: u32) -> (r: Result<ImageSource, SourceError>)
        ensures
            r is Ok <==> fits(data@, width, height),
            r is Err ==> r == Err::<ImageSource, SourceError>(SourceError::SizeMismatch(0)),
            r matches Ok(s) ==> {
                &&& s.frame().wf()
                &&& s.frame().data@ == data@
                &&& s.frame().width == width
                &&& s.frame().height == height
                &&& !s.frame().is_camera_baked
            },
    {
        match FrameBuffer::from_raw(data, width, height) {
            Some(frame) => Ok(ImageSource { frame: Arc::new(frame) }),
            None => Err(SourceError::SizeMismatch(0)),
        }
    }

    /// The image, shared with the source.
    pub fn next_frame(&mut self) -> (r: Option<Arc<FrameBuffer>>)
        ensures
            final(self).frame() == old(self).frame(),
            (r matches Some(f) && *f == old(self).frame()),
    {
        Some(Arc::clone(&self.frame))
    }

    /// Width and height of the image in pixels.
    pub fn native_size(&self) -> (r: (u32, u32))
        ensures
            r == (self.frame().width, self.frame().height),
    {
        (self.frame.width, self.frame.height)
    }

    /// A still image is not a live source.
    pub fn is_live(&self) -> (r: bool)
        ensures
            !r,
    {
        false
    }
}

/// Wraps decoded RGBA samples into a frame; an error unless there are
/// `width * height * 4` of them.
pub fn load_image(data: Vec<u8>, width: u32, height: u32) -> (r: Result<FrameBuffer, SourceError>)
    ensures
        r is Ok <==> fits(data@, width, height),
        r is Err ==> r == Err::<FrameBuffer, SourceError>(SourceError::SizeMismatch(0)),
        r matches Ok(f) ==> {
            &&& f.wf()
            &&& f.data@ == data@
            &&& f.width == width
            &&& f.height == height
            &&& !f.is_camera_baked
        },
{
    match FrameBuffer::from_raw(data, width, height) {
        Some(frame) => Ok(frame),
        None => Err(SourceError::SizeMismatch(0)),
    }
}

/// One decoded frame of an animation with its delay as a ratio of
/// milliseconds.
#[derive(Clone, Debug)]
pub struct GifFrame {
    pub data: Vec<u8>,
    pub width: u32,
    pub height: u32,
    pub delay_numer: u32,
    pub delay_denom: u32,
}

/// The delay of a frame in milliseconds: the ratio rounded down, 100 when
/// the denominator is zero, and never below 10.
pub open spec fn delay_ms_spec(numer: u32, denom: u32) -> u64 {
    let ms = if denom == 0 {
        DEFAULT_FRAME_DELAY_MS as int
    } else {
        numer as int / denom as int
    };
    if ms < MIN_FRAME_DELAY_MS {
        MIN_FRAME_DELAY_MS
    } else {
        ms as u64
    }
}

/// Computes the delay of a frame in milliseconds.
pub fn delay_ms(numer: u32, denom: u32) -> (ms: u64)
    ensures
        ms == delay_ms_spec(numer, denom),
        ms >= MIN_FRAME_DELAY_MS,
{
    let ms: u64 = if denom == 0 {
        DEFAULT_FRAME_DELAY_MS
    } else {
        (numer / denom) as u64
    };
    if ms < MIN_FRAME_DELAY_MS {
        MIN_FRAME_DELAY_MS
    } else {
        ms
    }
}

/// What an animated source holds.
pub struct GifState {
    pub frames: Seq<FrameBuffer>,
    /// Delay after each frame, in milliseconds.
    pub delays: Seq<u64>,
    /// Position of the frame on show.
    pub current: int,
    /// The caller's clock, in milliseconds, when the frame last changed.
    pub last_advance: u64,
}

/// An animation: frames decoded in advance, looped with their own delays.
#[derive(Clone, Debug)]
pub struct GifSource {
    frames: Vec<Arc<FrameBuffer>>,
    delays: Vec<u64>,
    current: usize,
    last_advance: u64,
}

impl View for GifSource {
    type V = GifState;

    closed spec fn view(&self) -> GifState {
        GifState {
            frames: Seq::new(self.frames@.len(), |i: int| *self.frames@[i]),
            delays: self.delays@,
            current: self.current as int,
            last_advance: self.last_advance,
        }
    }
}

impl GifState {
    /// One delay per frame, every frame complete, and the current position
    /// inside the list.
    pub open spec fn wf(self) -> bool {
        &&& self.frames.len() == self.delays.len()
        &&& forall|i: int| 0 <= i < self.frames.len() ==> (#[trigger] self.frames[i]).wf()
        &&& 0 <= self.current
        &&& self.frames.len() > 0 ==> self.current < self.frames.len()
        &&& self.frames.len() == 0 ==> self.current == 0
    }

    /// Whether the frame on show has been up for its delay at time `now_ms`.
    pub open spec fn is_due(self, now_ms: u64) -> bool {
        now_ms >= self.last_advance && now_ms - self.last_advance >= self.delays[self.current]
    }

    /// The state after a request at time `now_ms`: when the current frame is
    /// due the next one, cyclically, is on show from `now_ms` on.
    pub open spec fn advanced(self, now_ms: u64) -> GifState {
        if self.frames.len() > 0 && self.is_due(now_ms) {
            GifState {
                current: (self.current + 1) % (self.frames.len() as int),
                last_advance: now_ms,
                ..self
            }
        } else {
            self
        }
    }
}

/// Whether every frame among the first `n` holds the samples its size asks
/// for.
pub open spec fn all_fit(raw: Seq<GifFrame>, n: int) -> bool {
    forall|i: int| 0 <= i < n ==> fits((#[trigger] raw[i]).data@, raw[i].width, raw[i].height)
}

/// The position of the first frame that does not fit is `k`.
pub open spec fn first_misfit(raw: Seq<GifFrame>, k: int) -> bool {
    &&& 0 <= k < raw.len()
    &&& all_fit(raw, k)
    &&& !fits(raw[k].data@, raw[k].width, raw[k].height)
}

impl GifSource {
    /// Builds an animated source from decoded frames, on show from the first
    /// frame at time `now_ms`. `Ok(None)` for fewer than two frames, which
    /// is a still image; an error naming the first frame whose samples do
    /// not match its size.
    pub fn try_new(raw_frames: &Vec<GifFrame>, now_ms: u64) -> (r: Result<
        Option<GifSource>,
        SourceError,
    >)
        ensures
            raw_frames@.len() <= 1 ==> r == Ok::<Option<GifSource>, SourceError>(None),
            raw_frames@.len() > 1 ==> (r is Ok <==> all_fit(
                raw_frames@,
                raw_frames@.len() as int,
            )),
            raw_frames@.len() > 1 ==> (r matches Err(SourceError::SizeMismatch(k))
                ==> first_misfit(raw_frames@, k as int)),
            raw_frames@.len() > 1 ==> (r matches Ok(o) ==> (o matches Some(s) && {
                &&& s@.wf()
                &&& s@.frames.len() == raw_frames@.len()
                &&& s@.current == 0
                &&& s@.last_advance == now_ms
                &&& forall|i: int|
                    0 <= i < raw_frames@.len() ==> {
                        &&& (#[trigger] s@.frames[i]).data@ == raw_frames@[i].data@
                        &&& s@.frames[i].width == raw_frames@[i].width
                        &&& s@.frames[i].height == raw_frames@[i].height
                        &&& !s@.frames[i].is_camera_baked
                        &&& s@.delays[i] == delay_ms_spec(
                            raw_frames@[i].delay_numer,
                            raw_frames@[i].delay_denom,
                        )
                    }
            })),
    {
        let n: usize = raw_frames.len();
        if n <= 1 {
            return Ok(None);
        }
        let mut frames: Vec<Arc<FrameBuffer>> = Vec::with_capacity(n);
        let mut delays: Vec<u64> = Vec::with_capacity(n);
        let mut i: usize = 0;
        while i < n
            invariant
                i <= n,
                n > 1,
                n == raw_frames@.len(),
                frames@.len() == i,
                delays@.len() == i,
                all_fit(raw_frames@, i as int),
                forall|j: int|
                    0 <= j < i ==> {
                        &&& (#[trigger] frames@[j]).wf()
                        &&& frames@[j].data@ == raw_frames@[j].data@
                        &&& frames@[j].width == raw_frames@[j].width
                        &&& frames@[j].height == raw_frames@[j].height
                        &&& !frames@[j].is_camera_baked
                        &&& delays@[j] == delay_ms_spec(
                            raw_frames@[j].delay_numer,
                            raw_frames@[j].delay_denom,
                        )
                    },
            decreases n - i,
        {
            let raw: &GifFrame = &raw_frames[i];
            let data: Vec<u8> = raw.data.clone();
            assert(data@ =~= raw.data@);
            match FrameBuffer::from_raw(data, raw.width, raw.height) {
                Some(frame) => {
                    frames.push(Arc::new(frame));
                    delays.push(delay_ms(raw.delay_numer, raw.delay_denom));
                },
                None => {
                    return Err(SourceError::SizeMismatch(i));
                },
            }
            i += 1;
        }
        let source = GifSource { frames, delays, current: 0, last_advance: now_ms };
        assert(source@.frames.len() == n);
        Ok(Some(source))
    }

    /// The number of frames in the animation.
    pub fn frame_count(&self) -> (n: usize)
        ensures
            n == self@.frames.len(),
    {
        self.frames.len()
    }

    /// The frame on show at time `now_ms` on the caller's clock, in
    /// milliseconds: the current frame, or the next one once the current
    /// frame has been up for its delay. `None` when there are no frames.
    pub fn next_frame(&mut self, now_ms: u64) -> (r: Option<Arc<FrameBuffer>>)
        requires
            old(self)@.wf(),
        ensures
            final(self)@.wf(),
            final(self)@ == old(self)@.advanced(now_ms),
            old(self)@.frames.len() == 0 ==> r is None,
            old(self)@.frames.len() > 0 ==> (r matches Some(f) && *f == old(self)@.advanced(
                now_ms,
            ).frames[old(self)@.advanced(now_ms).current]),
    {
        if self.frames.len() == 0 {
            return None;
        }
        let n: usize = self.frames.len();
        if now_ms >= self.last_advance && now_ms - self.last_advance
            >= self.delays[self.current] {
            proof {
                if self.current + 1 == n {
                    vstd::arithmetic::div_mod::lemma_fundamental_div_mod_converse(
                        self.current + 1,
                        n as int,
                        1,
                        0,
                    );
                } else {
                    vstd::arithmetic::div_mod::lemma_fundamental_div_mod_converse(
                        self.current + 1,
                        n as int,
                        0,
                        self.current + 1,
                    );
                }
            }
            self.current = if self.current + 1 == n {
                0
            } else {
                self.current + 1
            };
            self.last_advance = now_ms;
        }
        assert(self@.frames =~= old(self)@.frames);
        Some(Arc::clone(&self.frames[self.current]))
    }

    /// Width and height of the first frame in pixels; zero without frames.
    pub fn native_size(&self) -> (r: (u32, u32))
        ensures
            self@.frames.len() == 0 ==> r == (0u32, 0u32),
            self@.frames.len() > 0 ==> r == (self@.frames[0].width, self@.frames[0].height),
    {
        if self.frames.len() == 0 {
            (0, 0)
        } else {
            (self.frames[0].width, self.frames[0].height)
        }
    }

    /// An animation paces itself, like a live source.
    pub fn is_live(&self) -> (r: bool)
        ensures
            r,
    {
        true
    }
}

} // verus!
