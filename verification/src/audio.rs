//! Audio buffers: a sample rate and a sequence of frames.
use crate::chan::{Channel, Samp16, Samp24};
use crate::frame::Frame;
use crate::sink::Sink;
use vstd::std_specs::convert::FromSpecImpl;
use vstd::prelude::*;

verus! {

/// A sample rate in hertz, never zero.
#[derive(Debug, Clone, Copy)]
struct Hz {
    hz: u32,
}

impl Hz {
    /// The rate never is zero.
    #[verifier::type_invariant]
    spec fn nonzero(self) -> bool {
        self.hz > 0
    }
}

/// Audio buffer (fixed-size array of audio frames at a sample rate
/// specified in hertz).
#[derive(Debug)]
pub struct Audio<Chan: Channel, const CH: usize> {
    // Sample rate of the audio in hertz (never zero).
    sample_rate: Hz,
    // Audio frames.
    frames: Vec<Frame<Chan, CH>>,
}

impl<Chan: Channel, const CH: usize> View for Audio<Chan, CH> {
    type V = Seq<Frame<Chan, CH>>;

    /// The frames of the buffer, in order.
    closed spec fn view(&self) -> Seq<Frame<Chan, CH>> {
        self.frames@
    }
}

impl<Chan: Channel, const CH: usize> Audio<Chan, CH> {
    /// The sample rate of the buffer, in hertz.
    pub closed spec fn rate(&self) -> u32 {
        self.sample_rate.hz
    }

    /// Construct an empty `Audio` buffer.
    pub fn new(hz: u32) -> (r: Self)
        requires
            hz != 0,
        ensures
            r.rate() == hz,
            r@ == Seq::<Frame<Chan, CH>>::empty(),
    {
        Self::with_frames(hz, Vec::new())
    }

    /// Construct an `Audio` buffer with all samples set to zero.
    pub fn with_silence(hz: u32, len: usize) -> (r: Self)
        requires
            hz != 0,
        ensures
            r.rate() == hz,
            r@.len() == len,
            forall|i: int| 0 <= i < len ==> (#[trigger] r@[i])@ == Seq::new(CH as nat, |j: int| 0int),
    {
        let silence = Frame::<Chan, CH>::default();
        let mut frames: Vec<Frame<Chan, CH>> = Vec::new();
        let mut i: usize = 0;
        while i < len
            invariant
                0 <= i <= len,
                frames@.len() == i,
                silence@ == Seq::new(CH as nat, |j: int| 0int),
                forall|k: int| 0 <= k < i ==> #[trigger] frames@[k] == silence,
            decreases len - i,
        {
            frames.push(silence);
            i = i + 1;
        }
        Self::with_frames(hz, frames)
    }

    /// Construct an `Audio` buffer with owned frame data.  The frames can be
    /// had back with `into_frames()`.
    pub fn with_frames(hz: u32, frames: Vec<Frame<Chan, CH>>) -> (r: Self)
        requires
            hz != 0,
        ensures
            r.rate() == hz,
            r@ == frames@,
    {
        Audio { sample_rate: Hz { hz }, frames }
    }

    /// Get an audio frame.
    pub fn get(&self, index: usize) -> (r: Option<Frame<Chan, CH>>)
        ensures
            index < self@.len() ==> r == Some(self@[index as int]),
            index >= self@.len() ==> r.is_none(),
    {
        if index < self.frames.len() {
            Some(self.frames[index])
        } else {
            None
        }
    }

    /// Get a mutable reference to an audio frame.
    pub fn get_mut(&mut self, index: usize) -> (r: Option<&mut Frame<Chan, CH>>)
        ensures
            index < old(self)@.len() ==> r.is_some() && *r.unwrap() == old(self)@[index as int]
                && final(self)@ == old(self)@.update(index as int, *final(r.unwrap()))
                && final(self).rate() == old(self).rate(),
            index >= old(self)@.len() ==> r.is_none() && *final(self) == *old(self),
    {
        if index < self.frames.len() {
            Some(&mut self.frames[index])
        } else {
            None
        }
    }

    /// Get a slice of all audio frames.
    pub fn as_slice(&self) -> (r: &[Frame<Chan, CH>])
        ensures
            r@ == self@,
    {
        self.frames.as_slice()
    }

    /// Get a mutable slice of all audio frames.
    pub fn as_mut_slice(&mut self) -> (r: &mut [Frame<Chan, CH>])
        ensures
            r@ == old(self)@,
            final(self)@ == final(r)@,
            final(self).rate() == old(self).rate(),
    {
        self.frames.as_mut_slice()
    }

    /// Returns an iterator over the audio frames, in order.
    pub fn iter(&self) -> (r: std::slice::Iter<'_, Frame<Chan, CH>>)
        ensures
            vstd::std_specs::slice::into_iter_elts(r) == self@,
    {
        let r = self.frames.as_slice().iter();
        proof {
            broadcast use vstd::std_specs::slice::axiom_spec_slice_iter;
        }
        r
    }

    /// Get the sample rate of this audio buffer, in hertz (never zero).
    pub fn sample_rate(&self) -> (r: u32)
        ensures
            r == self.rate(),
            r > 0,
    {
        proof {
            use_type_invariant(&self.sample_rate);
        }
        self.sample_rate.hz
    }

    /// Get the length of the `Audio` buffer.
    pub fn len(&self) -> (r: usize)
        ensures
            r == self@.len(),
    {
        self.frames.len()
    }

    /// Check if `Audio` buffer is empty.
    pub fn is_empty(&self) -> (r: bool)
        ensures
            r == (self@.len() == 0),
    {
        self.len() == 0
    }

    /// Silence the audio buffer.
    pub fn silence(&mut self)
        ensures
            final(self).rate() == old(self).rate(),
            final(self)@.len() == old(self)@.len(),
            forall|i: int|
                0 <= i < old(self)@.len() ==> (#[trigger] final(self)@[i])@ == Seq::new(
                    CH as nat,
                    |j: int| 0int,
                ),
    {
        let silence = Frame::<Chan, CH>::default();
        let mut frames: Vec<Frame<Chan, CH>> = Vec::new();
        std::mem::swap(&mut frames, &mut self.frames);
        let n = frames.len();
        let mut i: usize = 0;
        while i < n
            invariant
                0 <= i <= n,
                n == frames@.len(),
                n == old(self).frames@.len(),
                silence@ == Seq::new(CH as nat, |j: int| 0int),
                forall|k: int| 0 <= k < i ==> #[trigger] frames@[k] == silence,
            decreases n - i,
        {
            frames.set(i, silence);
            i = i + 1;
        }
        std::mem::swap(&mut frames, &mut self.frames);
    }

    /// Get the frames of the buffer.
    pub fn into_frames(self) -> (r: Vec<Frame<Chan, CH>>)
        ensures
            r@ == self@,
    {
        self.frames
    }
}

impl<Chan: Channel, const CH: usize> From<Audio<Chan, CH>> for Vec<Frame<Chan, CH>> {
    /// Get internal sample data as `Vec` of audio frames.
    fn from(audio: Audio<Chan, CH>) -> (r: Vec<Frame<Chan, CH>>)
        ensures
            r@ == audio@,
    {
        audio.frames
    }
}

impl<Chan: Channel, const CH: usize> FromSpecImpl<Audio<Chan, CH>> for Vec<Frame<Chan, CH>> {
    open spec fn obeys_from_spec() -> bool {
        true
    }

    /// The frames of the buffer.
    closed spec fn from_spec(audio: Audio<Chan, CH>) -> Vec<Frame<Chan, CH>> {
        audio.frames
    }
}

/// Returned from [`Audio::sink()`](crate::audio::Audio::sink): writes
/// frames into an audio buffer from its start onward.
#[derive(Debug)]
pub struct AudioSink<'a, Chan: Channel, const CH: usize> {
    index: usize,
    audio: &'a mut Audio<Chan, CH>,
}

impl<Chan: Channel, const CH: usize> Audio<Chan, CH> {
    /// Sink audio into this audio buffer, from its first frame on.
    pub fn sink(&mut self) -> (r: AudioSink<'_, Chan, CH>)
        ensures
            r.written() == 0,
            *r.target() == *old(self),
            r.written() <= r.target()@.len(),
            *final(self) == *final(r.audio_ref()),
    {
        AudioSink { index: 0, audio: self }
    }
}

impl<'a, Chan: Channel, const CH: usize> AudioSink<'a, Chan, CH> {
    /// Number of frames written so far.
    pub closed spec fn written(&self) -> nat {
        self.index as nat
    }

    /// The buffer being written, as it is now.
    pub closed spec fn target(&self) -> &Audio<Chan, CH> {
        &*self.audio
    }

    /// The reference to the buffer being written.
    pub closed spec fn audio_ref(&self) -> &mut Audio<Chan, CH> {
        self.audio
    }

}

impl<'a, Chan: Channel, const CH: usize> Sink<Chan, CH> for AudioSink<'a, Chan, CH> {
    /// The sample rate of the buffer being written, in hertz.
    fn sample_rate(&self) -> (r: u32)
        ensures
            r == self.target().rate(),
    {
        self.audio.sample_rate()
    }

    /// The length of the buffer being written, in frames.
    fn len(&self) -> (r: usize)
        ensures
            r == self.target()@.len(),
    {
        self.audio.len()
    }

    /// Whether the buffer being written has no frames.
    fn is_empty(&self) -> (r: bool)
        ensures
            r == (self.target()@.len() == 0),
    {
        let n = self.len();
        n == 0
    }

    /// Write `frames` into the buffer after the frames written before, as
    /// many as fit; returns how many were written.
    fn sink_with(&mut self, frames: &[Frame<Chan, CH>]) -> (n: usize)
        ensures
            old(self).written() >= old(self).target()@.len() ==> n == 0 && *final(self) == *old(
                self,
            ),
            old(self).written() < old(self).target()@.len() ==> n == vstd::math::min(
                frames@.len() as int,
                old(self).target()@.len() - old(self).written(),
            ),
            final(self).written() == old(self).written() + n,
            final(self).target().rate() == old(self).target().rate(),
            old(self).written() < old(self).target()@.len() ==> final(self).target()@ == old(
                self,
            ).target()@.subrange(0, old(self).written() as int)
                + frames@.subrange(0, n as int) + old(self).target()@.subrange(
                old(self).written() + n,
                old(self).target()@.len() as int,
            ),
            *final(final(self).audio_ref()) == *final(old(self).audio_ref()),
    {
        let start = self.index;
        let len = self.audio.frames.len();
        let ghost buf0 = self.audio.frames@;
        if start >= len {
            return 0;
        }
        let room = len - start;
        let mut i: usize = 0;
        let count = if frames.len() < room {
            frames.len()
        } else {
            room
        };
        let mut buf: Vec<Frame<Chan, CH>> = Vec::new();
        std::mem::swap(&mut buf, &mut self.audio.frames);
        while i < count
            invariant
                0 <= i <= count,
                count <= frames@.len(),
                start + count <= len,
                buf@.len() == len,
                buf0.len() == len,
                forall|k: int| 0 <= k < start ==> #[trigger] buf@[k] == buf0[k],
                forall|k: int| start <= k < start + i ==> #[trigger] buf@[k] == frames@[k - start],
                forall|k: int| start + i <= k < len ==> #[trigger] buf@[k] == buf0[k],
            decreases count - i,
        {
            buf.set(start + i, frames[i]);
            i = i + 1;
        }
        std::mem::swap(&mut buf, &mut self.audio.frames);
        self.index = start + count;
        assert(self.audio.frames@ =~= buf0.subrange(0, start as int) + frames@.subrange(0, count as int) + buf0.subrange(start + count, len as int));
        count
    }
}

/// Index `k * c + j` of sample `j` of frame `k` lies below `n * c` for
/// `k < n`, `j < c`, and the next frame starts `c` after.
proof fn lemma_interleaved_index(k: int, j: int, n: int, c: int)
    requires
        0 <= k < n,
        0 <= j < c,
    ensures
        0 <= k * c + j < n * c,
        (k + 1) * c == k * c + c,
        k * c + c <= n * c,
{
    assert(0 <= k * c + j < n * c && (k + 1) * c == k * c + c && k * c + c <= n * c)
        by (nonlinear_arith)
        requires
            0 <= k < n,
            0 <= j < c,
    ;
}

impl<const CH: usize> Audio<Samp16, CH> {
    /// Construct an `Audio` buffer from interleaved `i16` samples: frame
    /// `k` holds `buffer[k * CH .. (k + 1) * CH]`.
    pub fn with_i16_buffer(hz: u32, buffer: Vec<i16>) -> (r: Self)
        requires
            hz != 0,
            CH > 0,
            buffer@.len() % (CH as nat) == 0,
        ensures
            r.rate() == hz,
            r@.len() * CH == buffer@.len(),
            forall|k: int, j: int|
                0 <= k < r@.len() && 0 <= j < CH ==> #[trigger] (r@[k])@[j] == buffer@[k * CH + j],
    {
        let blen = buffer.len();
        let n = blen / CH;
        proof {
            let len = buffer@.len() as int;
            let c = CH as int;
            vstd::arithmetic::div_mod::lemma_fundamental_div_mod(len, c);
            assert(n * CH == buffer@.len()) by (nonlinear_arith)
                requires
                    len == c * (len / c) + len % c,
                    len % c == 0,
                    n == len / c,
                    len == buffer@.len(),
                    c == CH,
            ;
        }
        let mut frames: Vec<Frame<Samp16, CH>> = Vec::new();
        let mut k: usize = 0;
        let mut pos: usize = 0;
        while k < n
            invariant
                0 <= k <= n,
                n * CH == buffer@.len(),
                blen == buffer@.len(),
                CH > 0,
                pos == k * CH,
                frames@.len() == k,
                forall|a: int, j: int|
                    0 <= a < k && 0 <= j < CH ==> #[trigger] (frames@[a])@[j] == buffer@[a * CH
                        + j],
            decreases n - k,
        {
            let mut chans: Vec<Samp16> = Vec::new();
            let mut j: usize = 0;
            proof {
                lemma_interleaved_index(k as int, 0, n as int, CH as int);
            }
            while j < CH
                invariant
                    0 <= j <= CH,
                    k < n,
                    pos == k * CH,
                    k * CH + CH <= n * CH,
                    n * CH == buffer@.len(),
                    blen == buffer@.len(),
                    chans@.len() == j,
                    forall|b: int| 0 <= b < j ==> (#[trigger] chans@[b])@ == buffer@[k * CH + b],
                decreases CH - j,
            {
                chans.push(Samp16::new(buffer[pos + j]));
                j = j + 1;
            }
            let f = Frame::from_channels(chans.as_slice());
            assert forall|b: int| 0 <= b < CH implies #[trigger] f@[b] == buffer@[k * CH + b] by {
                assert(chans@.map_values(|c: Samp16| c.value())[b] == chans@[b]@);
            }
            frames.push(f);
            proof {
                lemma_interleaved_index(k as int, 0, n as int, CH as int);
            }
            k = k + 1;
            pos = pos + CH;
        }
        Audio::with_frames(hz, frames)
    }

    /// The samples as interleaved `i16`s: frame `k` is at
    /// `[k * CH .. (k + 1) * CH]`.
    pub fn as_i16_slice(&self) -> (r: Vec<i16>)
        ensures
            r@.len() == self@.len() * CH,
            forall|k: int, j: int|
                0 <= k < self@.len() && 0 <= j < CH ==> r@[k * CH + j] == #[trigger] (self@[k])@[j],
    {
        let mut out: Vec<i16> = Vec::new();
        let n = self.frames.len();
        let mut k: usize = 0;
        while k < n
            invariant
                0 <= k <= n,
                n == self@.len(),
                out@.len() == k * CH,
                forall|a: int, j: int|
                    0 <= a < k && 0 <= j < CH ==> out@[a * CH + j] == #[trigger] (self@[a])@[j],
            decreases n - k,
        {
            let f = self.frames[k];
            let chans = f.channels();
            let mut j: usize = 0;
            while j < CH
                invariant
                    0 <= j <= CH,
                    k < n,
                    out@.len() == k * CH + j,
                    chans@.map_values(|c: Samp16| c.value()) == f@,
                    f == self@[k as int],
                    forall|a: int, b: int|
                        0 <= a < k && 0 <= b < CH ==> out@[a * CH + b] == #[trigger] (self@[a])@[b],
                    forall|b: int| 0 <= b < j ==> out@[k * CH + b] == #[trigger] f@[b],
                decreases CH - j,
            {
                let ghost before = out@;
                out.push(chans[j].to_i16());
                proof {
                    assert(chans@.map_values(|c: Samp16| c.value())[j as int] == chans@[j as int]@);
                    assert forall|a: int, b: int|
                        0 <= a < k && 0 <= b < CH implies out@[a * CH + b] == #[trigger] (
                    self@[a])@[b] by {
                        lemma_interleaved_index(a, b, k as int, CH as int);
                        assert(out@[a * CH + b] == before[a * CH + b]);
                    }
                }
                j = j + 1;
            }
            assert((k + 1) * CH == k * CH + CH) by (nonlinear_arith);
            k = k + 1;
        }
        out
    }
}

/// The 24-bit sample stored in three bytes: the upper 16 bits as a
/// little-endian `i16`, then the lowest byte.
pub open spec fn samp24_of_bytes(b0: u8, b1: u8, b2: u8) -> int {
    let u = b0 as int + 256 * (b1 as int);
    let hi = if u >= 32768 {
        u - 65536
    } else {
        u
    };
    256 * hi + b2 as int
}

/// The 24-bit sample stored at byte `i` of `bytes`.
pub open spec fn samp24_at(bytes: Seq<u8>, i: int) -> int {
    samp24_of_bytes(bytes[i], bytes[i + 1], bytes[i + 2])
}

/// Decode three bytes (the upper 16 bits little-endian, then the lowest
/// byte) as a 24-bit sample.
fn samp24_from_bytes(b0: u8, b1: u8, b2: u8) -> (r: Samp24)
    ensures
        r@ == samp24_of_bytes(b0, b1, b2),
{
    let u: u16 = (b0 as u16) | ((b1 as u16) << 8u16);
    assert(u as int == b0 as int + 256 * (b1 as int)) by (bit_vector)
        requires
            u == (b0 as u16) | ((b1 as u16) << 8u16),
    ;
    let hi: i16 = u as i16;
    assert(hi as int == if u >= 32768 {
        u - 65536
    } else {
        u as int
    }) by (bit_vector)
        requires
            hi == u as i16,
    ;
    Samp24::new(hi as i32 * 256 + b2 as i32)
}

/// Encode a 24-bit sample as three bytes: the upper 16 bits little-endian,
/// then the lowest byte.
fn samp24_to_bytes(s: Samp24) -> (r: (u8, u8, u8))
    ensures
        samp24_of_bytes(r.0, r.1, r.2) == s@,
{
    let v: i32 = s.to_i32();
    proof {
        Samp24::lemma_view(s);
    }
    let hi: i16 = (v >> 8u32) as i16;
    let b0: u8 = hi as u8;
    let b1: u8 = ((hi as u16) >> 8u16) as u8;
    let b2: u8 = v as u8;
    assert(samp24_of_bytes(b0, b1, b2) == v as int) by (bit_vector)
        requires
            -8388608i32 <= v <= 8388607i32,
            hi == (v >> 8u32) as i16,
            b0 == hi as u8,
            b1 == ((hi as u16) >> 8u16) as u8,
            b2 == v as u8,
    ;
    (b0, b1, b2)
}

impl<const CH: usize> Audio<Samp24, CH> {
    /// Construct an `Audio` buffer from interleaved 24-bit samples of three
    /// bytes each (the upper 16 bits little-endian, then the lowest byte):
    /// sample `j` of frame `k` starts at byte `3 * (k * CH + j)`.
    pub fn with_u8_buffer(hz: u32, buffer: Vec<u8>) -> (r: Self)
        requires
            hz != 0,
            CH > 0,
            3 * CH <= usize::MAX,
            buffer@.len() % (3 * CH as nat) == 0,
        ensures
            r.rate() == hz,
            r@.len() * (3 * CH) == buffer@.len(),
            forall|k: int, j: int|
                0 <= k < r@.len() && 0 <= j < CH ==> #[trigger] (r@[k])@[j] == samp24_at(
                    buffer@,
                    3 * (k * CH + j),
                ),
    {
        let blen = buffer.len();
        let width: usize = 3 * CH;
        let n = blen / width;
        proof {
            let len = buffer@.len() as int;
            let c = width as int;
            vstd::arithmetic::div_mod::lemma_fundamental_div_mod(len, c);
            assert(c == 3 * CH);
            assert(len % c == 0);
            assert(n == len / c);
            assert(n * width == buffer@.len()) by (nonlinear_arith)
                requires
                    len == c * (len / c) + len % c,
                    len % c == 0,
                    n == len / c,
                    c == width,
                    len == buffer@.len(),
            ;
        }
        let mut frames: Vec<Frame<Samp24, CH>> = Vec::new();
        let mut k: usize = 0;
        let mut pos: usize = 0;
        while k < n
            invariant
                0 <= k <= n,
                width == 3 * CH,
                n * width == buffer@.len(),
                blen == buffer@.len(),
                CH > 0,
                pos == k * width,
                frames@.len() == k,
                forall|a: int, j: int|
                    0 <= a < k && 0 <= j < CH ==> #[trigger] (frames@[a])@[j] == samp24_at(
                        buffer@,
                        3 * (a * CH + j),
                    ),
            decreases n - k,
        {
            let mut chans: Vec<Samp24> = Vec::new();
            let mut j: usize = 0;
            proof {
                lemma_interleaved_index(k as int, 0, n as int, width as int);
                assert(k * width == 3 * (k * CH)) by (nonlinear_arith)
                    requires
                        width == 3 * CH,
                ;
            }
            while j < CH
                invariant
                    0 <= j <= CH,
                    k < n,
                    width == 3 * CH,
                    pos == k * width,
                    k * width == 3 * (k * CH),
                    k * width + width <= n * width,
                    n * width == buffer@.len(),
                    blen == buffer@.len(),
                    chans@.len() == j,
                    forall|b: int|
                        0 <= b < j ==> (#[trigger] chans@[b])@ == samp24_at(
                            buffer@,
                            3 * (k * CH + b),
                        ),
                decreases CH - j,
            {
                let at = pos + 3 * j;
                let s = samp24_from_bytes(buffer[at], buffer[at + 1], buffer[at + 2]);
                chans.push(s);
                j = j + 1;
            }
            let f = Frame::from_channels(chans.as_slice());
            assert forall|b: int| 0 <= b < CH implies #[trigger] f@[b] == samp24_at(
                buffer@,
                3 * (k * CH + b),
            ) by {
                assert(chans@.map_values(|c: Samp24| c.value())[b] == chans@[b]@);
            }
            frames.push(f);
            proof {
                lemma_interleaved_index(k as int, 0, n as int, width as int);
            }
            k = k + 1;
            pos = pos + width;
        }
        Audio::with_frames(hz, frames)
    }

    /// The samples as interleaved three-byte 24-bit samples (the upper 16
    /// bits little-endian, then the lowest byte).
    pub fn as_u8_slice(&self) -> (r: Vec<u8>)
        ensures
            r@.len() == self@.len() * (3 * CH),
            forall|k: int, j: int|
                0 <= k < self@.len() && 0 <= j < CH ==> samp24_at(r@, 3 * (k * CH + j))
                    == #[trigger] (self@[k])@[j],
    {
        let mut out: Vec<u8> = Vec::new();
        let n = self.frames.len();
        let mut k: usize = 0;
        while k < n
            invariant
                0 <= k <= n,
                n == self@.len(),
                out@.len() == k * (3 * CH),
                forall|a: int, j: int|
                    0 <= a < k && 0 <= j < CH ==> samp24_at(out@, 3 * (a * CH + j))
                        == #[trigger] (self@[a])@[j],
            decreases n - k,
        {
            let f = self.frames[k];
            let chans = f.channels();
            let mut j: usize = 0;
            assert(k * (3 * CH) == 3 * (k * CH)) by (nonlinear_arith);
            while j < CH
                invariant
                    0 <= j <= CH,
                    k < n,
                    out@.len() == 3 * (k * CH) + 3 * j,
                    chans@.map_values(|c: Samp24| c.value()) == f@,
                    f == self@[k as int],
                    forall|a: int, b: int|
                        0 <= a < k && 0 <= b < CH ==> samp24_at(out@, 3 * (a * CH + b))
                            == #[trigger] (self@[a])@[b],
                    forall|b: int|
                        0 <= b < j ==> samp24_at(out@, 3 * (k * CH + b)) == #[trigger] f@[b],
                decreases CH - j,
            {
                let ghost before = out@;
                let (b0, b1, b2) = samp24_to_bytes(chans[j]);
                out.push(b0);
                out.push(b1);
                out.push(b2);
                proof {
                    assert(chans@.map_values(|c: Samp24| c.value())[j as int] == chans@[j as int]@);
                    assert forall|a: int, b: int|
                        0 <= a < k && 0 <= b < CH implies samp24_at(out@, 3 * (a * CH + b))
                        == #[trigger] (self@[a])@[b] by {
                        lemma_interleaved_index(a, b, k as int, CH as int);
                        assert(samp24_at(out@, 3 * (a * CH + b)) == samp24_at(
                            before,
                            3 * (a * CH + b),
                        ));
                    }
                    assert forall|b: int|
                        0 <= b < j + 1 implies samp24_at(out@, 3 * (k * CH + b))
                        == #[trigger] f@[b] by {
                        if b < j {
                            assert(samp24_at(out@, 3 * (k * CH + b)) == samp24_at(
                                before,
                                3 * (k * CH + b),
                            ));
                        }
                    }
                }
                j = j + 1;
            }
            assert(3 * (k * CH) + 3 * CH == (k + 1) * (3 * CH)) by (nonlinear_arith);
            k = k + 1;
        }
        out
    }
}

/// Sample `t` of an interleaved buffer of frames of `c` channels is sample
/// `t % c` of frame `t / c`.
proof fn lemma_interleaved_split(t: int, n: int, c: int)
    requires
        c > 0,
        0 <= t < n * c,
    ensures
        0 <= t / c < n,
        0 <= t % c < c,
        t == (t / c) * c + t % c,
{
    vstd::arithmetic::div_mod::lemma_fundamental_div_mod(t, c);
    assert(0 <= t / c < n) by (nonlinear_arith)
        requires
            t == c * (t / c) + t % c,
            0 <= t % c < c,
            0 <= t < n * c,
            c > 0,
    ;
    assert(t == (t / c) * c + t % c) by (nonlinear_arith)
        requires
            t == c * (t / c) + t % c,
    ;
}

/// Reading back the `i16` samples of a buffer made from `i16` samples gives
/// those samples: what `as_i16_slice` returns for the frames that
/// `with_i16_buffer` made from `buffer` is `buffer`.
pub proof fn law_i16_buffer_roundtrip<const CH: usize>(
    frames: Seq<Frame<Samp16, CH>>,
    buffer: Seq<i16>,
    out: Seq<i16>,
)
    requires
        CH > 0,
        frames.len() * CH == buffer.len(),
        forall|k: int, j: int|
            0 <= k < frames.len() && 0 <= j < CH ==> #[trigger] (frames[k])@[j] == buffer[k * CH
                + j],
        out.len() == frames.len() * CH,
        forall|k: int, j: int|
            0 <= k < frames.len() && 0 <= j < CH ==> out[k * CH + j] == #[trigger] (frames[k])@[j],
    ensures
        out == buffer,
{
    assert forall|t: int| 0 <= t < buffer.len() implies out[t] == buffer[t] by {
        lemma_interleaved_split(t, frames.len() as int, CH as int);
        let k = t / (CH as int);
        let j = t % (CH as int);
        assert((frames[k])@[j] == buffer[k * CH + j]);
    }
    assert(out =~= buffer);
}

/// Three bytes decode to one 24-bit sample only: the lowest byte is the
/// sample's remainder by 256, the other two encode the rest.
proof fn lemma_samp24_bytes_injective(a0: u8, a1: u8, a2: u8, b0: u8, b1: u8, b2: u8)
    requires
        samp24_of_bytes(a0, a1, a2) == samp24_of_bytes(b0, b1, b2),
    ensures
        a0 == b0,
        a1 == b1,
        a2 == b2,
{
    let ua = a0 as int + 256 * (a1 as int);
    let ub = b0 as int + 256 * (b1 as int);
    let ha = if ua >= 32768 {
        ua - 65536
    } else {
        ua
    };
    let hb = if ub >= 32768 {
        ub - 65536
    } else {
        ub
    };
    assert(256 * ha + a2 == 256 * hb + b2);
    assert(ha == hb && a2 == b2) by (nonlinear_arith)
        requires
            256 * ha + a2 == 256 * hb + b2,
            0 <= a2 < 256,
            0 <= b2 < 256,
    ;
    assert(ua == ub);
    assert(a0 == b0 && a1 == b1) by (nonlinear_arith)
        requires
            a0 as int + 256 * (a1 as int) == b0 as int + 256 * (b1 as int),
            0 <= a0 < 256,
            0 <= b0 < 256,
    ;
}

/// Reading back the bytes of a buffer of 24-bit samples made from bytes
/// gives those bytes: what `as_u8_slice` returns for the frames that
/// `with_u8_buffer` made from `buffer` is `buffer`.
pub proof fn law_u8_buffer_roundtrip<const CH: usize>(
    frames: Seq<Frame<Samp24, CH>>,
    buffer: Seq<u8>,
    out: Seq<u8>,
)
    requires
        CH > 0,
        frames.len() * (3 * CH) == buffer.len(),
        forall|k: int, j: int|
            0 <= k < frames.len() && 0 <= j < CH ==> #[trigger] (frames[k])@[j] == samp24_at(
                buffer,
                3 * (k * CH + j),
            ),
        out.len() == frames.len() * (3 * CH),
        forall|k: int, j: int|
            0 <= k < frames.len() && 0 <= j < CH ==> samp24_at(out, 3 * (k * CH + j))
                == #[trigger] (frames[k])@[j],
    ensures
        out == buffer,
{
    let n = frames.len() as int;
    let c = CH as int;
    assert forall|t: int| 0 <= t < buffer.len() implies out[t] == buffer[t] by {
        let s = t / 3;
        let r = t % 3;
        vstd::arithmetic::div_mod::lemma_fundamental_div_mod(t, 3);
        assert(0 <= s < n * c) by (nonlinear_arith)
            requires
                t == 3 * s + r,
                0 <= r < 3,
                0 <= t < n * (3 * c),
        ;
        lemma_interleaved_split(s, n, c);
        let k = s / c;
        let j = s % c;
        assert(3 * (k * c + j) == 3 * s);
        assert((frames[k])@[j] == samp24_at(buffer, 3 * s));
        assert(samp24_at(out, 3 * s) == (frames[k])@[j]);
        lemma_samp24_bytes_injective(
            out[3 * s],
            out[3 * s + 1],
            out[3 * s + 2],
            buffer[3 * s],
            buffer[3 * s + 1],
            buffer[3 * s + 2],
        );
        assert(t == 3 * s || t == 3 * s + 1 || t == 3 * s + 2);
    }
    assert(out =~= buffer);
}

} // verus!
