//! Frame (interleaved sample) types: the samples of all channels at one
//! instant.
use crate::chan::Channel;
use vstd::prelude::*;
use vstd::std_specs::ops::{AddSpecImpl, MulSpecImpl, NegSpecImpl, SubSpecImpl};

verus! {

broadcast use vstd::array::group_array_axioms;

/// Frame - a number of interleaved sample channels.
#[derive(Clone, Copy, Debug, PartialEq, Eq)]
pub struct Frame<Chan: Channel, const CH: usize>([Chan; CH]);

impl<Chan: Channel, const CH: usize> View for Frame<Chan, CH> {
    type V = Seq<int>;

    /// The values of the channels, in order.
    closed spec fn view(&self) -> Seq<int> {
        self.0@.map_values(|c: Chan| c.value())
    }
}

/// The values of the channel-wise sums of two frames.
pub open spec fn sums<Chan: Channel>(a: Seq<int>, b: Seq<int>) -> Seq<int> {
    Seq::new(a.len(), |i: int| Chan::sum(a[i], b[i]))
}

/// The values of the channel-wise differences of two frames.
pub open spec fn diffs<Chan: Channel>(a: Seq<int>, b: Seq<int>) -> Seq<int> {
    Seq::new(a.len(), |i: int| Chan::diff(a[i], b[i]))
}

/// The values of the channel-wise products of two frames.
pub open spec fn prods<Chan: Channel>(a: Seq<int>, b: Seq<int>) -> Seq<int> {
    Seq::new(a.len(), |i: int| Chan::prod(a[i], b[i]))
}

/// The values of the channel-wise negations of a frame.
pub open spec fn negations<Chan: Channel>(a: Seq<int>) -> Seq<int> {
    Seq::new(a.len(), |i: int| Chan::negation(a[i]))
}

impl<Chan: Channel, const CH: usize> Frame<Chan, CH> {
    /// The frame whose channels have the values `values`.
    pub closed spec fn of(values: Seq<int>) -> Self {
        Frame(choose|a: [Chan; CH]| a@.map_values(|c: Chan| c.value()) == values)
    }

    /// A frame has one value per channel, each within the channel's range,
    /// and is the frame of its values.
    pub broadcast proof fn lemma_view(f: Self)
        ensures
            #[trigger] f@.len() == CH,
            forall|i: int| 0 <= i < CH ==> Chan::lo() <= #[trigger] f@[i] <= Chan::hi(),
            Self::of(f@) == f,
    {
        let a = choose|a: [Chan; CH]| a@.map_values(|c: Chan| c.value()) == f@;
        assert(f.0@.map_values(|c: Chan| c.value()) == f@);
        assert forall|i: int| 0 <= i < CH implies Chan::lo() <= #[trigger] f@[i] <= Chan::hi() by {
            Chan::lemma_value(f.0@[i], f.0@[i]);
        }
        assert forall|i: int| 0 <= i < CH implies a[i] == f.0[i] by {
            assert(a@.map_values(|c: Chan| c.value())[i] == f@[i]);
            Chan::lemma_value(a@[i], f.0@[i]);
        }
        assert(a =~= f.0);
    }

    /// Two frames are equal exactly when their values are.
    pub proof fn lemma_view_injective(a: Self, b: Self)
        ensures
            (a@ == b@) == (a == b),
    {
        Self::lemma_view(a);
        Self::lemma_view(b);
    }

    /// Get a slice of the channels in this frame.
    pub fn channels(&self) -> (r: &[Chan; CH])
        ensures
            r@.map_values(|c: Chan| c.value()) == self@,
    {
        &self.0
    }

    /// Get a mutable slice of the channels in this frame.
    pub fn channels_mut(&mut self) -> (r: &mut [Chan; CH])
        ensures
            r@.map_values(|c: Chan| c.value()) == old(self)@,
            final(self)@ == final(r)@.map_values(|c: Chan| c.value()),
    {
        &mut self.0
    }

    /// The channel at index `i`.
    pub fn get_ref(&self, i: usize) -> (r: &Chan)
        requires
            i < CH,
        ensures
            r.value() == self@[i as int],
    {
        &self.0[i]
    }

    /// The channel at index `i`, for writing.
    pub fn get_mut(&mut self, i: usize) -> (r: &mut Chan)
        requires
            i < CH,
        ensures
            r.value() == old(self)@[i as int],
            final(self)@ == old(self)@.update(i as int, final(r).value()),
    {
        let r = &mut self.0[i];
        r
    }

    /// Make a frame from a slice of exactly `CH` channels.
    pub fn from_channels(chans: &[Chan]) -> (r: Self)
        requires
            chans@.len() == CH,
        ensures
            r@ == chans@.map_values(|c: Chan| c.value()),
    {
        let mut out = Frame([Chan::mid_value(); CH]);
        let mut i: usize = 0;
        while i < CH
            invariant
                0 <= i <= CH,
                chans@.len() == CH,
                forall|j: int| 0 <= j < i ==> #[trigger] out.0[j] == chans@[j],
            decreases CH - i,
        {
            out.0[i] = chans[i];
            i = i + 1;
        }
        assert(out@ =~= chans@.map_values(|c: Chan| c.value()));
        out
    }

    /// Channel-wise sum.
    fn plus(self, other: Self) -> (r: Self)
        ensures
            r@ == sums::<Chan>(self@, other@),
    {
        let mut out = self;
        let mut i: usize = 0;
        while i < CH
            invariant
                0 <= i <= CH,
                forall|j: int|
                    0 <= j < i ==> (#[trigger] out.0[j]).value() == Chan::sum(
                        self.0[j].value(),
                        other.0[j].value(),
                    ),
                forall|j: int| i <= j < CH ==> #[trigger] out.0[j] == self.0[j],
            decreases CH - i,
        {
            out.0[i] = self.0[i].plus(other.0[i]);
            i = i + 1;
        }
        assert(out@ =~= sums::<Chan>(self@, other@));
        out
    }

    /// Channel-wise difference.
    fn minus(self, other: Self) -> (r: Self)
        ensures
            r@ == diffs::<Chan>(self@, other@),
    {
        let mut out = self;
        let mut i: usize = 0;
        while i < CH
            invariant
                0 <= i <= CH,
                forall|j: int|
                    0 <= j < i ==> (#[trigger] out.0[j]).value() == Chan::diff(
                        self.0[j].value(),
                        other.0[j].value(),
                    ),
                forall|j: int| i <= j < CH ==> #[trigger] out.0[j] == self.0[j],
            decreases CH - i,
        {
            out.0[i] = self.0[i].minus(other.0[i]);
            i = i + 1;
        }
        assert(out@ =~= diffs::<Chan>(self@, other@));
        out
    }

    /// Channel-wise product.
    fn times(self, other: Self) -> (r: Self)
        ensures
            r@ == prods::<Chan>(self@, other@),
    {
        let mut out = self;
        let mut i: usize = 0;
        while i < CH
            invariant
                0 <= i <= CH,
                forall|j: int|
                    0 <= j < i ==> (#[trigger] out.0[j]).value() == Chan::prod(
                        self.0[j].value(),
                        other.0[j].value(),
                    ),
                forall|j: int| i <= j < CH ==> #[trigger] out.0[j] == self.0[j],
            decreases CH - i,
        {
            out.0[i] = self.0[i].times(other.0[i]);
            i = i + 1;
        }
        assert(out@ =~= prods::<Chan>(self@, other@));
        out
    }

    /// Channel-wise negation.
    fn negate(self) -> (r: Self)
        ensures
            r@ == negations::<Chan>(self@),
    {
        let mut out = self;
        let mut i: usize = 0;
        while i < CH
            invariant
                0 <= i <= CH,
                forall|j: int|
                    0 <= j < i ==> (#[trigger] out.0[j]).value() == Chan::negation(
                        self.0[j].value(),
                    ),
                forall|j: int| i <= j < CH ==> #[trigger] out.0[j] == self.0[j],
            decreases CH - i,
        {
            out.0[i] = self.0[i].negate();
            i = i + 1;
        }
        assert(out@ =~= negations::<Chan>(self@));
        out
    }
}

impl<Chan: Channel, const CH: usize> std::ops::Add<Frame<Chan, CH>> for Frame<Chan, CH> {
    type Output = Frame<Chan, CH>;

    fn add(self, other: Frame<Chan, CH>) -> (r: Frame<Chan, CH>)
        ensures
            r@ == sums::<Chan>(self@, other@),
    {
        let r = self.plus(other);
        proof {
            Self::lemma_view(r);
        }
        r
    }
}

impl<Chan: Channel, const CH: usize> AddSpecImpl<Frame<Chan, CH>> for Frame<Chan, CH> {
    open spec fn obeys_add_spec() -> bool {
        true
    }

    open spec fn add_req(self, rhs: Frame<Chan, CH>) -> bool {
        true
    }

    open spec fn add_spec(self, rhs: Frame<Chan, CH>) -> Frame<Chan, CH> {
        Self::of(sums::<Chan>(self@, rhs@))
    }
}

impl<Chan: Channel, const CH: usize> std::ops::Sub<Frame<Chan, CH>> for Frame<Chan, CH> {
    type Output = Frame<Chan, CH>;

    fn sub(self, other: Frame<Chan, CH>) -> (r: Frame<Chan, CH>)
        ensures
            r@ == diffs::<Chan>(self@, other@),
    {
        let r = self.minus(other);
        proof {
            Self::lemma_view(r);
        }
        r
    }
}

impl<Chan: Channel, const CH: usize> SubSpecImpl<Frame<Chan, CH>> for Frame<Chan, CH> {
    open spec fn obeys_sub_spec() -> bool {
        true
    }

    open spec fn sub_req(self, rhs: Frame<Chan, CH>) -> bool {
        true
    }

    open spec fn sub_spec(self, rhs: Frame<Chan, CH>) -> Frame<Chan, CH> {
        Self::of(diffs::<Chan>(self@, rhs@))
    }
}

impl<Chan: Channel, const CH: usize> std::ops::Mul<Frame<Chan, CH>> for Frame<Chan, CH> {
    type Output = Frame<Chan, CH>;

    fn mul(self, other: Frame<Chan, CH>) -> (r: Frame<Chan, CH>)
        ensures
            r@ == prods::<Chan>(self@, other@),
    {
        let r = self.times(other);
        proof {
            Self::lemma_view(r);
        }
        r
    }
}

impl<Chan: Channel, const CH: usize> MulSpecImpl<Frame<Chan, CH>> for Frame<Chan, CH> {
    open spec fn obeys_mul_spec() -> bool {
        true
    }

    open spec fn mul_req(self, rhs: Frame<Chan, CH>) -> bool {
        true
    }

    open spec fn mul_spec(self, rhs: Frame<Chan, CH>) -> Frame<Chan, CH> {
        Self::of(prods::<Chan>(self@, rhs@))
    }
}

impl<Chan: Channel, const CH: usize> std::ops::Neg for Frame<Chan, CH> {
    type Output = Frame<Chan, CH>;

    fn neg(self) -> (r: Frame<Chan, CH>)
        ensures
            r@ == negations::<Chan>(self@),
    {
        let r = self.negate();
        proof {
            Self::lemma_view(r);
        }
        r
    }
}

impl<Chan: Channel, const CH: usize> NegSpecImpl for Frame<Chan, CH> {
    open spec fn obeys_neg_spec() -> bool {
        true
    }

    open spec fn neg_req(self) -> bool {
        true
    }

    open spec fn neg_spec(self) -> Frame<Chan, CH> {
        Self::of(negations::<Chan>(self@))
    }
}

impl<Chan: Channel, const CH: usize> Default for Frame<Chan, CH> {
    /// A frame of silence.
    fn default() -> (r: Frame<Chan, CH>)
        ensures
            r@ == Seq::new(CH as nat, |i: int| 0int),
    {
        let x = Chan::mid_value();
        let r = Frame([x; CH]);
        assert(r@ =~= Seq::new(CH as nat, |i: int| 0int));
        r
    }
}

impl<Chan: Channel> Frame<Chan, 1> {
    /// Create a new mono interleaved audio frame from channel(s).
    pub fn new(mono: Chan) -> (r: Self)
        ensures
            r@ == seq![mono.value()],
    {
        let r = Frame([mono]);
        assert(r@ =~= seq![mono.value()]);
        r
    }
}

impl<Chan: Channel> Frame<Chan, 2> {
    /// Create a new stereo interleaved audio frame from channel(s).
    pub fn new(left: Chan, right: Chan) -> (r: Self)
        ensures
            r@ == seq![left.value(), right.value()],
    {
        let r = Frame([left, right]);
        assert(r@ =~= seq![left.value(), right.value()]);
        r
    }
}

impl<Chan: Channel> Frame<Chan, 3> {
    /// Create a new surround 3.0 interleaved audio frame from channel(s).
    pub fn new(left: Chan, right: Chan, center: Chan) -> (r: Self)
        ensures
            r@ == seq![left.value(), right.value(), center.value()],
    {
        let r = Frame([left, right, center]);
        assert(r@ =~= seq![left.value(), right.value(), center.value()]);
        r
    }

    /// Convert a surround 3.0 frame to `N` channels, given the weights
    /// standing for one third and two thirds: to mono, the three channels
    /// a third each; to stereo, each side two thirds with a third of the
    /// center; to 4.0, that stereo mix front and back; to any other layout,
    /// left, right and center as they are, the rest silent.
    pub fn to<const N: usize>(self, third: Chan, two_thirds: Chan) -> (r: Frame<Chan, N>)
        requires
            N >= 1,
        ensures
            r@ == mix_from_3::<Chan>(self@, third.value(), two_thirds.value(), N as nat),
            N != 1 && N != 2 && N != 4 ==> {
                &&& r@[0] == self@[0]
                &&& r@[1] == self@[1]
                &&& r@[2] == self@[2]
                &&& forall|i: int| 3 <= i < N ==> r@[i] == 0
            },
    {
        let left = *self.get_ref(0);
        let right = *self.get_ref(1);
        let center = *self.get_ref(2);
        let mut frame = Frame::<Chan, N>::default();
        if N == 1 {
            let m = left.times(third).plus(right.times(third)).plus(center.times(third));
            *frame.get_mut(0) = m;
        } else if N == 2 || N == 4 {
            let a = left.times(two_thirds).plus(center.times(third));
            let b = right.times(two_thirds).plus(center.times(third));
            *frame.get_mut(0) = a;
            *frame.get_mut(1) = b;
            if N == 4 {
                *frame.get_mut(2) = a;
                *frame.get_mut(3) = b;
            }
        } else {
            *frame.get_mut(0) = left;
            *frame.get_mut(1) = right;
            *frame.get_mut(2) = center;
        }
        proof {
            Frame::<Chan, N>::lemma_view(frame);
        }
        assert(frame@ =~= mix_from_3::<Chan>(self@, third.value(), two_thirds.value(), N as nat));
        proof {
            law_mix_from_3::<Chan>(self@, third.value(), two_thirds.value(), N as nat);
        }
        frame
    }
}

/// The values of a surround 3.0 frame of values `v` converted to `n`
/// channels, with `t` and `tt` standing for one and two thirds.
pub open spec fn mix_from_3<Chan: Channel>(v: Seq<int>, t: int, tt: int, n: nat) -> Seq<int> {
    let silence = Seq::new(n, |i: int| 0int);
    let a = Chan::sum(Chan::prod(v[0], tt), Chan::prod(v[2], t));
    let b = Chan::sum(Chan::prod(v[1], tt), Chan::prod(v[2], t));
    if n == 1 {
        seq![Chan::sum(Chan::sum(Chan::prod(v[0], t), Chan::prod(v[1], t)), Chan::prod(v[2], t))]
    } else if n == 2 {
        seq![a, b]
    } else if n == 4 {
        seq![a, b, a, b]
    } else {
        silence.update(0, v[0]).update(1, v[1]).update(2, v[2])
    }
}

/// Converting a surround 3.0 frame: to one channel, the sum of each channel
/// weighted by a third; to two, each side weighted by two thirds plus the
/// center weighted by a third; to four, those two front and back; to any
/// other number of channels, left, right and center kept in the first three
/// channels and every other channel silent.
pub proof fn law_mix_from_3<Chan: Channel>(v: Seq<int>, t: int, tt: int, n: nat)
    requires
        v.len() == 3,
        n >= 1,
    ensures
        mix_from_3::<Chan>(v, t, tt, n).len() == n,
        n == 1 ==> mix_from_3::<Chan>(v, t, tt, n)[0] == Chan::sum(
            Chan::sum(Chan::prod(v[0], t), Chan::prod(v[1], t)),
            Chan::prod(v[2], t),
        ),
        n == 2 || n == 4 ==> {
            &&& mix_from_3::<Chan>(v, t, tt, n)[0] == Chan::sum(Chan::prod(v[0], tt), Chan::prod(v[2], t))
            &&& mix_from_3::<Chan>(v, t, tt, n)[1] == Chan::sum(Chan::prod(v[1], tt), Chan::prod(v[2], t))
        },
        n == 4 ==> {
            &&& mix_from_3::<Chan>(v, t, tt, n)[2] == mix_from_3::<Chan>(v, t, tt, n)[0]
            &&& mix_from_3::<Chan>(v, t, tt, n)[3] == mix_from_3::<Chan>(v, t, tt, n)[1]
        },
        n != 1 && n != 2 && n != 4 ==> {
            &&& mix_from_3::<Chan>(v, t, tt, n)[0] == v[0]
            &&& mix_from_3::<Chan>(v, t, tt, n)[1] == v[1]
            &&& mix_from_3::<Chan>(v, t, tt, n)[2] == v[2]
            &&& forall|i: int| 3 <= i < n ==> #[trigger] mix_from_3::<Chan>(v, t, tt, n)[i] == 0
        },
{
}

impl<Chan: Channel> Frame<Chan, 4> {
    /// Create a new surround 4.0 interleaved audio frame from channel(s).
    pub fn new(left: Chan, right: Chan, back_left: Chan, back_right: Chan) -> (r: Self)
        ensures
            r@ == seq![left.value(), right.value(), back_left.value(), back_right.value()],
    {
        let r = Frame([left, right, back_left, back_right]);
        assert(r@ =~= seq![left.value(), right.value(), back_left.value(), back_right.value()]);
        r
    }
}

impl<Chan: Channel> Frame<Chan, 5> {
    /// Create a new surround 5.0 interleaved audio frame from channel(s).
    pub fn new(left: Chan, right: Chan, center: Chan, back_left: Chan, back_right: Chan) -> (r: Self)
        ensures
            r@ == seq![left.value(), right.value(), center.value(), back_left.value(), back_right.value()],
    {
        let r = Frame([left, right, center, back_left, back_right]);
        assert(r@ =~= seq![left.value(), right.value(), center.value(), back_left.value(), back_right.value()]);
        r
    }
}

impl<Chan: Channel> Frame<Chan, 6> {
    /// Create a new surround 5.1 interleaved audio frame from channel(s).
    pub fn new(left: Chan, right: Chan, center: Chan, lfe: Chan, back_left: Chan, back_right: Chan) -> (r: Self)
        ensures
            r@ == seq![left.value(), right.value(), center.value(), lfe.value(), back_left.value(), back_right.value()],
    {
        let r = Frame([left, right, center, lfe, back_left, back_right]);
        assert(r@ =~= seq![left.value(), right.value(), center.value(), lfe.value(), back_left.value(), back_right.value()]);
        r
    }
}

impl<Chan: Channel> Frame<Chan, 7> {
    /// Create a new surround 6.1 interleaved audio frame from channel(s).
    pub fn new(left: Chan, right: Chan, center: Chan, lfe: Chan, back: Chan, side_left: Chan, side_right: Chan) -> (r: Self)
        ensures
            r@ == seq![left.value(), right.value(), center.value(), lfe.value(), back.value(), side_left.value(), side_right.value()],
    {
        let r = Frame([left, right, center, lfe, back, side_left, side_right]);
        assert(r@ =~= seq![left.value(), right.value(), center.value(), lfe.value(), back.value(), side_left.value(), side_right.value()]);
        r
    }
}

impl<Chan: Channel> Frame<Chan, 8> {
    /// Create a new surround 7.1 interleaved audio frame from channel(s).
    pub fn new(left: Chan, right: Chan, center: Chan, lfe: Chan, back_left: Chan, back_right: Chan, side_left: Chan, side_right: Chan) -> (r: Self)
        ensures
            r@ == seq![left.value(), right.value(), center.value(), lfe.value(), back_left.value(), back_right.value(), side_left.value(), side_right.value()],
    {
        let r = Frame([left, right, center, lfe, back_left, back_right, side_left, side_right]);
        assert(r@ =~= seq![left.value(), right.value(), center.value(), lfe.value(), back_left.value(), back_right.value(), side_left.value(), side_right.value()]);
        r
    }
}

} // verus!
