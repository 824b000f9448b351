//! Speaker/channel positions within a speaker configuration.
//!
//! A position indexes a frame of the speaker configuration that has it:
//! `frame[Left]` is the left channel of a stereo frame.
use crate::chan::Channel;
use crate::frame::Frame;
use vstd::prelude::*;

verus! {

/// All directions
///  - Mono
#[derive(Copy, Clone, Debug)]
pub struct Mono;

/// Side Left (90 degrees left)
///  - Stereo
///  - 3.0
///  - 6.1
///  - 7.1
#[derive(Copy, Clone, Debug)]
pub struct Left;

/// Side Right (90 degrees right)
///  - Stereo
///  - 3.0
///  - 6.1
///  - 7.1
#[derive(Copy, Clone, Debug)]
pub struct Right;

/// Center (0/180 degrees left/right)
///  - 3.0
#[derive(Copy, Clone, Debug)]
pub struct Center;

/// Front Center (0 degrees left/right)
///  - 5.0
///  - 5.1
///  - 6.1
///  - 7.1
#[derive(Copy, Clone, Debug)]
pub struct Front;

/// Front Left (30 degrees left)
///  - 3.0
///  - 4.0
///  - 5.0
///  - 5.1
///  - 6.1
///  - 7.1
#[derive(Copy, Clone, Debug)]
pub struct FrontL;

/// Front Right (30 degrees right)
///  - 3.0
///  - 4.0
///  - 5.0
///  - 5.1
///  - 6.1
///  - 7.1
#[derive(Copy, Clone, Debug)]
pub struct FrontR;

/// Left Surround (110 degrees left)
///  - 4.0
///  - 5.0
///  - 5.1
#[derive(Copy, Clone, Debug)]
pub struct SurroundL;

/// Right Surround (110 degrees right)
///  - 4.0
///  - 5.0
///  - 5.1
#[derive(Copy, Clone, Debug)]
pub struct SurroundR;

/// Low frequency effects (unimportant direction)
///  - 5.1
///  - 6.1
///  - 7.1
#[derive(Copy, Clone, Debug)]
pub struct Lfe;

/// Back (180 degrees left/right)
///  - 6.1
#[derive(Copy, Clone, Debug)]
pub struct Back;

/// Back Left (150 degrees left)
///  - 7.1
#[derive(Copy, Clone, Debug)]
pub struct BackL;

/// Back Right (150 degrees right)
///  - 7.1
#[derive(Copy, Clone, Debug)]
pub struct BackR;

impl<C: Channel> std::ops::Index<Mono> for Frame<C, 1> {
    type Output = C;

    fn index(&self, _pos: Mono) -> (r: &C)
        ensures
            r.value() == self@[0],
    {
        self.get_ref(0)
    }
}

impl<C: Channel> vstd::std_specs::core::IndexSpecImpl<Mono> for Frame<C, 1> {
    open spec fn index_req(&self, index: &Mono) -> bool {
        true
    }
}

impl<C: Channel> std::ops::IndexMut<Mono> for Frame<C, 1> {
    fn index_mut(&mut self, _pos: Mono) -> (r: &mut C)
        ensures
            r.value() == old(self)@[0],
            final(self)@ == old(self)@.update(0, final(r).value()),
    {
        self.get_mut(0)
    }
}

impl<C: Channel> std::ops::Index<Left> for Frame<C, 2> {
    type Output = C;

    fn index(&self, _pos: Left) -> (r: &C)
        ensures
            r.value() == self@[0],
    {
        self.get_ref(0)
    }
}

impl<C: Channel> vstd::std_specs::core::IndexSpecImpl<Left> for Frame<C, 2> {
    open spec fn index_req(&self, index: &Left) -> bool {
        true
    }
}

impl<C: Channel> std::ops::IndexMut<Left> for Frame<C, 2> {
    fn index_mut(&mut self, _pos: Left) -> (r: &mut C)
        ensures
            r.value() == old(self)@[0],
            final(self)@ == old(self)@.update(0, final(r).value()),
    {
        self.get_mut(0)
    }
}

impl<C: Channel> std::ops::Index<Right> for Frame<C, 2> {
    type Output = C;

    fn index(&self, _pos: Right) -> (r: &C)
        ensures
            r.value() == self@[1],
    {
        self.get_ref(1)
    }
}

impl<C: Channel> vstd::std_specs::core::IndexSpecImpl<Right> for Frame<C, 2> {
    open spec fn index_req(&self, index: &Right) -> bool {
        true
    }
}

impl<C: Channel> std::ops::IndexMut<Right> for Frame<C, 2> {
    fn index_mut(&mut self, _pos: Right) -> (r: &mut C)
        ensures
            r.value() == old(self)@[1],
            final(self)@ == old(self)@.update(1, final(r).value()),
    {
        self.get_mut(1)
    }
}

impl<C: Channel> std::ops::Index<Left> for Frame<C, 3> {
    type Output = C;

    fn index(&self, _pos: Left) -> (r: &C)
        ensures
            r.value() == self@[0],
    {
        self.get_ref(0)
    }
}

impl<C: Channel> vstd::std_specs::core::IndexSpecImpl<Left> for Frame<C, 3> {
    open spec fn index_req(&self, index: &Left) -> bool {
        true
    }
}

impl<C: Channel> std::ops::IndexMut<Left> for Frame<C, 3> {
    fn index_mut(&mut self, _pos: Left) -> (r: &mut C)
        ensures
            r.value() == old(self)@[0],
            final(self)@ == old(self)@.update(0, final(r).value()),
    {
        self.get_mut(0)
    }
}

impl<C: Channel> std::ops::Index<Right> for Frame<C, 3> {
    type Output = C;

    fn index(&self, _pos: Right) -> (r: &C)
        ensures
            r.value() == self@[1],
    {
        self.get_ref(1)
    }
}

impl<C: Channel> vstd::std_specs::core::IndexSpecImpl<Right> for Frame<C, 3> {
    open spec fn index_req(&self, index: &Right) -> bool {
        true
    }
}

impl<C: Channel> std::ops::IndexMut<Right> for Frame<C, 3> {
    fn index_mut(&mut self, _pos: Right) -> (r: &mut C)
        ensures
            r.value() == old(self)@[1],
            final(self)@ == old(self)@.update(1, final(r).value()),
    {
        self.get_mut(1)
    }
}

impl<C: Channel> std::ops::Index<Center> for Frame<C, 3> {
    type Output = C;

    fn index(&self, _pos: Center) -> (r: &C)
        ensures
            r.value() == self@[2],
    {
        self.get_ref(2)
    }
}

impl<C: Channel> vstd::std_specs::core::IndexSpecImpl<Center> for Frame<C, 3> {
    open spec fn index_req(&self, index: &Center) -> bool {
        true
    }
}

impl<C: Channel> std::ops::IndexMut<Center> for Frame<C, 3> {
    fn index_mut(&mut self, _pos: Center) -> (r: &mut C)
        ensures
            r.value() == old(self)@[2],
            final(self)@ == old(self)@.update(2, final(r).value()),
    {
        self.get_mut(2)
    }
}

impl<C: Channel> std::ops::Index<FrontL> for Frame<C, 4> {
    type Output = C;

    fn index(&self, _pos: FrontL) -> (r: &C)
        ensures
            r.value() == self@[0],
    {
        self.get_ref(0)
    }
}

impl<C: Channel> vstd::std_specs::core::IndexSpecImpl<FrontL> for Frame<C, 4> {
    open spec fn index_req(&self, index: &FrontL) -> bool {
        true
    }
}

impl<C: Channel> std::ops::IndexMut<FrontL> for Frame<C, 4> {
    fn index_mut(&mut self, _pos: FrontL) -> (r: &mut C)
        ensures
            r.value() == old(self)@[0],
            final(self)@ == old(self)@.update(0, final(r).value()),
    {
        self.get_mut(0)
    }
}

impl<C: Channel> std::ops::Index<FrontR> for Frame<C, 4> {
    type Output = C;

    fn index(&self, _pos: FrontR) -> (r: &C)
        ensures
            r.value() == self@[1],
    {
        self.get_ref(1)
    }
}

impl<C: Channel> vstd::std_specs::core::IndexSpecImpl<FrontR> for Frame<C, 4> {
    open spec fn index_req(&self, index: &FrontR) -> bool {
        true
    }
}

impl<C: Channel> std::ops::IndexMut<FrontR> for Frame<C, 4> {
    fn index_mut(&mut self, _pos: FrontR) -> (r: &mut C)
        ensures
            r.value() == old(self)@[1],
            final(self)@ == old(self)@.update(1, final(r).value()),
    {
        self.get_mut(1)
    }
}

impl<C: Channel> std::ops::Index<SurroundL> for Frame<C, 4> {
    type Output = C;

    fn index(&self, _pos: SurroundL) -> (r: &C)
        ensures
            r.value() == self@[2],
    {
        self.get_ref(2)
    }
}

impl<C: Channel> vstd::std_specs::core::IndexSpecImpl<SurroundL> for Frame<C, 4> {
    open spec fn index_req(&self, index: &SurroundL) -> bool {
        true
    }
}

impl<C: Channel> std::ops::IndexMut<SurroundL> for Frame<C, 4> {
    fn index_mut(&mut self, _pos: SurroundL) -> (r: &mut C)
        ensures
            r.value() == old(self)@[2],
            final(self)@ == old(self)@.update(2, final(r).value()),
    {
        self.get_mut(2)
    }
}

impl<C: Channel> std::ops::Index<SurroundR> for Frame<C, 4> {
    type Output = C;

    fn index(&self, _pos: SurroundR) -> (r: &C)
        ensures
            r.value() == self@[3],
    {
        self.get_ref(3)
    }
}

impl<C: Channel> vstd::std_specs::core::IndexSpecImpl<SurroundR> for Frame<C, 4> {
    open spec fn index_req(&self, index: &SurroundR) -> bool {
        true
    }
}

impl<C: Channel> std::ops::IndexMut<SurroundR> for Frame<C, 4> {
    fn index_mut(&mut self, _pos: SurroundR) -> (r: &mut C)
        ensures
            r.value() == old(self)@[3],
            final(self)@ == old(self)@.update(3, final(r).value()),
    {
        self.get_mut(3)
    }
}

impl<C: Channel> std::ops::Index<FrontL> for Frame<C, 5> {
    type Output = C;

    fn index(&self, _pos: FrontL) -> (r: &C)
        ensures
            r.value() == self@[0],
    {
        self.get_ref(0)
    }
}

impl<C: Channel> vstd::std_specs::core::IndexSpecImpl<FrontL> for Frame<C, 5> {
    open spec fn index_req(&self, index: &FrontL) -> bool {
        true
    }
}

impl<C: Channel> std::ops::IndexMut<FrontL> for Frame<C, 5> {
    fn index_mut(&mut self, _pos: FrontL) -> (r: &mut C)
        ensures
            r.value() == old(self)@[0],
            final(self)@ == old(self)@.update(0, final(r).value()),
    {
        self.get_mut(0)
    }
}

impl<C: Channel> std::ops::Index<FrontR> for Frame<C, 5> {
    type Output = C;

    fn index(&self, _pos: FrontR) -> (r: &C)
        ensures
            r.value() == self@[1],
    {
        self.get_ref(1)
    }
}

impl<C: Channel> vstd::std_specs::core::IndexSpecImpl<FrontR> for Frame<C, 5> {
    open spec fn index_req(&self, index: &FrontR) -> bool {
        true
    }
}

impl<C: Channel> std::ops::IndexMut<FrontR> for Frame<C, 5> {
    fn index_mut(&mut self, _pos: FrontR) -> (r: &mut C)
        ensures
            r.value() == old(self)@[1],
            final(self)@ == old(self)@.update(1, final(r).value()),
    {
        self.get_mut(1)
    }
}

impl<C: Channel> std::ops::Index<Front> for Frame<C, 5> {
    type Output = C;

    fn index(&self, _pos: Front) -> (r: &C)
        ensures
            r.value() == self@[2],
    {
        self.get_ref(2)
    }
}

impl<C: Channel> vstd::std_specs::core::IndexSpecImpl<Front> for Frame<C, 5> {
    open spec fn index_req(&self, index: &Front) -> bool {
        true
    }
}

impl<C: Channel> std::ops::IndexMut<Front> for Frame<C, 5> {
    fn index_mut(&mut self, _pos: Front) -> (r: &mut C)
        ensures
            r.value() == old(self)@[2],
            final(self)@ == old(self)@.update(2, final(r).value()),
    {
        self.get_mut(2)
    }
}

impl<C: Channel> std::ops::Index<SurroundL> for Frame<C, 5> {
    type Output = C;

    fn index(&self, _pos: SurroundL) -> (r: &C)
        ensures
            r.value() == self@[3],
    {
        self.get_ref(3)
    }
}

impl<C: Channel> vstd::std_specs::core::IndexSpecImpl<SurroundL> for Frame<C, 5> {
    open spec fn index_req(&self, index: &SurroundL) -> bool {
        true
    }
}

impl<C: Channel> std::ops::IndexMut<SurroundL> for Frame<C, 5> {
    fn index_mut(&mut self, _pos: SurroundL) -> (r: &mut C)
        ensures
            r.value() == old(self)@[3],
            final(self)@ == old(self)@.update(3, final(r).value()),
    {
        self.get_mut(3)
    }
}

impl<C: Channel> std::ops::Index<SurroundR> for Frame<C, 5> {
    type Output = C;

    fn index(&self, _pos: SurroundR) -> (r: &C)
        ensures
            r.value() == self@[4],
    {
        self.get_ref(4)
    }
}

impl<C: Channel> vstd::std_specs::core::IndexSpecImpl<SurroundR> for Frame<C, 5> {
    open spec fn index_req(&self, index: &SurroundR) -> bool {
        true
    }
}

impl<C: Channel> std::ops::IndexMut<SurroundR> for Frame<C, 5> {
    fn index_mut(&mut self, _pos: SurroundR) -> (r: &mut C)
        ensures
            r.value() == old(self)@[4],
            final(self)@ == old(self)@.update(4, final(r).value()),
    {
        self.get_mut(4)
    }
}

impl<C: Channel> std::ops::Index<FrontL> for Frame<C, 6> {
    type Output = C;

    fn index(&self, _pos: FrontL) -> (r: &C)
        ensures
            r.value() == self@[0],
    {
        self.get_ref(0)
    }
}

impl<C: Channel> vstd::std_specs::core::IndexSpecImpl<FrontL> for Frame<C, 6> {
    open spec fn index_req(&self, index: &FrontL) -> bool {
        true
    }
}

impl<C: Channel> std::ops::IndexMut<FrontL> for Frame<C, 6> {
    fn index_mut(&mut self, _pos: FrontL) -> (r: &mut C)
        ensures
            r.value() == old(self)@[0],
            final(self)@ == old(self)@.update(0, final(r).value()),
    {
        self.get_mut(0)
    }
}

impl<C: Channel> std::ops::Index<FrontR> for Frame<C, 6> {
    type Output = C;

    fn index(&self, _pos: FrontR) -> (r: &C)
        ensures
            r.value() == self@[1],
    {
        self.get_ref(1)
    }
}

impl<C: Channel> vstd::std_specs::core::IndexSpecImpl<FrontR> for Frame<C, 6> {
    open spec fn index_req(&self, index: &FrontR) -> bool {
        true
    }
}

impl<C: Channel> std::ops::IndexMut<FrontR> for Frame<C, 6> {
    fn index_mut(&mut self, _pos: FrontR) -> (r: &mut C)
        ensures
            r.value() == old(self)@[1],
            final(self)@ == old(self)@.update(1, final(r).value()),
    {
        self.get_mut(1)
    }
}

impl<C: Channel> std::ops::Index<Front> for Frame<C, 6> {
    type Output = C;

    fn index(&self, _pos: Front) -> (r: &C)
        ensures
            r.value() == self@[2],
    {
        self.get_ref(2)
    }
}

impl<C: Channel> vstd::std_specs::core::IndexSpecImpl<Front> for Frame<C, 6> {
    open spec fn index_req(&self, index: &Front) -> bool {
        true
    }
}

impl<C: Channel> std::ops::IndexMut<Front> for Frame<C, 6> {
    fn index_mut(&mut self, _pos: Front) -> (r: &mut C)
        ensures
            r.value() == old(self)@[2],
            final(self)@ == old(self)@.update(2, final(r).value()),
    {
        self.get_mut(2)
    }
}

impl<C: Channel> std::ops::Index<Lfe> for Frame<C, 6> {
    type Output = C;

    fn index(&self, _pos: Lfe) -> (r: &C)
        ensures
            r.value() == self@[3],
    {
        self.get_ref(3)
    }
}

impl<C: Channel> vstd::std_specs::core::IndexSpecImpl<Lfe> for Frame<C, 6> {
    open spec fn index_req(&self, index: &Lfe) -> bool {
        true
    }
}

impl<C: Channel> std::ops::IndexMut<Lfe> for Frame<C, 6> {
    fn index_mut(&mut self, _pos: Lfe) -> (r: &mut C)
        ensures
            r.value() == old(self)@[3],
            final(self)@ == old(self)@.update(3, final(r).value()),
    {
        self.get_mut(3)
    }
}

impl<C: Channel> std::ops::Index<SurroundL> for Frame<C, 6> {
    type Output = C;

    fn index(&self, _pos: SurroundL) -> (r: &C)
        ensures
            r.value() == self@[4],
    {
        self.get_ref(4)
    }
}

impl<C: Channel> vstd::std_specs::core::IndexSpecImpl<SurroundL> for Frame<C, 6> {
    open spec fn index_req(&self, index: &SurroundL) -> bool {
        true
    }
}

impl<C: Channel> std::ops::IndexMut<SurroundL> for Frame<C, 6> {
    fn index_mut(&mut self, _pos: SurroundL) -> (r: &mut C)
        ensures
            r.value() == old(self)@[4],
            final(self)@ == old(self)@.update(4, final(r).value()),
    {
        self.get_mut(4)
    }
}

impl<C: Channel> std::ops::Index<SurroundR> for Frame<C, 6> {
    type Output = C;

    fn index(&self, _pos: SurroundR) -> (r: &C)
        ensures
            r.value() == self@[5],
    {
        self.get_ref(5)
    }
}

impl<C: Channel> vstd::std_specs::core::IndexSpecImpl<SurroundR> for Frame<C, 6> {
    open spec fn index_req(&self, index: &SurroundR) -> bool {
        true
    }
}

impl<C: Channel> std::ops::IndexMut<SurroundR> for Frame<C, 6> {
    fn index_mut(&mut self, _pos: SurroundR) -> (r: &mut C)
        ensures
            r.value() == old(self)@[5],
            final(self)@ == old(self)@.update(5, final(r).value()),
    {
        self.get_mut(5)
    }
}

impl<C: Channel> std::ops::Index<FrontL> for Frame<C, 7> {
    type Output = C;

    fn index(&self, _pos: FrontL) -> (r: &C)
        ensures
            r.value() == self@[0],
    {
        self.get_ref(0)
    }
}

impl<C: Channel> vstd::std_specs::core::IndexSpecImpl<FrontL> for Frame<C, 7> {
    open spec fn index_req(&self, index: &FrontL) -> bool {
        true
    }
}

impl<C: Channel> std::ops::IndexMut<FrontL> for Frame<C, 7> {
    fn index_mut(&mut self, _pos: FrontL) -> (r: &mut C)
        ensures
            r.value() == old(self)@[0],
            final(self)@ == old(self)@.update(0, final(r).value()),
    {
        self.get_mut(0)
    }
}

impl<C: Channel> std::ops::Index<FrontR> for Frame<C, 7> {
    type Output = C;

    fn index(&self, _pos: FrontR) -> (r: &C)
        ensures
            r.value() == self@[1],
    {
        self.get_ref(1)
    }
}

impl<C: Channel> vstd::std_specs::core::IndexSpecImpl<FrontR> for Frame<C, 7> {
    open spec fn index_req(&self, index: &FrontR) -> bool {
        true
    }
}

impl<C: Channel> std::ops::IndexMut<FrontR> for Frame<C, 7> {
    fn index_mut(&mut self, _pos: FrontR) -> (r: &mut C)
        ensures
            r.value() == old(self)@[1],
            final(self)@ == old(self)@.update(1, final(r).value()),
    {
        self.get_mut(1)
    }
}

impl<C: Channel> std::ops::Index<Front> for Frame<C, 7> {
    type Output = C;

    fn index(&self, _pos: Front) -> (r: &C)
        ensures
            r.value() == self@[2],
    {
        self.get_ref(2)
    }
}

impl<C: Channel> vstd::std_specs::core::IndexSpecImpl<Front> for Frame<C, 7> {
    open spec fn index_req(&self, index: &Front) -> bool {
        true
    }
}

impl<C: Channel> std::ops::IndexMut<Front> for Frame<C, 7> {
    fn index_mut(&mut self, _pos: Front) -> (r: &mut C)
        ensures
            r.value() == old(self)@[2],
            final(self)@ == old(self)@.update(2, final(r).value()),
    {
        self.get_mut(2)
    }
}

impl<C: Channel> std::ops::Index<Lfe> for Frame<C, 7> {
    type Output = C;

    fn index(&self, _pos: Lfe) -> (r: &C)
        ensures
            r.value() == self@[3],
    {
        self.get_ref(3)
    }
}

impl<C: Channel> vstd::std_specs::core::IndexSpecImpl<Lfe> for Frame<C, 7> {
    open spec fn index_req(&self, index: &Lfe) -> bool {
        true
    }
}

impl<C: Channel> std::ops::IndexMut<Lfe> for Frame<C, 7> {
    fn index_mut(&mut self, _pos: Lfe) -> (r: &mut C)
        ensures
            r.value() == old(self)@[3],
            final(self)@ == old(self)@.update(3, final(r).value()),
    {
        self.get_mut(3)
    }
}

impl<C: Channel> std::ops::Index<Back> for Frame<C, 7> {
    type Output = C;

    fn index(&self, _pos: Back) -> (r: &C)
        ensures
            r.value() == self@[4],
    {
        self.get_ref(4)
    }
}

impl<C: Channel> vstd::std_specs::core::IndexSpecImpl<Back> for Frame<C, 7> {
    open spec fn index_req(&self, index: &Back) -> bool {
        true
    }
}

impl<C: Channel> std::ops::IndexMut<Back> for Frame<C, 7> {
    fn index_mut(&mut self, _pos: Back) -> (r: &mut C)
        ensures
            r.value() == old(self)@[4],
            final(self)@ == old(self)@.update(4, final(r).value()),
    {
        self.get_mut(4)
    }
}

impl<C: Channel> std::ops::Index<Left> for Frame<C, 7> {
    type Output = C;

    fn index(&self, _pos: Left) -> (r: &C)
        ensures
            r.value() == self@[5],
    {
        self.get_ref(5)
    }
}

impl<C: Channel> vstd::std_specs::core::IndexSpecImpl<Left> for Frame<C, 7> {
    open spec fn index_req(&self, index: &Left) -> bool {
        true
    }
}

impl<C: Channel> std::ops::IndexMut<Left> for Frame<C, 7> {
    fn index_mut(&mut self, _pos: Left) -> (r: &mut C)
        ensures
            r.value() == old(self)@[5],
            final(self)@ == old(self)@.update(5, final(r).value()),
    {
        self.get_mut(5)
    }
}

impl<C: Channel> std::ops::Index<Right> for Frame<C, 7> {
    type Output = C;

    fn index(&self, _pos: Right) -> (r: &C)
        ensures
            r.value() == self@[6],
    {
        self.get_ref(6)
    }
}

impl<C: Channel> vstd::std_specs::core::IndexSpecImpl<Right> for Frame<C, 7> {
    open spec fn index_req(&self, index: &Right) -> bool {
        true
    }
}

impl<C: Channel> std::ops::IndexMut<Right> for Frame<C, 7> {
    fn index_mut(&mut self, _pos: Right) -> (r: &mut C)
        ensures
            r.value() == old(self)@[6],
            final(self)@ == old(self)@.update(6, final(r).value()),
    {
        self.get_mut(6)
    }
}

impl<C: Channel> std::ops::Index<FrontL> for Frame<C, 8> {
    type Output = C;

    fn index(&self, _pos: FrontL) -> (r: &C)
        ensures
            r.value() == self@[0],
    {
        self.get_ref(0)
    }
}

impl<C: Channel> vstd::std_specs::core::IndexSpecImpl<FrontL> for Frame<C, 8> {
    open spec fn index_req(&self, index: &FrontL) -> bool {
        true
    }
}

impl<C: Channel> std::ops::IndexMut<FrontL> for Frame<C, 8> {
    fn index_mut(&mut self, _pos: FrontL) -> (r: &mut C)
        ensures
            r.value() == old(self)@[0],
            final(self)@ == old(self)@.update(0, final(r).value()),
    {
        self.get_mut(0)
    }
}

impl<C: Channel> std::ops::Index<FrontR> for Frame<C, 8> {
    type Output = C;

    fn index(&self, _pos: FrontR) -> (r: &C)
        ensures
            r.value() == self@[1],
    {
        self.get_ref(1)
    }
}

impl<C: Channel> vstd::std_specs::core::IndexSpecImpl<FrontR> for Frame<C, 8> {
    open spec fn index_req(&self, index: &FrontR) -> bool {
        true
    }
}

impl<C: Channel> std::ops::IndexMut<FrontR> for Frame<C, 8> {
    fn index_mut(&mut self, _pos: FrontR) -> (r: &mut C)
        ensures
            r.value() == old(self)@[1],
            final(self)@ == old(self)@.update(1, final(r).value()),
    {
        self.get_mut(1)
    }
}

impl<C: Channel> std::ops::Index<Front> for Frame<C, 8> {
    type Output = C;

    fn index(&self, _pos: Front) -> (r: &C)
        ensures
            r.value() == self@[2],
    {
        self.get_ref(2)
    }
}

impl<C: Channel> vstd::std_specs::core::IndexSpecImpl<Front> for Frame<C, 8> {
    open spec fn index_req(&self, index: &Front) -> bool {
        true
    }
}

impl<C: Channel> std::ops::IndexMut<Front> for Frame<C, 8> {
    fn index_mut(&mut self, _pos: Front) -> (r: &mut C)
        ensures
            r.value() == old(self)@[2],
            final(self)@ == old(self)@.update(2, final(r).value()),
    {
        self.get_mut(2)
    }
}

impl<C: Channel> std::ops::Index<Lfe> for Frame<C, 8> {
    type Output = C;

    fn index(&self, _pos: Lfe) -> (r: &C)
        ensures
            r.value() == self@[3],
    {
        self.get_ref(3)
    }
}

impl<C: Channel> vstd::std_specs::core::IndexSpecImpl<Lfe> for Frame<C, 8> {
    open spec fn index_req(&self, index: &Lfe) -> bool {
        true
    }
}

impl<C: Channel> std::ops::IndexMut<Lfe> for Frame<C, 8> {
    fn index_mut(&mut self, _pos: Lfe) -> (r: &mut C)
        ensures
            r.value() == old(self)@[3],
            final(self)@ == old(self)@.update(3, final(r).value()),
    {
        self.get_mut(3)
    }
}

impl<C: Channel> std::ops::Index<BackL> for Frame<C, 8> {
    type Output = C;

    fn index(&self, _pos: BackL) -> (r: &C)
        ensures
            r.value() == self@[4],
    {
        self.get_ref(4)
    }
}

impl<C: Channel> vstd::std_specs::core::IndexSpecImpl<BackL> for Frame<C, 8> {
    open spec fn index_req(&self, index: &BackL) -> bool {
        true
    }
}

impl<C: Channel> std::ops::IndexMut<BackL> for Frame<C, 8> {
    fn index_mut(&mut self, _pos: BackL) -> (r: &mut C)
        ensures
            r.value() == old(self)@[4],
            final(self)@ == old(self)@.update(4, final(r).value()),
    {
        self.get_mut(4)
    }
}

impl<C: Channel> std::ops::Index<BackR> for Frame<C, 8> {
    type Output = C;

    fn index(&self, _pos: BackR) -> (r: &C)
        ensures
            r.value() == self@[5],
    {
        self.get_ref(5)
    }
}

impl<C: Channel> vstd::std_specs::core::IndexSpecImpl<BackR> for Frame<C, 8> {
    open spec fn index_req(&self, index: &BackR) -> bool {
        true
    }
}

impl<C: Channel> std::ops::IndexMut<BackR> for Frame<C, 8> {
    fn index_mut(&mut self, _pos: BackR) -> (r: &mut C)
        ensures
            r.value() == old(self)@[5],
            final(self)@ == old(self)@.update(5, final(r).value()),
    {
        self.get_mut(5)
    }
}

impl<C: Channel> std::ops::Index<Left> for Frame<C, 8> {
    type Output = C;

    fn index(&self, _pos: Left) -> (r: &C)
        ensures
            r.value() == self@[6],
    {
        self.get_ref(6)
    }
}

impl<C: Channel> vstd::std_specs::core::IndexSpecImpl<Left> for Frame<C, 8> {
    open spec fn index_req(&self, index: &Left) -> bool {
        true
    }
}

impl<C: Channel> std::ops::IndexMut<Left> for Frame<C, 8> {
    fn index_mut(&mut self, _pos: Left) -> (r: &mut C)
        ensures
            r.value() == old(self)@[6],
            final(self)@ == old(self)@.update(6, final(r).value()),
    {
        self.get_mut(6)
    }
}

impl<C: Channel> std::ops::Index<Right> for Frame<C, 8> {
    type Output = C;

    fn index(&self, _pos: Right) -> (r: &C)
        ensures
            r.value() == self@[7],
    {
        self.get_ref(7)
    }
}

impl<C: Channel> vstd::std_specs::core::IndexSpecImpl<Right> for Frame<C, 8> {
    open spec fn index_req(&self, index: &Right) -> bool {
        true
    }
}

impl<C: Channel> std::ops::IndexMut<Right> for Frame<C, 8> {
    fn index_mut(&mut self, _pos: Right) -> (r: &mut C)
        ensures
            r.value() == old(self)@[7],
            final(self)@ == old(self)@.update(7, final(r).value()),
    {
        self.get_mut(7)
    }
}

} // verus!
