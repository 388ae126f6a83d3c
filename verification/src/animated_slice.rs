//! Sprites that cycle through a list of pictures.
use vstd::prelude::*;

verus! {

/// A sprite cycling through `slices`, showing each for `wait` frames.
pub struct AnimatedSlice {
    pub slices: Vec<String>,
    pub wait: u32,
}

/// The picture shown at a frame: the frame count divided by the wait,
/// modulo the number of pictures.
pub open spec fn frame_index_spec(frame: u32, wait: u32, len: nat) -> int {
    ((frame / wait) as int) % (len as int)
}

impl AnimatedSlice {
    /// The picture shown at the given frame (see `frame_index_spec`).
    pub fn update(&self, frame: u32) -> (r: String)
        requires
            0 < self.wait,
            0 < self.slices@.len() <= u32::MAX,
        ensures
            r@ == self.slices@[frame_index_spec(frame, self.wait, self.slices@.len())]@,
    {
        let len = self.slices.len() as u32;
        let index = (frame / self.wait) % len;
        self.slices[index as usize].clone()
    }
}


/// The pictures cycle: the index is always a picture of the list, the
/// first `wait` frames show the first picture, every `wait` frames the
/// next picture comes (the first again after the last), and the whole
/// cycle takes `wait` times the number of pictures.
pub proof fn lemma_pictures_cycle(frame: u32, wait: u32, len: nat)
    requires
        0 < wait,
        0 < len,
    ensures
        0 <= frame_index_spec(frame, wait, len) < len,
        frame < wait ==> frame_index_spec(frame, wait, len) == 0,
        frame + wait <= u32::MAX ==> frame_index_spec((frame + wait) as u32, wait, len) == (
        frame_index_spec(frame, wait, len) + 1) % (len as int),
        frame + wait * len <= u32::MAX ==> frame_index_spec((frame + wait * len) as u32, wait, len)
            == frame_index_spec(frame, wait, len),
{
    let q = (frame / wait) as int;
    let l = len as int;
    if frame < wait {
        assert(frame / wait == 0) by (nonlinear_arith)
            requires
                frame < wait,
        ;
        assert(0int % l == 0);
    }
    assert(0 <= q % l < l) by (nonlinear_arith)
        requires
            0 < l,
            0 <= q,
    ;
    if frame + wait <= u32::MAX {
        let f2 = (frame + wait) as u32;
        assert((f2 / wait) as int == q + 1) by (nonlinear_arith)
            requires
                f2 == frame + wait,
                q == frame / wait,
                0 < wait,
        {
            assert(frame == wait * q + frame % wait);
            assert(f2 == wait * (q + 1) + frame % wait);
        }
        assert((q + 1) % l == (q % l + 1) % l) by (nonlinear_arith)
            requires
                0 < l,
                0 <= q,
        {
            assert(q == l * (q / l) + q % l);
            assert(q + 1 == l * (q / l) + (q % l + 1));
            vstd::arithmetic::div_mod::lemma_mod_add_multiples_vanish((q % l + 1) as int, l);
            vstd::arithmetic::div_mod::lemma_mul_mod_noop_left(q / l, l, l);
            vstd::arithmetic::div_mod::lemma_add_mod_noop(l * (q / l), q % l + 1, l);
            vstd::arithmetic::div_mod::lemma_mod_multiples_basic(q / l, l);
        }
    }
    if frame + wait * len <= u32::MAX {
        let f3 = (frame + wait * len) as u32;
        assert((f3 / wait) as int == q + l) by (nonlinear_arith)
            requires
                f3 == frame + wait * l,
                q == frame / wait,
                0 < wait,
        {
            assert(frame == wait * q + frame % wait);
            assert(f3 == wait * (q + l) + frame % wait);
        }
        assert((q + l) % l == q % l) by {
            vstd::arithmetic::div_mod::lemma_mod_add_multiples_vanish(q, l);
        }
    }
}

} // verus!
