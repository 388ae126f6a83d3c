//! The huge slime, a boss: it growls, then hops toward the player, now and
//! then summoning slimes around the player, and grows fiercer once half its
//! life is gone.
use vstd::prelude::*;

verus! {

/// The life a huge slime starts with.
pub const HUGE_SLIME_LIFE: u32 = 4000;

/// Below this life the huge slime is promoted.
pub const HUGE_SLIME_PROMOTE_LIFE: u32 = 2000;

#[derive(Clone, Copy, Debug, PartialEq, Eq, Structural)]
pub enum HugeSlimeState {
    Growl,
    Approach,
    Summon,
    Promote,
}

/// The boss's behaviour state; the frame counter is kept beside it.
#[derive(Clone, Copy, Debug, PartialEq, Eq, Structural)]
pub struct HugeSlime {
    pub state: HugeSlimeState,
    pub promoted: bool,
}

/// What the boss does this frame.
#[derive(Clone, Copy, Debug, PartialEq, Eq, Structural)]
pub struct HugeSlimeActions {
    /// It growls.
    pub growl: bool,
    /// It jumps toward the player (or straight up when there is none).
    pub jump: bool,
    /// The number of slimes it summons around the player.
    pub summon: u32,
    /// The music turns to the final battle's.
    pub sacred_bgm: bool,
    /// It has been defeated: it leaves its shape behind and the defeat
    /// scenario plays.
    pub defeated: bool,
}

/// Whether `t` divides `count`.
pub open spec fn divides(t: int, count: int) -> bool {
    count % t == 0
}

/// The boss's state, counter and actions after one frame.
pub open spec fn slime_frame(
    s: HugeSlime,
    count: i32,
    life: u32,
    player: bool,
) -> (HugeSlime, i32, HugeSlimeActions) {
    // growling
    let (st1, c1, growl1) = if s.state == HugeSlimeState::Growl {
        if count == 120 {
            (s.state, count, true)
        } else if 300 <= count {
            (HugeSlimeState::Approach, 0i32, false)
        } else {
            (s.state, count, false)
        }
    } else {
        (s.state, count, false)
    };
    // approaching
    let timespan: int = if s.promoted { 35 } else { 60 };
    let jump = st1 == HugeSlimeState::Approach && divides(timespan, c1 as int);
    let (st2, c2) = if st1 == HugeSlimeState::Approach && c1 == 360 {
        (HugeSlimeState::Summon, 0i32)
    } else {
        (st1, c1)
    };
    // summoning
    let summon: u32 = if st2 == HugeSlimeState::Summon && player && c2 == 60 {
        if s.promoted { 32 } else { 4 }
    } else {
        0
    };
    let (st3, c3) = if st2 == HugeSlimeState::Summon && 120 <= c2 {
        (HugeSlimeState::Approach, 0i32)
    } else {
        (st2, c2)
    };
    // roaring after promotion
    let (st4, c4, growl4, bgm) = if st3 == HugeSlimeState::Promote {
        if c3 == 120 {
            (st3, c3, true, true)
        } else if 300 <= c3 {
            (HugeSlimeState::Approach, 0i32, false, false)
        } else {
            (st3, c3, false, false)
        }
    } else {
        (st3, c3, false, false)
    };
    // promotion
    let (st5, c5, promoted) = if !s.promoted && life < HUGE_SLIME_PROMOTE_LIFE {
        (HugeSlimeState::Promote, 0i32, true)
    } else {
        (st4, c4, s.promoted)
    };
    (
        HugeSlime { state: st5, promoted },
        c5,
        HugeSlimeActions {
            growl: growl1 || growl4,
            jump,
            summon,
            sacred_bgm: bgm,
            defeated: life == 0 && player,
        },
    )
}

/// Whether `t` (positive) divides `count`.
fn divisible(count: i32, t: u32) -> (r: bool)
    requires
        0 < t,
    ensures
        r == divides(t as int, count as int),
{
    let magnitude: u32 = if count < 0 {
        (0 - (count as i64)) as u32
    } else {
        count as u32
    };
    proof {
        let c = count as int;
        let m = magnitude as int;
        let tt = t as int;
        assert(m == if c < 0 { -c } else { c });
        if c < 0 {
            assert(((-c) % tt == 0) == (c % tt == 0)) by (nonlinear_arith)
                requires
                    tt > 0,
                    c < 0,
            {
                let q = (-c) / tt;
                let r = (-c) % tt;
                assert(-c == q * tt + r);
                assert(c == (-q) * tt - r);
                if r == 0 {
                    assert(c == (-q) * tt);
                    assert(c % tt == 0);
                } else {
                    assert(c == (-q - 1) * tt + (tt - r));
                    assert(0 < tt - r < tt);
                    assert(c % tt == tt - r);
                }
            }
        }
    }
    magnitude % t == 0
}

impl HugeSlime {
    /// A boss that has just appeared: growling, not yet promoted.
    pub fn new() -> (r: HugeSlime)
        ensures
            r.state == HugeSlimeState::Growl,
            !r.promoted,
    {
        HugeSlime { state: HugeSlimeState::Growl, promoted: false }
    }

    /// One frame of the boss, with its frame counter `count`, its life and
    /// whether a player is around: the growl ends after 300 frames; while
    /// approaching it jumps every 60 frames (35 once promoted) and turns
    /// to summoning at 360; summoning, 60 frames in, calls 4 slimes around
    /// a present player (32 once promoted) and goes back to approaching at
    /// 120; promoted, it roars at 120 frames and approaches at 300; and
    /// the first time its life drops below 2000 it is promoted. The
    /// counter restarts at zero with every change of state.
    pub fn update(&mut self, count: &mut i32, life: u32, player: bool) -> (r: HugeSlimeActions)
        ensures
            (*final(self), *final(count), r) == slime_frame(*old(self), *old(count), life, player),
    {
        let c0 = *count;
        // growling
        let mut growl = false;
        if self.state == HugeSlimeState::Growl {
            if *count == 120 {
                growl = true;
            } else if 300 <= *count {
                self.state = HugeSlimeState::Approach;
                *count = 0;
            }
        }
        // approaching
        let timespan: u32 = if self.promoted {
            35
        } else {
            60
        };
        let mut jump = false;
        if self.state == HugeSlimeState::Approach {
            if divisible(*count, timespan) {
                jump = true;
            }
            if *count == 360 {
                self.state = HugeSlimeState::Summon;
                *count = 0;
            }
        }
        // summoning
        let mut summon: u32 = 0;
        if self.state == HugeSlimeState::Summon {
            if player && *count == 60 {
                summon = if self.promoted {
                    32
                } else {
                    4
                };
            }
            if 120 <= *count {
                *count = 0;
                self.state = HugeSlimeState::Approach;
            }
        }
        // roaring after promotion
        let mut bgm = false;
        if self.state == HugeSlimeState::Promote {
            if *count == 120 {
                growl = true;
                bgm = true;
            } else if 300 <= *count {
                self.state = HugeSlimeState::Approach;
                *count = 0;
            }
        }
        // promotion
        if !self.promoted && life < HUGE_SLIME_PROMOTE_LIFE {
            self.state = HugeSlimeState::Promote;
            *count = 0;
            self.promoted = true;
        }
        HugeSlimeActions { growl, jump, summon, sacred_bgm: bgm, defeated: life == 0 && player }
    }
}

/// Promotion is for good, and comes as soon as the boss's life drops below
/// 2000: after any frame a promoted boss stays promoted, and a boss below
/// 2000 life is promoted.
pub proof fn lemma_promotion_sticks(s: HugeSlime, count: i32, life: u32, player: bool)
    ensures
        s.promoted ==> slime_frame(s, count, life, player).0.promoted,
        life < HUGE_SLIME_PROMOTE_LIFE ==> slime_frame(s, count, life, player).0.promoted,
{
}

/// The boss summons either no slime, four, or thirty-two once promoted, and
/// only with a player around.
pub proof fn lemma_summon_sizes(s: HugeSlime, count: i32, life: u32, player: bool)
    ensures
        ({
            let n = slime_frame(s, count, life, player).2.summon;
            &&& n == 0 || n == 4 || n == 32
            &&& n == 32 ==> s.promoted
            &&& n == 4 ==> !s.promoted
            &&& n != 0 ==> player
        }),
{
}

/// The frame counter never goes below zero: a counter that starts at zero
/// or above stays there through a frame.
pub proof fn lemma_counter_nonnegative(s: HugeSlime, count: i32, life: u32, player: bool)
    requires
        0 <= count,
    ensures
        0 <= slime_frame(s, count, life, player).1,
{
}


/// The boss acts on cue: growling, it growls at frame 120 and starts
/// approaching at 300; approaching, it jumps on every multiple of 60
/// frames (35 once promoted) and starts summoning at 360; summoning, it
/// calls four slimes at frame 60 (thirty-two once promoted) when a player
/// is around; and a boss with no life left is defeated when a player is
/// around.
pub proof fn lemma_slime_acts_on_cue(s: HugeSlime, count: i32, life: u32, player: bool)
    requires
        s.promoted || HUGE_SLIME_PROMOTE_LIFE <= life,
    ensures
        ({
            let (s2, c2, a) = slime_frame(s, count, life, player);
            &&& s.state == HugeSlimeState::Growl && count == 120 ==> a.growl && s2.state
                == HugeSlimeState::Growl
            &&& s.state == HugeSlimeState::Growl && 300 <= count ==> s2.state
                == HugeSlimeState::Approach && c2 == 0 && !a.growl
            &&& s.state == HugeSlimeState::Approach ==> (a.jump <==> (count as int) % (if s.promoted {
                35int
            } else {
                60int
            }) == 0)
            &&& s.state == HugeSlimeState::Approach && count == 360 ==> s2.state
                == HugeSlimeState::Summon && c2 == 0
            &&& s.state == HugeSlimeState::Summon && count == 60 && player ==> a.summon == (if s.promoted {
                32u32
            } else {
                4u32
            })
            &&& s.state != HugeSlimeState::Summon ==> a.summon == 0
            &&& s.state == HugeSlimeState::Summon && 120 <= count ==> s2.state
                == HugeSlimeState::Approach && c2 == 0
            &&& s.state == HugeSlimeState::Promote && count == 120 ==> a.growl && a.sacred_bgm
            &&& s.state == HugeSlimeState::Promote && 300 <= count ==> s2.state
                == HugeSlimeState::Approach && c2 == 0
            &&& a.defeated <==> (life == 0 && player)
        }),
{
}

} // verus!
