//! Life of breakable things and of creatures whose life is kept apart from
//! their actor.
use vstd::prelude::*;
use crate::status::hit_fits;
use crate::status::life_after;
use crate::status::take_damage;

verus! {

/// The life of a breakable thing. It is not removed when its life runs
/// out; its owner decides what happens then.
#[derive(Clone, Copy, Debug, PartialEq, Eq, Structural)]
pub struct Life {
    pub life: u32,
    pub max_life: u32,
    /// Frames before fire can hurt it again.
    pub fire_damage_wait: u32,
}

impl Life {
    /// Full life of the given amount.
    pub fn new(life: u32) -> (r: Life)
        ensures
            r.life == life,
            r.max_life == life,
            r.fire_damage_wait == 0,
    {
        Life { life, max_life: life, fire_damage_wait: 0 }
    }

    /// A hit of `damage`, with `roll` the random number that sets how long
    /// fire leaves it alone. A hit of zero does nothing. When the life
    /// belongs to an actor, `staggered` is its stagger: an actor made
    /// invincible while staggered takes no damage then; otherwise the
    /// damage is taken off (stopping at zero) and the stagger added (up to
    /// 120). A burn makes fire wait sixty frames plus `roll` modulo sixty.
    /// Returns the actor's new stagger.
    pub fn apply_damage(
        &mut self,
        damage: u32,
        stagger: u32,
        fire: bool,
        roll: u32,
        staggered: Option<u32>,
        invincibility_on_staggered: bool,
    ) -> (r: Option<u32>)
        requires
            hit_fits(old(self).life, damage),
        ensures
            damage == 0 ==> *final(self) == *old(self) && r == staggered,
            0 < damage ==> {
                let hurt = match staggered {
                    Some(s) => s == 0 || !invincibility_on_staggered,
                    None => true,
                };
                &&& final(self).life == (if hurt {
                    life_after(old(self).life, damage)
                } else {
                    old(self).life
                })
                &&& r == (match staggered {
                    Some(s) => Some(if hurt {
                        if s + stagger < 120 {
                            (s + stagger) as u32
                        } else {
                            120u32
                        }
                    } else {
                        s
                    }),
                    None => None,
                })
                &&& final(self).fire_damage_wait == (if fire {
                    (60 + roll % 60) as u32
                } else {
                    old(self).fire_damage_wait
                })
                &&& final(self).max_life == old(self).max_life
            },
            *final(self) == (Life {
                life: final(self).life,
                fire_damage_wait: final(self).fire_damage_wait,
                ..*old(self)
            }),
    {
        if damage == 0 {
            return staggered;
        }
        let mut result = staggered;
        match staggered {
            Some(s) => {
                if s == 0 || !invincibility_on_staggered {
                    self.life = take_damage(self.life, damage);
                    let total: u64 = s as u64 + stagger as u64;
                    result = Some(
                        if total < 120 {
                            total as u32
                        } else {
                            120
                        },
                    );
                }
            },
            None => {
                self.life = take_damage(self.life, damage);
            },
        }
        if fire {
            self.fire_damage_wait = 60 + roll % 60;
        }
        result
    }
}

/// A servant whose master is gone dies: its life drops to zero.
pub fn despawn_if_no_master(life: u32, master_exists: bool) -> (r: u32)
    ensures
        r == (if master_exists { life } else { 0 }),
{
    if master_exists {
        life
    } else {
        0
    }
}

} // verus!
