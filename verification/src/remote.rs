//! Online play: the frames since another player was last heard from, and
//! what its messages do.
use vstd::prelude::*;
use crate::actor::ActorGroup;
use crate::spell::ActorType;

verus! {

/// A frame count read as a signed 32-bit number.
pub open spec fn as_signed(x: u32) -> int {
    if x <= 0x7FFF_FFFF {
        x as int
    } else {
        x - 0x1_0000_0000
    }
}

/// Frames between two frame counts, each read as a signed 32-bit number.
pub fn frames_since(frame: u32, last: u32) -> (r: i32)
    requires
        i32::MIN <= as_signed(frame) - as_signed(last) <= i32::MAX,
    ensures
        r == as_signed(frame) - as_signed(last),
{
    let a: i64 = if frame <= 0x7FFF_FFFF {
        frame as i64
    } else {
        frame as i64 - 0x1_0000_0000
    };
    let b: i64 = if last <= 0x7FFF_FFFF {
        last as i64
    } else {
        last as i64 - 0x1_0000_0000
    };
    (a - b) as i32
}

/// A remote player not heard from for more than 120 frames is dropped.
pub fn despawn_no_contact_remotes(frame: u32, last_update: u32) -> (r: bool)
    requires
        i32::MIN <= as_signed(frame) - as_signed(last_update) <= i32::MAX,
    ensures
        r == (120 < as_signed(frame) - as_signed(last_update)),
{
    120 < frames_since(frame, last_update)
}

/// The player tells the others where it is when it has moved or more than
/// 60 frames have passed since it last did; only in the arena, while
/// connected and alive. (The engine then records the frame and the
/// position sent.)
pub fn send_player_states(in_arena_online: bool, life: u32, frame: u32, last_frame: u32, moved: bool) -> (r:
    bool)
    requires
        i32::MIN <= as_signed(frame) - as_signed(last_frame) <= i32::MAX,
    ensures
        r == (in_arena_online && 0 < life && (60 < as_signed(frame) - as_signed(last_frame)
            || moved)),
{
    if !in_arena_online || life == 0 {
        return false;
    }
    60 < frames_since(frame, last_frame) || moved
}

/// A remote hit: the damage (which may be negative) comes off the life,
/// read as a signed 32-bit number, and the result stops at zero.
pub fn apply_hit(life: u32, damage: i32) -> (r: u32)
    requires
        i32::MIN <= as_signed(life) - damage <= i32::MAX,
    ensures
        r == (if as_signed(life) - damage < 0 {
            0
        } else {
            as_signed(life) - damage
        }),
{
    let l: i64 = if life <= 0x7FFF_FFFF {
        life as i64
    } else {
        life as i64 - 0x1_0000_0000
    };
    let v: i64 = l - damage as i64;
    if v < 0 {
        0
    } else {
        v as u32
    }
}

/// The golds scattered where a remote player falls.
pub const PLAYER_DEFEAT_BONUS: u32 = 100;

/// Another player in the arena, as this client knows it: who it is, its
/// golds, life and maximum life, and the frame it was last heard from.
#[derive(Debug)]
pub struct RemotePlayer {
    pub uuid: u128,
    pub name: String,
    pub golds: u32,
    pub life: u32,
    pub max_life: u32,
    pub last_update: u32,
}

/// A message from another client. Positions, velocities, the pointer and
/// the bullets' own fields travel with the engine's copy of the message.
#[derive(Debug)]
pub enum RemoteMessage {
    /// Where a player is and how it fares.
    Position { sender: u128, uuid: u128, name: String, golds: u32, life: u32, max_life: u32 },
    /// A bullet was fired.
    Fire,
    /// A servant seed was thrown.
    ServantSeed { actor_group: ActorGroup, servant_type: ActorType },
    /// A player took damage.
    Hit { sender: u128, uuid: u128, damage: i32 },
    /// A player fell.
    Die { sender: u128, uuid: u128 },
}

/// What the engine does for a message, beside the changes made to the
/// remote players.
#[derive(Debug, PartialEq, Eq)]
pub enum RemoteAction {
    /// Nothing: the message names no known player.
    Ignored,
    /// The player at this index moved: set its position, velocity and
    /// pointer from the message.
    Moved(usize),
    /// The player at this index was hurt; its life is already updated.
    Hurt(usize),
    /// Spawn the bullet that the message carries.
    SpawnBullet,
    /// Play the cry at the player at this index, despawn it and scatter
    /// the given number of golds where it stood.
    Defeated { index: usize, golds: u32 },
    /// Throw a servant seed.
    SpawnSeed { actor_group: ActorGroup, servant_type: ActorType },
}

/// `i` is the first index of a player with the given identifier.
pub open spec fn is_first_with(s: Seq<RemotePlayer>, uuid: u128, i: int) -> bool {
    &&& 0 <= i < s.len()
    &&& s[i].uuid == uuid
    &&& forall|j: int| 0 <= j < i ==> (#[trigger] s[j]).uuid != uuid
}

/// No player has the given identifier.
pub open spec fn none_with(s: Seq<RemotePlayer>, uuid: u128) -> bool {
    forall|j: int| 0 <= j < s.len() ==> (#[trigger] s[j]).uuid != uuid
}

/// The index of the first player with the given identifier, where there
/// is one.
pub open spec fn first_index(s: Seq<RemotePlayer>, uuid: u128) -> int {
    choose|i: int| is_first_with(s, uuid, i)
}

/// The first index is the only one that is first.
pub proof fn lemma_first_index(s: Seq<RemotePlayer>, uuid: u128, i: int)
    requires
        is_first_with(s, uuid, i),
    ensures
        first_index(s, uuid) == i,
{
    let j = first_index(s, uuid);
    assert(is_first_with(s, uuid, j));
    if j < i {
        assert(s[j].uuid != uuid);
    } else if i < j {
        assert(s[i].uuid != uuid);
    }
}

/// Where some player has the identifier, a first one has it.
pub proof fn lemma_first_exists(s: Seq<RemotePlayer>, uuid: u128, k: int)
    requires
        0 <= k < s.len(),
        s[k].uuid == uuid,
    ensures
        is_first_with(s, uuid, first_index(s, uuid)),
    decreases k,
{
    if forall|j: int| 0 <= j < k ==> (#[trigger] s[j]).uuid != uuid {
        assert(is_first_with(s, uuid, k));
    } else {
        let j = choose|j: int| 0 <= j < k && (#[trigger] s[j]).uuid == uuid;
        lemma_first_exists(s, uuid, j);
    }
}

/// The first player with the given identifier.
pub fn find_remote(remotes: &Vec<RemotePlayer>, uuid: u128) -> (r: Option<usize>)
    ensures
        match r {
            Some(i) => is_first_with(remotes@, uuid, i as int),
            None => none_with(remotes@, uuid),
        },
{
    let mut i: usize = 0;
    while i < remotes.len()
        invariant
            i <= remotes@.len(),
            forall|j: int| 0 <= j < i ==> (#[trigger] remotes@[j]).uuid != uuid,
        decreases remotes@.len() - i,
    {
        if remotes[i].uuid == uuid {
            return Some(i);
        }
        i = i + 1;
    }
    None
}

/// A message can be handled: a position names a known player (a new
/// player is not spawned from a message), and the damage of a hit on a
/// known player leaves a life that fits in a signed 32-bit number.
pub open spec fn handles(s: Seq<RemotePlayer>, m: RemoteMessage) -> bool {
    match m {
        RemoteMessage::Position { uuid, .. } => !none_with(s, uuid),
        RemoteMessage::Hit { uuid, damage, .. } => !none_with(s, uuid) ==> i32::MIN <= as_signed(
            s[first_index(s, uuid)].life,
        ) - damage <= i32::MAX,
        _ => true,
    }
}

/// The life left after a remote hit.
pub open spec fn life_after_hit(life: u32, damage: i32) -> int {
    if as_signed(life) - damage < 0 {
        0
    } else {
        as_signed(life) - damage
    }
}

/// What a message does to the known players, and what the engine is
/// asked to do: a position or a hit updates the first player with its
/// identifier and marks it heard from at this frame; a fall asks for that
/// player's defeat, whose despawning the engine carries out after the
/// frame; a hit or a fall naming nobody known is ignored.
pub open spec fn receive_step(s: Seq<RemotePlayer>, m: RemoteMessage, frame: u32) -> (Seq<
    RemotePlayer,
>, RemoteAction) {
    match m {
        RemoteMessage::Position { uuid, golds, life, max_life, .. } => {
            let i = first_index(s, uuid);
            (
                s.update(i, RemotePlayer { golds, life, max_life, last_update: frame, ..s[i] }),
                RemoteAction::Moved(i as usize),
            )
        },
        RemoteMessage::Fire => (s, RemoteAction::SpawnBullet),
        RemoteMessage::ServantSeed { actor_group, servant_type } => (
            s,
            RemoteAction::SpawnSeed { actor_group, servant_type },
        ),
        RemoteMessage::Hit { uuid, damage, .. } => if none_with(s, uuid) {
            (s, RemoteAction::Ignored)
        } else {
            let i = first_index(s, uuid);
            (
                s.update(
                    i,
                    RemotePlayer {
                        life: life_after_hit(s[i].life, damage) as u32,
                        last_update: frame,
                        ..s[i]
                    },
                ),
                RemoteAction::Hurt(i as usize),
            )
        },
        RemoteMessage::Die { uuid, .. } => if none_with(s, uuid) {
            (s, RemoteAction::Ignored)
        } else {
            (
                s,
                RemoteAction::Defeated {
                    index: first_index(s, uuid) as usize,
                    golds: PLAYER_DEFEAT_BONUS,
                },
            )
        },
    }
}

/// Handles one message from another client (see `receive_step`).
pub fn receive_message(remotes: &mut Vec<RemotePlayer>, message: &RemoteMessage, frame: u32) -> (r:
    RemoteAction)
    requires
        handles(old(remotes)@, *message),
    ensures
        (final(remotes)@, r) == receive_step(old(remotes)@, *message, frame),
{
    match message {
        RemoteMessage::Position { sender: _, uuid, name: _, golds, life, max_life } => {
            match find_remote(remotes, *uuid) {
                Some(i) => {
                    let ghost s = remotes@;
                    proof {
                        lemma_first_index(s, *uuid, i as int);
                    }
                    let mut p = remotes.remove(i);
                    p.golds = *golds;
                    p.life = *life;
                    p.max_life = *max_life;
                    p.last_update = frame;
                    remotes.insert(i, p);
                    assert(remotes@ =~= s.update(i as int, p));
                    RemoteAction::Moved(i)
                },
                None => {
                    assert(false);
                    RemoteAction::Ignored
                },
            }
        },
        RemoteMessage::Fire => RemoteAction::SpawnBullet,
        RemoteMessage::ServantSeed { actor_group, servant_type } => {
            RemoteAction::SpawnSeed { actor_group: *actor_group, servant_type: servant_type.clone() }
        },
        RemoteMessage::Hit { sender: _, uuid, damage } => {
            match find_remote(remotes, *uuid) {
                Some(i) => {
                    let ghost s = remotes@;
                    proof {
                        lemma_first_index(s, *uuid, i as int);
                    }
                    let mut p = remotes.remove(i);
                    p.life = apply_hit(p.life, *damage);
                    p.last_update = frame;
                    remotes.insert(i, p);
                    assert(remotes@ =~= s.update(i as int, p));
                    RemoteAction::Hurt(i)
                },
                None => RemoteAction::Ignored,
            }
        },
        RemoteMessage::Die { sender: _, uuid } => {
            match find_remote(remotes, *uuid) {
                Some(i) => {
                    proof {
                        lemma_first_index(remotes@, *uuid, i as int);
                    }
                    RemoteAction::Defeated { index: i, golds: PLAYER_DEFEAT_BONUS }
                },
                None => RemoteAction::Ignored,
            }
        },
    }
}

/// The players and the actions after a run of messages, taken in order.
pub open spec fn receive_all(s: Seq<RemotePlayer>, ms: Seq<RemoteMessage>, frame: u32) -> (Seq<
    RemotePlayer,
>, Seq<RemoteAction>)
    decreases ms.len(),
{
    if ms.len() == 0 {
        (s, Seq::empty())
    } else {
        let (s1, acts) = receive_all(s, ms.drop_last(), frame);
        let (s2, a) = receive_step(s1, ms.last(), frame);
        (s2, acts.push(a))
    }
}

/// Every message of the run can be handled when its turn comes.
pub open spec fn handles_all(s: Seq<RemotePlayer>, ms: Seq<RemoteMessage>, frame: u32) -> bool
    decreases ms.len(),
{
    ms.len() == 0 || (handles_all(s, ms.drop_last(), frame) && handles(
        receive_all(s, ms.drop_last(), frame).0,
        ms.last(),
    ))
}

/// Handles the messages that arrived during a frame, in order, and gives
/// the engine's action for each.
pub fn receive_events(remotes: &mut Vec<RemotePlayer>, messages: &Vec<RemoteMessage>, frame: u32) -> (r:
    Vec<RemoteAction>)
    requires
        handles_all(old(remotes)@, messages@, frame),
    ensures
        (final(remotes)@, r@) == receive_all(old(remotes)@, messages@, frame),
{
    let ghost s0 = remotes@;
    let mut actions: Vec<RemoteAction> = Vec::new();
    let mut i: usize = 0;
    while i < messages.len()
        invariant
            i <= messages@.len(),
            handles_all(s0, messages@, frame),
            (remotes@, actions@) == receive_all(s0, messages@.take(i as int), frame),
        decreases messages@.len() - i,
    {
        proof {
            let t = messages@.take(i as int + 1);
            assert(t.drop_last() =~= messages@.take(i as int));
            lemma_handles_prefix(s0, messages@, frame, i as int + 1);
        }
        let a = receive_message(remotes, &messages[i], frame);
        actions.push(a);
        i = i + 1;
    }
    assert(messages@.take(i as int) =~= messages@);
    actions
}

/// A run that can be handled can be handled up to any point.
pub proof fn lemma_handles_prefix(s: Seq<RemotePlayer>, ms: Seq<RemoteMessage>, frame: u32, n: int)
    requires
        handles_all(s, ms, frame),
        0 < n <= ms.len(),
    ensures
        handles(receive_all(s, ms.take(n - 1), frame).0, ms[n - 1]),
    decreases ms.len(),
{
    if n == ms.len() {
        assert(ms.take(n - 1) =~= ms.drop_last());
    } else {
        assert(ms.drop_last().take(n - 1) =~= ms.take(n - 1));
        lemma_handles_prefix(s, ms.drop_last(), frame, n);
    }
}

/// Messages never add nor remove a known player, nor change who it is:
/// players come and go only by the engine's spawning and despawning.
pub proof fn lemma_messages_keep_players(
    s: Seq<RemotePlayer>,
    ms: Seq<RemoteMessage>,
    frame: u32,
)
    requires
        handles_all(s, ms, frame),
    ensures
        receive_all(s, ms, frame).0.len() == s.len(),
        forall|i: int|
            0 <= i < s.len() ==> (#[trigger] receive_all(s, ms, frame).0[i]).uuid == s[i].uuid,
        receive_all(s, ms, frame).1.len() == ms.len(),
    decreases ms.len(),
{
    if ms.len() > 0 {
        lemma_messages_keep_players(s, ms.drop_last(), frame);
        let s1 = receive_all(s, ms.drop_last(), frame).0;
        let m = ms.last();
        match m {
            RemoteMessage::Position { uuid, .. } => {
                let k = choose|k: int| 0 <= k < s1.len() && (#[trigger] s1[k]).uuid == uuid;
                lemma_first_exists(s1, uuid, k);
            },
            RemoteMessage::Hit { uuid, .. } => {
                if !none_with(s1, uuid) {
                    let k = choose|k: int| 0 <= k < s1.len() && (#[trigger] s1[k]).uuid == uuid;
                    lemma_first_exists(s1, uuid, k);
                }
            },
            _ => {},
        }
        assert forall|i: int| 0 <= i < s.len() implies (#[trigger] receive_all(
            s,
            ms,
            frame,
        ).0[i]).uuid == s[i].uuid by {
            assert(s1[i].uuid == s[i].uuid);
        }
    }
}

/// Entering a level: the connection opens when the next level is the
/// arena and the current one is not.
pub fn on_enter(current_is_arena: bool, next_is_arena: bool) -> (r: bool)
    ensures
        r == (!current_is_arena && next_is_arena),
{
    !current_is_arena && next_is_arena
}

/// Leaving a level: the connection closes when the current level is the
/// arena and the next one is not.
pub fn on_exit(current_is_arena: bool, next_is_arena: bool) -> (r: bool)
    ensures
        r == (current_is_arena && !next_is_arena),
{
    current_is_arena && !next_is_arena
}

} // verus!
