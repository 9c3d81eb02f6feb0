//! Collectibles: each one picked up unlocks the next ability.

use crate::physics::{overlaps, spec_overlaps};
use crate::player::{Player, Position};
use crate::timer::{advance, finished, spec_advance, spec_finished};
use bevy::time::Timer;
use std::time::Duration;
use vstd::prelude::*;

verus! {

/// How long the words over the player's head take to fade.
pub const FADE_OUT_MILLIS: u32 = 5000;

/// What a collectible unlocks.
#[derive(Clone, Copy, Debug, PartialEq, Eq, Structural)]
pub enum Reward {
    DoubleJump,
    WallClimbing,
    GrapplingHook,
    TrialComplete,
    Nothing,
}

/// The first collectible unlocks the double jump, the second the climbing of
/// walls, the third the hook, and the fourth ends the trial.
pub open spec fn spec_reward(progression: u8) -> Reward {
    if progression == 1 {
        Reward::DoubleJump
    } else if progression == 2 {
        Reward::WallClimbing
    } else if progression == 3 {
        Reward::GrapplingHook
    } else if progression == 4 {
        Reward::TrialComplete
    } else {
        Reward::Nothing
    }
}

/// The reward for the collectible that brought the player to `progression`.
pub fn reward(progression: u8) -> (out: Reward)
    ensures
        out == spec_reward(progression),
{
    match progression {
        1 => Reward::DoubleJump,
        2 => Reward::WallClimbing,
        3 => Reward::GrapplingHook,
        4 => Reward::TrialComplete,
        _ => Reward::Nothing,
    }
}

impl Reward {
    pub open spec fn spec_find_text(self) -> Seq<char> {
        match self {
            Reward::DoubleJump => "You unlocked Double Jump!\nJump midair to gain extra height!"@,
            Reward::WallClimbing => "You unlocked wall climbing!\nHug walls to cling and jump off!"@,
            Reward::GrapplingHook => "You unlocked the Grappling Hook!\nPress J to grapple!"@,
            Reward::TrialComplete => "The scientists have deemed you too \n valuable for a test subject. \n\nYou will remain in containment indefinitely \n Trial complete."@,
            Reward::Nothing => ""@,
        }
    }

    /// The words that tell the player of the reward.
    pub fn find_text(self) -> (out: &'static str)
        ensures
            out@ == self.spec_find_text(),
    {
        match self {
            Reward::DoubleJump => "You unlocked Double Jump!\nJump midair to gain extra height!",
            Reward::WallClimbing => "You unlocked wall climbing!\nHug walls to cling and jump off!",
            Reward::GrapplingHook => "You unlocked the Grappling Hook!\nPress J to grapple!",
            Reward::TrialComplete => "The scientists have deemed you too \n valuable for a test subject. \n\nYou will remain in containment indefinitely \n Trial complete.",
            Reward::Nothing => "",
        }
    }
}

/// Where the words of a reward are shown.
#[derive(Clone, Copy, Debug, PartialEq, Eq, Structural)]
pub enum Announcement {
    /// Over the player's head, moving along and fading out after
    /// [`FADE_OUT_MILLIS`].
    OverPlayer,
    /// In the containment room, to which the player is moved for good.
    Ending,
}

/// Up to the third collectible the words go with the player; from the fourth
/// on the player is put away.
pub open spec fn spec_announcement(progression: u8) -> Announcement {
    if progression <= 3 {
        Announcement::OverPlayer
    } else {
        Announcement::Ending
    }
}

impl Announcement {
    pub open spec fn spec_font_size(self) -> u32 {
        match self {
            Announcement::OverPlayer => 30,
            Announcement::Ending => 10,
        }
    }

    /// The size of the letters.
    pub fn font_size(self) -> (out: u32)
        ensures
            out == self.spec_font_size(),
    {
        match self {
            Announcement::OverPlayer => 30,
            Announcement::Ending => 10,
        }
    }

    /// Over the player the place is counted from the player, in the
    /// containment room from the origin of the world.
    pub open spec fn spec_text_position(self) -> Position {
        match self {
            Announcement::OverPlayer => Position { x: 0, y: 70, z: 5 },
            Announcement::Ending => Position { x: 463, y: -1012i32, z: 5 },
        }
    }

    /// Where the words stand.
    pub fn text_position(self) -> (out: Position)
        ensures
            out == self.spec_text_position(),
    {
        match self {
            Announcement::OverPlayer => Position { x: 0, y: 70, z: 5 },
            Announcement::Ending => Position { x: 463, y: -1012, z: 5 },
        }
    }

    /// Where the player is put, at rest, when the words appear.
    pub open spec fn spec_player_position(self) -> Option<Position> {
        match self {
            Announcement::OverPlayer => None,
            Announcement::Ending => Some(Position { x: 463, y: -1072i32, z: 10 }),
        }
    }

    /// Where the player is put when the words appear, if anywhere.
    pub fn player_position(self) -> (out: Option<Position>)
        ensures
            out == self.spec_player_position(),
    {
        match self {
            Announcement::OverPlayer => None,
            Announcement::Ending => Some(Position { x: 463, y: -1072, z: 10 }),
        }
    }
}

/// One collectible taken by the player.
#[derive(Clone, Copy, Debug, PartialEq, Eq, Structural)]
pub struct Pickup {
    /// Which of the collectibles it was, counted as they were handed in.
    pub collectible: usize,
    /// The player's progression with this collectible.
    pub progression: u8,
    pub reward: Reward,
    pub announcement: Announcement,
}

/// The number of collectibles that the player overlaps.
pub open spec fn spec_touch_count(contacts: Seq<Option<bool>>) -> nat
    decreases contacts.len(),
{
    if contacts.len() == 0 {
        0
    } else {
        spec_touch_count(contacts.drop_last()) + if spec_overlaps(contacts.last()) {
            1nat
        } else {
            0nat
        }
    }
}

pub open spec fn spec_pickup(collectible: int, progression: int) -> Pickup {
    Pickup {
        collectible: collectible as usize,
        progression: progression as u8,
        reward: spec_reward(progression as u8),
        announcement: spec_announcement(progression as u8),
    }
}

/// The pickups of a frame: one for each collectible that the player overlaps,
/// in the order of the collectibles, each one step further in the
/// progression than the one before.
pub open spec fn spec_collect(contacts: Seq<Option<bool>>, progression: u8) -> Seq<Pickup>
    decreases contacts.len(),
{
    if contacts.len() == 0 {
        Seq::empty()
    } else {
        let before = spec_collect(contacts.drop_last(), progression);
        if spec_overlaps(contacts.last()) {
            before.push(spec_pickup(contacts.len() - 1, progression + before.len() + 1))
        } else {
            before
        }
    }
}

/// A part of the collectibles from the first on holds no more overlaps than all of
/// them.
pub proof fn lemma_touch_count_prefix(contacts: Seq<Option<bool>>, n: int)
    requires
        0 <= n <= contacts.len(),
    ensures
        spec_touch_count(contacts.take(n)) <= spec_touch_count(contacts),
    decreases contacts.len() - n,
{
    if n < contacts.len() {
        lemma_touch_count_prefix(contacts, n + 1);
        assert(contacts.take(n + 1).drop_last() =~= contacts.take(n));
    } else {
        assert(contacts.take(n) =~= contacts);
    }
}

/// There are as many pickups as overlaps.
pub proof fn lemma_collect_len(contacts: Seq<Option<bool>>, progression: u8)
    ensures
        spec_collect(contacts, progression).len() == spec_touch_count(contacts),
    decreases contacts.len(),
{
    if contacts.len() > 0 {
        lemma_collect_len(contacts.drop_last(), progression);
    }
}

/// The pickups come in the order of the collectibles, each names a
/// collectible that the player overlaps, and the progression goes up by one
/// from each to the next.
pub proof fn lemma_collect_in_order(contacts: Seq<Option<bool>>, progression: u8)
    requires
        contacts.len() <= usize::MAX,
        progression + spec_touch_count(contacts) <= u8::MAX,
    ensures
        forall|k: int|
            0 <= k < spec_collect(contacts, progression).len() ==> {
                let pickup = #[trigger] spec_collect(contacts, progression)[k];
                &&& pickup.collectible < contacts.len()
                &&& spec_overlaps(contacts[pickup.collectible as int])
                &&& pickup.progression == progression + k + 1
            },
        forall|j: int, k: int|
            0 <= j < k < spec_collect(contacts, progression).len() ==> (
            #[trigger] spec_collect(contacts, progression)[j]).collectible < (
            #[trigger] spec_collect(contacts, progression)[k]).collectible,
    decreases contacts.len(),
{
    if contacts.len() > 0 {
        let shorter = contacts.drop_last();
        let before = spec_collect(shorter, progression);
        lemma_collect_in_order(shorter, progression);
        lemma_collect_len(shorter, progression);
        let all = spec_collect(contacts, progression);
        assert forall|k: int| 0 <= k < all.len() implies {
            let pickup = #[trigger] all[k];
            &&& pickup.collectible < contacts.len()
            &&& spec_overlaps(contacts[pickup.collectible as int])
            &&& pickup.progression == progression + k + 1
        } by {
            if k < before.len() {
                assert(all[k] == before[k]);
                assert(shorter[before[k].collectible as int] == contacts[before[k].collectible as int]);
            }
        }
        assert forall|j: int, k: int| 0 <= j < k < all.len() implies (#[trigger] all[j]).collectible
            < (#[trigger] all[k]).collectible by {
            assert(all[j] == before[j]);
            if k < before.len() {
                assert(all[k] == before[k]);
            }
        }
    }
}

/// No collectible that the player overlaps is left out.
pub proof fn lemma_collect_misses_none(contacts: Seq<Option<bool>>, progression: u8, i: int)
    requires
        contacts.len() <= usize::MAX,
        0 <= i < contacts.len(),
        spec_overlaps(contacts[i]),
    ensures
        exists|k: int|
            0 <= k < spec_collect(contacts, progression).len() && (#[trigger] spec_collect(
                contacts,
                progression,
            )[k]).collectible == i,
    decreases contacts.len(),
{
    let all = spec_collect(contacts, progression);
    let shorter = contacts.drop_last();
    let before = spec_collect(shorter, progression);
    if i == contacts.len() - 1 {
        assert(all[before.len() as int].collectible == i);
    } else {
        lemma_collect_misses_none(shorter, progression, i);
        let k = choose|k: int| 0 <= k < before.len() && (#[trigger] before[k]).collectible == i;
        assert(all[k] == before[k]);
    }
}

/// Counts the collectibles that the player overlaps.
pub fn touch_count(contacts: &Vec<Option<bool>>) -> (out: usize)
    ensures
        out == spec_touch_count(contacts@),
{
    let mut count: usize = 0;
    let mut i: usize = 0;
    while i < contacts.len()
        invariant
            i <= contacts.len(),
            count <= i,
            count == spec_touch_count(contacts@.take(i as int)),
        decreases contacts.len() - i,
    {
        assert(contacts@.take(i + 1).drop_last() =~= contacts@.take(i as int));
        if overlaps(contacts[i]) {
            count = count + 1;
        }
        i = i + 1;
    }
    assert(contacts@.take(i as int) =~= contacts@);
    count
}

/// Takes every collectible that the player overlaps.
///
/// `contacts` holds, for each collectible there is, what the physics engine
/// says of it and the player.
pub fn collect_collectible(player: &mut Player, contacts: &Vec<Option<bool>>) -> (out: Vec<Pickup>)
    requires
        old(player).progression + spec_touch_count(contacts@) <= u8::MAX,
    ensures
        out@ == spec_collect(contacts@, old(player).progression),
        final(player).progression == old(player).progression + spec_touch_count(contacts@),
        final(player).double_jumped == old(player).double_jumped,
{
    let ghost start = player.progression;
    let mut out: Vec<Pickup> = Vec::new();
    let mut i: usize = 0;
    while i < contacts.len()
        invariant
            i <= contacts.len(),
            start + spec_touch_count(contacts@) <= u8::MAX,
            out@ == spec_collect(contacts@.take(i as int), start),
            player.progression == start + spec_touch_count(contacts@.take(i as int)),
            player.double_jumped == old(player).double_jumped,
        decreases contacts.len() - i,
    {
        proof {
            assert(contacts@.take(i + 1).drop_last() =~= contacts@.take(i as int));
            lemma_touch_count_prefix(contacts@, i + 1);
            lemma_collect_len(contacts@.take(i as int), start);
        }
        if overlaps(contacts[i]) {
            player.progression = player.progression + 1;
            out.push(
                Pickup {
                    collectible: i,
                    progression: player.progression,
                    reward: reward(player.progression),
                    announcement: if player.progression <= 3 {
                        Announcement::OverPlayer
                    } else {
                        Announcement::Ending
                    },
                },
            );
        }
        i = i + 1;
    }
    assert(contacts@.take(i as int) =~= contacts@);
    out
}

/// Runs the fading of the words over the player's head for a frame of
/// `delta`. The words are taken away when the answer is `true`: the time of
/// the fading is over.
pub fn handle_text_fade(timer: &mut Timer, delta: Duration) -> (out: bool)
    ensures
        *final(timer) == spec_advance(*old(timer), delta),
        out == spec_finished(*final(timer)),
{
    advance(timer, delta);
    finished(timer)
}

} // verus!
