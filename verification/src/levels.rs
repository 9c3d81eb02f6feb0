//! Levels: the level that the player walks into becomes the selected one,
//! and its music begins.

use crate::startup::LevelMusicMap;
use vstd::prelude::*;

verus! {

/// The volume of the music of a level, in hundredths.
pub const MUSIC_VOLUME_PERCENT: u32 = 80;

/// A level of the world, and whether the player stands within its bounds.
#[derive(Debug, PartialEq, Eq)]
pub struct LevelSighting {
    /// The id the level editor gave the level.
    pub iid: String,
    pub contains_player: bool,
}

/// The selection moves to a level.
#[derive(Debug, PartialEq, Eq)]
pub struct LevelChange {
    /// The level, counted as the levels were handed in.
    pub level: usize,
    /// The music that takes the place of the one playing, looped. Without
    /// one the music plays on.
    pub music: Option<String>,
}

/// A [`LevelChange`] as contracts speak of it.
pub struct LevelChangeView {
    pub level: usize,
    pub music: Option<Seq<char>>,
}

impl View for LevelChange {
    type V = LevelChangeView;

    open spec fn view(&self) -> LevelChangeView {
        LevelChangeView {
            level: self.level,
            music: match self.music {
                Some(track) => Some(track@),
                None => None,
            },
        }
    }
}

/// The changes of a frame as contracts speak of them.
pub open spec fn spec_changes(changes: Seq<LevelChange>) -> Seq<LevelChangeView> {
    Seq::new(changes.len(), |k: int| changes[k]@)
}

/// The id of the selected level, where a level is selected by its id.
pub open spec fn spec_selected(selected: Option<String>) -> Option<Seq<char>> {
    match selected {
        Some(iid) => Some(iid@),
        None => None,
    }
}

/// The selection moves to a level that holds the player and is not selected.
pub open spec fn spec_moves_to(selected: Option<Seq<char>>, level: LevelSighting) -> bool {
    level.contains_player && selected != Some(level.iid@)
}

/// The selection after the levels were gone through in their order.
pub open spec fn spec_selected_after(
    selected: Option<Seq<char>>,
    levels: Seq<LevelSighting>,
) -> Option<Seq<char>>
    decreases levels.len(),
{
    if levels.len() == 0 {
        selected
    } else {
        let before = spec_selected_after(selected, levels.drop_last());
        if spec_moves_to(before, levels.last()) {
            Some(levels.last().iid@)
        } else {
            before
        }
    }
}

pub open spec fn spec_music_of(music: Map<Seq<char>, Seq<char>>, iid: Seq<char>) -> Option<
    Seq<char>,
> {
    if music.dom().contains(iid) {
        Some(music[iid])
    } else {
        None
    }
}

/// The changes of the selection as the levels are gone through in their
/// order, each with the music of its level.
pub open spec fn spec_follow(
    selected: Option<Seq<char>>,
    levels: Seq<LevelSighting>,
    music: Map<Seq<char>, Seq<char>>,
) -> Seq<LevelChangeView>
    decreases levels.len(),
{
    if levels.len() == 0 {
        Seq::empty()
    } else {
        let before = spec_follow(selected, levels.drop_last(), music);
        if spec_moves_to(spec_selected_after(selected, levels.drop_last()), levels.last()) {
            before.push(
                LevelChangeView {
                    level: (levels.len() - 1) as usize,
                    music: spec_music_of(music, levels.last().iid@),
                },
            )
        } else {
            before
        }
    }
}

/// Keeps the level selection with the player.
#[derive(Debug)]
pub struct LevelPlugin {
    pub music: LevelMusicMap,
}

impl LevelPlugin {
    /// The level following for a world with this music.
    pub fn new(music: LevelMusicMap) -> (out: LevelPlugin)
        ensures
            out.music == music,
    {
        LevelPlugin { music }
    }

    /// Goes through the levels of the world and moves the selection to each
    /// one that holds the player and is not the selected one.
    ///
    /// `selected` is the id of the selected level, if a level is selected by
    /// its id.
    pub fn level_selection_follow_player(
        &self,
        selected: &Option<String>,
        levels: &Vec<LevelSighting>,
    ) -> (out: Vec<LevelChange>)
        ensures
            spec_changes(out@) == spec_follow(spec_selected(*selected), levels@, self.music@),
    {
        let ghost chosen = spec_selected(*selected);
        let mut out: Vec<LevelChange> = Vec::new();
        let mut current: Option<usize> = None;
        let mut i: usize = 0;
        while i < levels.len()
            invariant
                i <= levels.len(),
                chosen == spec_selected(*selected),
                spec_changes(out@) == spec_follow(chosen, levels@.take(i as int), self.music@),
                match current {
                    Some(j) => j < i && spec_selected_after(chosen, levels@.take(i as int)) == Some(
                        levels@[j as int].iid@,
                    ),
                    None => spec_selected_after(chosen, levels@.take(i as int)) == chosen,
                },
            decreases levels.len() - i,
        {
            assert(levels@.take(i + 1).drop_last() =~= levels@.take(i as int));
            let level = &levels[i];
            if level.contains_player {
                let same = match current {
                    Some(j) => levels[j].iid == level.iid,
                    None => match selected {
                        Some(iid) => *iid == level.iid,
                        None => false,
                    },
                };
                if !same {
                    let music = match self.music.get(level.iid.as_str()) {
                        Some(track) => Some(track.clone()),
                        None => None,
                    };
                    let ghost before = out@;
                    out.push(LevelChange { level: i, music });
                    current = Some(i);
                    assert(spec_changes(out@) =~= spec_changes(before).push(out@[before.len() as int]@));
                }
            }
            i = i + 1;
        }
        assert(levels@.take(i as int) =~= levels@);
        out
    }
}

/// Where nothing changes the selection stays; else the level of the last
/// change is the selected one.
pub proof fn lemma_last_change_is_selected(
    selected: Option<Seq<char>>,
    levels: Seq<LevelSighting>,
    music: Map<Seq<char>, Seq<char>>,
)
    requires
        levels.len() <= usize::MAX,
    ensures
        ({
            let changes = spec_follow(selected, levels, music);
            let after = spec_selected_after(selected, levels);
            if changes.len() == 0 {
                after == selected
            } else {
                &&& changes.last().level < levels.len()
                &&& after == Some(levels[changes.last().level as int].iid@)
            }
        }),
    decreases levels.len(),
{
    if levels.len() > 0 {
        lemma_last_change_is_selected(selected, levels.drop_last(), music);
    }
}

/// A player who stays in the selected level changes nothing.
pub proof fn lemma_staying_changes_nothing(
    selected: Seq<char>,
    levels: Seq<LevelSighting>,
    music: Map<Seq<char>, Seq<char>>,
)
    requires
        forall|k: int|
            0 <= k < levels.len() && (#[trigger] levels[k]).contains_player ==> levels[k].iid@
                == selected,
    ensures
        spec_follow(Some(selected), levels, music).len() == 0,
        spec_selected_after(Some(selected), levels) == Some(selected),
    decreases levels.len(),
{
    if levels.len() > 0 {
        lemma_staying_changes_nothing(selected, levels.drop_last(), music);
    }
}

} // verus!
