//! What the game starts with: the music that goes with each level.

use vstd::prelude::*;
use vstd::string::*;

verus! {

/// The file that holds the levels.
pub const WORLD_FILE: &'static str = "LDTK-test.ldtk";

/// A level, by the id the level editor gave it, and the file of its music.
#[derive(Debug, PartialEq, Eq)]
pub struct MusicEntry {
    pub level: String,
    pub track: String,
}

/// The music of the levels. Of two entries for one level the later counts.
#[derive(Debug)]
pub struct LevelMusicMap {
    pub music_map: Vec<MusicEntry>,
}

/// The entries read as a map from a level's id to the file of its music.
pub open spec fn spec_music(entries: Seq<MusicEntry>) -> Map<Seq<char>, Seq<char>>
    decreases entries.len(),
{
    if entries.len() == 0 {
        Map::empty()
    } else {
        spec_music(entries.drop_last()).insert(entries.last().level@, entries.last().track@)
    }
}

impl View for LevelMusicMap {
    type V = Map<Seq<char>, Seq<char>>;

    open spec fn view(&self) -> Map<Seq<char>, Seq<char>> {
        spec_music(self.music_map@)
    }
}

/// Entries that are not for `level` do not change what the map holds for it.
pub proof fn lemma_music_of_level(entries: Seq<MusicEntry>, n: int, level: Seq<char>)
    requires
        0 <= n <= entries.len(),
        forall|k: int| n <= k < entries.len() ==> (#[trigger] entries[k]).level@ != level,
    ensures
        spec_music(entries).dom().contains(level) == spec_music(entries.take(n)).dom().contains(
            level,
        ),
        spec_music(entries).dom().contains(level) ==> spec_music(entries)[level] == spec_music(
            entries.take(n),
        )[level],
    decreases entries.len(),
{
    if n < entries.len() {
        let shorter = entries.drop_last();
        lemma_music_of_level(shorter, n, level);
        assert(shorter.take(n) =~= entries.take(n));
    } else {
        assert(entries.take(n) =~= entries);
    }
}

impl LevelMusicMap {
    /// A map without music.
    pub fn new() -> (out: LevelMusicMap)
        ensures
            out@ == Map::<Seq<char>, Seq<char>>::empty(),
    {
        LevelMusicMap { music_map: Vec::new() }
    }

    /// Gives `level` the music in the file `track`, in place of any it had.
    pub fn insert(&mut self, level: &str, track: &str)
        ensures
            final(self)@ == old(self)@.insert(level@, track@),
    {
        let entry = MusicEntry { level: String::from_str(level), track: String::from_str(track) };
        self.music_map.push(entry);
        assert(self.music_map@.drop_last() =~= old(self).music_map@);
    }

    /// The file of the music of `level`, if it has any.
    pub fn get(&self, level: &str) -> (out: Option<&String>)
        ensures
            match out {
                Some(track) => self@.dom().contains(level@) && track@ == self@[level@],
                None => !self@.dom().contains(level@),
            },
    {
        let wanted = String::from_str(level);
        let mut i: usize = self.music_map.len();
        while i > 0
            invariant
                i <= self.music_map.len(),
                wanted@ == level@,
                forall|k: int|
                    i <= k < self.music_map.len() ==> (#[trigger] self.music_map@[k]).level@
                        != level@,
            decreases i,
        {
            if self.music_map[i - 1].level == wanted {
                proof {
                    lemma_music_of_level(self.music_map@, i as int, level@);
                    assert(self.music_map@.take(i as int).drop_last() =~= self.music_map@.take(
                        i - 1,
                    ));
                }
                return Some(&self.music_map[i - 1].track);
            }
            i = i - 1;
        }
        proof {
            lemma_music_of_level(self.music_map@, 0, level@);
        }
        None
    }
}

/// The five levels of the arena and their music.
pub open spec fn spec_level_music() -> Map<Seq<char>, Seq<char>> {
    Map::<Seq<char>, Seq<char>>::empty().insert(
        "78137f20-9b00-11ef-85d2-918c41126c86"@,
        "grapple-Arena-dnb.ogg"@,
    ).insert(
        "89f13410-9b00-11ef-85d2-030c58c7d34b"@,
        "grapple-Arena-peaceful-sticatto.ogg"@,
    ).insert("aa737fe0-9b00-11ef-85d2-cd1f6eb084b1"@, "CHRONO-grapple-arena.ogg"@).insert(
        "f2f338f0-9b00-11ef-85d2-151712402bd4"@,
        "DK-grapple-arena.ogg"@,
    ).insert("69cafc60-4ce0-11ef-ac02-af3d88f88f16"@, "grapple.ogg"@)
}

/// Lists the music of the arena.
pub fn setup() -> (out: LevelMusicMap)
    ensures
        out@ == spec_level_music(),
{
    let mut level_music_map = LevelMusicMap::new();
    level_music_map.insert("78137f20-9b00-11ef-85d2-918c41126c86", "grapple-Arena-dnb.ogg");
    level_music_map.insert(
        "89f13410-9b00-11ef-85d2-030c58c7d34b",
        "grapple-Arena-peaceful-sticatto.ogg",
    );
    level_music_map.insert("aa737fe0-9b00-11ef-85d2-cd1f6eb084b1", "CHRONO-grapple-arena.ogg");
    level_music_map.insert("f2f338f0-9b00-11ef-85d2-151712402bd4", "DK-grapple-arena.ogg");
    level_music_map.insert("69cafc60-4ce0-11ef-ac02-af3d88f88f16", "grapple.ogg");
    level_music_map
}

} // verus!
