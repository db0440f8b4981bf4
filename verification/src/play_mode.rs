//! The play-mode state machine: a fixed four-state cycle that governs how the
//! playlist is ordered and what happens at the end of a track.

use vstd::prelude::*;

verus! {

/// How playback proceeds from one track to the next.
///
/// `Normal` and `Repeat` both walk the playlist in ascending catalog order and
/// wrap circularly at the end; `Shuffle` walks a randomized ordering;
/// `RepeatOne` restarts the current track instead of moving the cursor.
#[derive(Clone, Copy, Debug, PartialEq, Eq, Structural)]
pub enum PlayMode {
    Normal,
    Shuffle,
    Repeat,
    RepeatOne,
}

impl PlayMode {
    /// The successor of a mode in the fixed cycle
    /// Normal -> Shuffle -> Repeat -> RepeatOne -> Normal.
    pub open spec fn next_spec(self) -> PlayMode {
        match self {
            PlayMode::Normal => PlayMode::Shuffle,
            PlayMode::Shuffle => PlayMode::Repeat,
            PlayMode::Repeat => PlayMode::RepeatOne,
            PlayMode::RepeatOne => PlayMode::Normal,
        }
    }

    /// Advance one step along the mode cycle.
    pub fn next(&self) -> (r: PlayMode)
        ensures
            r == self.next_spec(),
    {
        match self {
            PlayMode::Normal => PlayMode::Shuffle,
            PlayMode::Shuffle => PlayMode::Repeat,
            PlayMode::Repeat => PlayMode::RepeatOne,
            PlayMode::RepeatOne => PlayMode::Normal,
        }
    }

    /// The glyph shown for the mode in the status line.
    pub fn icon(&self) -> (r: &'static str)
        ensures
            self == PlayMode::Normal ==> r@ == "→"@,
            self == PlayMode::Shuffle ==> r@ == "🔀"@,
            self == PlayMode::Repeat ==> r@ == "🔁"@,
            self == PlayMode::RepeatOne ==> r@ == "🔁1"@,
    {
        match self {
            PlayMode::Normal => "→",
            PlayMode::Shuffle => "🔀",
            PlayMode::Repeat => "🔁",
            PlayMode::RepeatOne => "🔁1",
        }
    }

    /// The mode cycle is closed: four successive steps return any mode to
    /// itself.
    pub proof fn lemma_mode_cycle(m: PlayMode)
        ensures
            m.next_spec().next_spec().next_spec().next_spec() == m,
    {
    }
}

} // verus!
