//! Sound cues that the rules ask the engine to play.

use vstd::prelude::*;

verus! {

/// A clip to play; the engine maps each cue to an audio asset.
#[derive(Clone, Copy, Debug, PartialEq, Eq, Structural)]
pub enum Sound {
    /// An enemy is destroyed.
    EnemyDestroyed,
    /// A splitter bursts into children.
    SplitterBurst,
    /// A blue part is collected.
    CollectBlue,
    /// A red part is collected.
    CollectRed,
    /// A green part is collected.
    CollectGreen,
    /// The base reaches level two.
    LevelTwo,
    /// The base reaches level three or four.
    LevelThreeFour,
    /// The base reaches level five.
    LevelFive,
    /// The base reaches level six.
    LevelSix,
}

} // verus!
