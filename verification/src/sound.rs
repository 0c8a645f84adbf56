//! The sound effects of the game and the files they play.
use vstd::prelude::*;
use crate::rng::random_range_i32;

verus! {

/// The sound effects of the game.
#[derive(Clone, Copy, Debug, PartialEq, Eq, Structural)]
pub enum SoundEffect {
    Hit,
    Flash,
    RoundStart,
    Ignite,
    EnemyKill,
}

/// The file a sound effect plays for a roll from 0 to 9 (only the enemy
/// kill looks at the roll: three in ten the first kill sound, one in ten
/// the second, two in ten the third, three in ten the fifth and one in ten
/// the seventh).
pub open spec fn sound_file(effect: SoundEffect, roll: int) -> Seq<char> {
    match effect {
        SoundEffect::Hit => "001_HIT.wav"@,
        SoundEffect::Flash => "002_FLASH.wav"@,
        SoundEffect::RoundStart => "003_ROUND_START.wav"@,
        SoundEffect::Ignite => "004_IGNITE.wav"@,
        SoundEffect::EnemyKill => if 0 <= roll < 3 {
            "010_KILL_1.wav"@
        } else if 3 <= roll < 4 {
            "011_KILL_2.wav"@
        } else if 4 <= roll < 6 {
            "012_KILL_3.wav"@
        } else if 6 <= roll < 9 {
            "013_KILL_5.wav"@
        } else if 9 <= roll < 10 {
            "014_KILL_7.wav"@
        } else {
            "005_ENEMY_KILL.wav"@
        },
    }
}

impl SoundEffect {
    /// The file the effect plays for the roll (see `sound_file`).
    pub fn file_for_roll(&self, roll: i32) -> (res: &'static str)
        ensures
            res@ == sound_file(*self, roll as int),
    {
        match self {
            SoundEffect::Hit => "001_HIT.wav",
            SoundEffect::Flash => "002_FLASH.wav",
            SoundEffect::RoundStart => "003_ROUND_START.wav",
            SoundEffect::Ignite => "004_IGNITE.wav",
            SoundEffect::EnemyKill => {
                if 0 <= roll && roll < 3 {
                    "010_KILL_1.wav"
                } else if 3 <= roll && roll < 4 {
                    "011_KILL_2.wav"
                } else if 4 <= roll && roll < 6 {
                    "012_KILL_3.wav"
                } else if 6 <= roll && roll < 9 {
                    "013_KILL_5.wav"
                } else if 9 <= roll && roll < 10 {
                    "014_KILL_7.wav"
                } else {
                    "005_ENEMY_KILL.wav"
                }
            },
        }
    }

    /// The file the effect plays, the roll drawn from 0 to 9.
    pub fn get_file_name(&self) -> (res: &'static str)
        ensures
            exists|roll: int| 0 <= roll < 10 && res@ == #[trigger] sound_file(*self, roll),
    {
        let roll = random_range_i32(0, 10);
        self.file_for_roll(roll)
    }
}

} // verus!
