//! The sounds that trades are announced with.

use vstd::prelude::*;

verus! {

/// The file of the sound of a buy.
pub const BUY_SOUND: &'static str = "hard-typewriter-click.wav";

/// The file of the sound of a large buy.
pub const HARD_BUY_SOUND: &'static str = "dry-pop-up.wav";

/// The file of the sound of a sell.
pub const SELL_SOUND: &'static str = "hard-typewriter-hit.wav";

/// The file of the sound of a large sell.
pub const HARD_SELL_SOUND: &'static str = "fall-on-foam-splash.wav";

/// How many trades on one side, as a multiple of the threshold, make the
/// sound of a large trade.
pub const HARD_THRESHOLD: usize = 4;

/// A sound.
#[derive(Debug, Clone, Copy, PartialEq, Eq, Structural)]
pub enum SoundType {
    Buy,
    HardBuy,
    Sell,
    HardSell,
}

impl SoundType {
    /// The place of the sound among the sounds that are kept loaded.
    pub open spec fn spec_index(self) -> usize {
        match self {
            SoundType::Buy => 0,
            SoundType::HardBuy => 1,
            SoundType::Sell => 2,
            SoundType::HardSell => 3,
        }
    }

    /// The place of the sound among the sounds that are kept loaded.
    pub fn index(self) -> (r: usize)
        ensures
            r == self.spec_index(),
            r < 4,
    {
        match self {
            SoundType::Buy => 0,
            SoundType::HardBuy => 1,
            SoundType::Sell => 2,
            SoundType::HardSell => 3,
        }
    }

    /// The name of the file that holds the sound.
    pub fn file_name(self) -> (r: &'static str)
        ensures
            r@ == (match self {
                SoundType::Buy => BUY_SOUND@,
                SoundType::HardBuy => HARD_BUY_SOUND@,
                SoundType::Sell => SELL_SOUND@,
                SoundType::HardSell => HARD_SELL_SOUND@,
            }),
    {
        match self {
            SoundType::Buy => BUY_SOUND,
            SoundType::HardBuy => HARD_BUY_SOUND,
            SoundType::Sell => SELL_SOUND,
            SoundType::HardSell => HARD_SELL_SOUND,
        }
    }
}

/// What came of trying again to open the audio output.
#[derive(Debug)]
pub enum UpdateEvent {
    RetryFailed(String),
    RetrySucceeded,
}

/// The sound for trades on one side: that of a large trade where the trades
/// are more than the threshold times `HARD_THRESHOLD`.
pub open spec fn sound_for(count: usize, threshold: usize, is_sell: bool) -> SoundType {
    if count > threshold * HARD_THRESHOLD {
        if is_sell {
            SoundType::HardSell
        } else {
            SoundType::HardBuy
        }
    } else if is_sell {
        SoundType::Sell
    } else {
        SoundType::Buy
    }
}

/// The sound that a batch of trades is announced with, if any: none where
/// neither side reaches the threshold, else that of the side with more
/// trades, the buys where both have as many.
pub open spec fn sound_of_counts(buy_count: usize, sell_count: usize, threshold: usize) -> Option<
    SoundType,
> {
    if buy_count < threshold && sell_count < threshold {
        None
    } else if buy_count >= sell_count {
        Some(sound_for(buy_count, threshold, false))
    } else {
        Some(sound_for(sell_count, threshold, true))
    }
}

/// Picks the sound that a batch of trades is announced with.
pub fn pick_sound(buy_count: usize, sell_count: usize, threshold: usize) -> (r: Option<SoundType>)
    ensures
        r == sound_of_counts(buy_count, sell_count, threshold),
{
    if buy_count < threshold && sell_count < threshold {
        return None;
    }
    let (count, is_sell) = if buy_count >= sell_count {
        (buy_count, false)
    } else {
        (sell_count, true)
    };
    let hard: bool = match threshold.checked_mul(HARD_THRESHOLD) {
        Some(limit) => count > limit,
        None => false,
    };
    Some(
        if hard {
            if is_sell {
                SoundType::HardSell
            } else {
                SoundType::HardBuy
            }
        } else if is_sell {
            SoundType::Sell
        } else {
            SoundType::Buy
        },
    )
}

} // verus!
