//! The gamma ramp: a lookup table of 256 sixteen-bit levels for each of the
//! three colour channels, and the repair that keeps a channel rising.

use vstd::prelude::*;

verus! {

/// Number of levels in one channel.
pub const CHANNEL_LEN: usize = 256;

/// Number of levels in a whole table: red, then green, then blue.
pub const RAMP_LEN: usize = 768;

/// The highest level a table can hold.
pub const LEVEL_MAX: u16 = 65535;

/// A gamma ramp as the display takes it: levels `0..256` are red, `256..512`
/// green and `512..768` blue.
#[derive(Clone, Copy, Debug)]
pub struct RampTable {
    pub levels: [u16; 768],
}

/// The level that follows `prev` in a channel when the sample computed for it
/// is `sample`: a sample that does not rise above `prev` is lifted to
/// `prev + 1`, unless `prev` already is the highest level.
pub open spec fn repair_level(prev: u16, sample: u16) -> u16 {
    if sample <= prev && prev < LEVEL_MAX {
        (prev + 1) as u16
    } else {
        sample
    }
}

/// The repaired level at `index` of a channel computed from `samples`. The
/// first level is the first sample; each later one is repaired against the
/// level before it.
pub open spec fn repaired(samples: Seq<u16>, index: int) -> u16
    decreases index,
{
    if index <= 0 {
        samples[0]
    } else {
        repair_level(repaired(samples, index - 1), samples[index])
    }
}

/// The whole table made from one channel of samples: the repaired channel,
/// three times over.
pub open spec fn ramp_of(samples: Seq<u16>) -> Seq<u16> {
    Seq::new(RAMP_LEN as nat, |k: int| repaired(samples, k % 256))
}

/// No sample below the highest level follows a repaired level that has
/// reached it. Exactly on such samples the repaired channel never falls.
pub open spec fn ceiling_kept(samples: Seq<u16>) -> bool {
    forall|i: int|
        1 <= i < samples.len() && #[trigger] repaired(samples, i - 1) == LEVEL_MAX ==> samples[i]
            == LEVEL_MAX
}

/// Channel `c` of a table of levels: 0 is red, 1 green, 2 blue.
pub open spec fn channel_of(levels: Seq<u16>, c: int) -> Seq<u16> {
    levels.subrange(256 * c, 256 * c + 256)
}

/// The repaired channel made from `samples`, as a sequence of 256 levels.
pub open spec fn repaired_channel(samples: Seq<u16>) -> Seq<u16> {
    Seq::new(CHANNEL_LEN as nat, |k: int| repaired(samples, k))
}

/// The levels never fall from one index to the next within `levels`.
pub open spec fn non_decreasing(levels: Seq<u16>) -> bool {
    forall|i: int, j: int| 0 <= i <= j < levels.len() ==> levels[i] <= levels[j]
}

impl RampTable {
    /// The table as a sequence of 768 levels.
    pub open spec fn view(&self) -> Seq<u16> {
        self.levels@
    }

    /// The table whose levels are `levels`, a sequence of 768.
    pub open spec fn with_levels(levels: Seq<u16>) -> RampTable {
        RampTable { levels: choose|a: [u16; 768]| a@ == levels }
    }

    /// One channel of the table: 0 is red, 1 green, 2 blue.
    pub open spec fn channel(&self, c: int) -> Seq<u16> {
        channel_of(self@, c)
    }

    /// Green and blue repeat red.
    pub open spec fn channels_identical(&self) -> bool {
        self.channel(1) == self.channel(0) && self.channel(2) == self.channel(0)
    }

    /// No channel ever falls.
    pub open spec fn is_monotone(&self) -> bool {
        non_decreasing(self.channel(0)) && non_decreasing(self.channel(1)) && non_decreasing(
            self.channel(2),
        )
    }

    /// The level at `index`.
    pub fn level(&self, index: usize) -> (value: u16)
        requires
            index < RAMP_LEN,
        ensures
            value == self@[index as int],
    {
        self.levels[index]
    }
}

/// A table is the table of its own levels.
pub proof fn lemma_with_levels(table: RampTable)
    ensures
        RampTable::with_levels(table@) == table,
{
    let other = RampTable::with_levels(table@);
    assert(other.levels@ == table.levels@);
    assert(other.levels =~= table.levels);
}

/// Below the highest level a repaired channel rises strictly from each index
/// to the next.
pub proof fn lemma_repaired_rises_below_ceiling(samples: Seq<u16>, index: int)
    requires
        1 <= index,
        repaired(samples, index - 1) < LEVEL_MAX,
    ensures
        repaired(samples, index - 1) < repaired(samples, index),
{
}

/// A repaired channel never falls if and only if its samples keep the ceiling.
pub proof fn lemma_repaired_monotone_iff(samples: Seq<u16>)
    requires
        samples.len() == CHANNEL_LEN,
    ensures
        non_decreasing(repaired_channel(samples)) <==> ceiling_kept(samples),
{
    let channel = repaired_channel(samples);
    if ceiling_kept(samples) {
        assert forall|i: int, j: int| 0 <= i <= j < 256 implies channel[i] <= channel[j] by {
            lemma_repaired_ordered(samples, i, j);
        }
    }
    if non_decreasing(channel) {
        assert forall|i: int| 1 <= i < 256 && #[trigger] repaired(samples, i - 1) == LEVEL_MAX
            implies samples[i] == LEVEL_MAX by {
            assert(channel[i - 1] <= channel[i]);
        }
    }
}

/// On samples that keep the ceiling, the repaired level at `i` is at most the
/// one at any later index `j`.
pub proof fn lemma_repaired_ordered(samples: Seq<u16>, i: int, j: int)
    requires
        ceiling_kept(samples),
        0 <= i <= j < samples.len(),
    ensures
        repaired(samples, i) <= repaired(samples, j),
    decreases j - i,
{
    if i < j {
        lemma_repaired_ordered(samples, i, j - 1);
        if repaired(samples, j - 1) == LEVEL_MAX {
            assert(samples[j] == LEVEL_MAX);
        }
    }
}

/// Builds the table from one channel of samples: each level is repaired
/// against the one before it and written to all three channels.
pub fn calculate_ramp(samples: &[u16; 256]) -> (ramp: RampTable)
    ensures
        ramp@ == ramp_of(samples@),
        ramp == RampTable::with_levels(ramp_of(samples@)),
        ramp.channels_identical(),
        ramp.is_monotone() <==> ceiling_kept(samples@),
        forall|i: int|
            1 <= i < 256 && ramp@[i - 1] < LEVEL_MAX ==> ramp@[i - 1] < #[trigger] ramp@[i],
{
    let mut levels: [u16; 768] = [0u16; 768];
    let mut last_val: u16 = 0;
    let mut i: usize = 0;
    while i < 256
        invariant
            i <= 256,
            i > 0 ==> last_val == repaired(samples@, i - 1),
            forall|k: int|
                0 <= k < i ==> {
                    &&& levels@[k] == #[trigger] repaired(samples@, k)
                    &&& levels@[k + 256] == repaired(samples@, k)
                    &&& levels@[k + 512] == repaired(samples@, k)
                },
        decreases 256 - i,
    {
        let mut word: u16 = samples[i];
        if i > 0 && word <= last_val && last_val < LEVEL_MAX {
            word = last_val + 1;
        }
        last_val = word;
        levels[i] = word;
        levels[i + 256] = word;
        levels[i + 512] = word;
        i = i + 1;
    }
    let ramp = RampTable { levels };
    proof {
        lemma_levels_are_ramp(ramp@, samples@);
        lemma_ramp_of_shape(samples@);
        lemma_with_levels(ramp);
    }
    ramp
}

/// Levels that hold the repaired channel at each of the three offsets are the
/// table made from the samples.
proof fn lemma_levels_are_ramp(levels: Seq<u16>, samples: Seq<u16>)
    requires
        levels.len() == RAMP_LEN,
        forall|k: int|
            0 <= k < 256 ==> {
                &&& levels[k] == #[trigger] repaired(samples, k)
                &&& levels[k + 256] == repaired(samples, k)
                &&& levels[k + 512] == repaired(samples, k)
            },
    ensures
        levels == ramp_of(samples),
{
    assert forall|k: int| 0 <= k < 768 implies levels[k] == ramp_of(samples)[k] by {
        let base = k % 256;
        assert(levels[base] == repaired(samples, base));
        assert(k == base || k == base + 256 || k == base + 512);
    }
    assert(levels =~= ramp_of(samples));
}

/// What holds of the table made from any channel of 256 samples: the channels
/// repeat each other, each is the repaired channel, and none falls exactly
/// when the samples keep the ceiling.
pub proof fn lemma_ramp_of_shape(samples: Seq<u16>)
    requires
        samples.len() == CHANNEL_LEN,
    ensures
        ramp_of(samples).len() == RAMP_LEN,
        forall|c: int|
            0 <= c < 3 ==> #[trigger] channel_of(ramp_of(samples), c) == repaired_channel(samples),
        forall|c: int|
            0 <= c < 3 ==> (non_decreasing(#[trigger] channel_of(ramp_of(samples), c))
                <==> ceiling_kept(samples)),
        forall|i: int|
            1 <= i < 256 && ramp_of(samples)[i - 1] < LEVEL_MAX ==> ramp_of(samples)[i - 1]
                < #[trigger] ramp_of(samples)[i],
{
    let channel = repaired_channel(samples);
    assert forall|c: int| 0 <= c < 3 implies #[trigger] channel_of(ramp_of(samples), c)
        == channel by {
        assert(channel_of(ramp_of(samples), c) =~= channel);
    }
    lemma_repaired_monotone_iff(samples);
}

} // verus!
