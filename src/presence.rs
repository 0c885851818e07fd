//! When the bot leaves a voice channel on its own: once no human is left in
//! the channel it plays in.

use vstd::prelude::*;

verus! {

/// The number of `false` entries of `is_bot`: the humans among the members.
pub open spec fn humans_in(is_bot: Seq<bool>) -> nat
    decreases is_bot.len(),
{
    if is_bot.len() == 0 {
        0
    } else {
        humans_in(is_bot.drop_last()) + if is_bot.last() {
            0nat
        } else {
            1nat
        }
    }
}

/// Counts the members that are not bots.
pub fn count_humans(is_bot: &Vec<bool>) -> (r: usize)
    ensures
        r == humans_in(is_bot@),
{
    let mut n: usize = 0;
    for i in 0..is_bot.len()
        invariant
            n == humans_in(is_bot@.take(i as int)),
            n <= i,
    {
        assert(is_bot@.take(i + 1).drop_last() == is_bot@.take(i as int));
        if !is_bot[i] {
            n += 1;
        }
    }
    assert(is_bot@.take(is_bot@.len() as int) == is_bot@);
    n
}

/// The guild whose voice session ends after a member's voice state changed
/// from `old_channel` to `new_channel`: when the member left a channel, and
/// the members left in that channel are known and none is human. `humans_left`
/// is `None` when the channel could not be looked up; then someone is assumed
/// to be there.
pub fn guild_to_leave(
    guild: Option<u64>,
    old_channel: Option<u64>,
    new_channel: Option<u64>,
    humans_left: Option<usize>,
) -> (r: Option<u64>)
    ensures
        r == (if old_channel is Some && new_channel != old_channel && guild is Some && humans_left
            == Some(0usize) {
            guild
        } else {
            None
        }),
{
    match (guild, old_channel, humans_left) {
        (Some(g), Some(old), Some(0)) => {
            let moved = match new_channel {
                Some(new) => new != old,
                None => true,
            };
            if moved {
                Some(g)
            } else {
                None
            }
        },
        _ => None,
    }
}

} // verus!
