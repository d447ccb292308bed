use vstd::prelude::*;

verus! {

/// Which conversations a relay reads from and writes to.
///
/// Identifiers are the platform's 64-bit conversation ids. `sources` and
/// `targets` may overlap and may hold duplicates.
pub struct RoutingConfig {
    /// Conversations whose new messages are forwarded.
    pub sources: Vec<i64>,
    /// Conversations that receive the forwarded messages, in order.
    pub targets: Vec<i64>,
    /// Whether each incoming message is logged in full.
    pub verbose: bool,
}

impl RoutingConfig {
    pub fn new(sources: Vec<i64>, targets: Vec<i64>, verbose: bool) -> (r: RoutingConfig)
        ensures
            r.sources@ == sources@,
            r.targets@ == targets@,
            r.verbose == verbose,
    {
        RoutingConfig { sources, targets, verbose }
    }
}

/// Whether `channel_id` is one of `channels`.
pub fn is_channel_allowed(channels: &[i64], channel_id: i64) -> (r: bool)
    ensures
        r == channels@.contains(channel_id),
{
    let mut i: usize = 0;
    while i < channels.len()
        invariant
            0 <= i <= channels@.len(),
            forall|j: int| 0 <= j < i ==> channels@[j] != channel_id,
        decreases channels@.len() - i,
    {
        if channels[i] == channel_id {
            assert(channels@[i as int] == channel_id);
            return true;
        }
        i += 1;
    }
    false
}

} // verus!
