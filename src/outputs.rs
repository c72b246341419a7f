//! The named channels that the node publishes on, and the names of the
//! parameters it sets at startup.

use vstd::prelude::*;

verus! {

/// Name under which the node registers.
pub const NODE_NAME: &'static str = "plane_analyzer_node";

/// Channel of the filtered sensor value.
pub const FILTERED_CHANNEL: &'static str = "sensor_filter";

/// Channel of the plausibility score.
pub const SCORE_CHANNEL: &'static str = "plane_probability";

/// Parameter entry that holds the calibrated variance.
pub const VARIANCE_ENTRY: &'static str = "variance";

/// Parameter entry that holds the calibrated mean.
pub const MEAN_ENTRY: &'static str = "average";

/// Which value of a tick a channel carries.
#[derive(Debug, Clone, Copy, PartialEq, Eq, Structural)]
pub enum Quantity {
    /// The filter state after the update.
    Filtered,
    /// The plausibility score of that state.
    Score,
}

/// One channel and the value published on it.
#[derive(Debug, Clone, PartialEq, Eq)]
pub struct Output {
    pub channel: String,
    pub quantity: Quantity,
}

/// The publications of every successful tick, in the order in which they are
/// made: the filtered value (when asked for) and then the score.
pub fn outputs(with_filtered: bool) -> (r: Vec<Output>)
    ensures
        with_filtered ==> {
            &&& r@.len() == 2
            &&& r@[0].channel@ == FILTERED_CHANNEL@
            &&& r@[0].quantity == Quantity::Filtered
            &&& r@[1].channel@ == SCORE_CHANNEL@
            &&& r@[1].quantity == Quantity::Score
        },
        !with_filtered ==> {
            &&& r@.len() == 1
            &&& r@[0].channel@ == SCORE_CHANNEL@
            &&& r@[0].quantity == Quantity::Score
        },
{
    let mut r: Vec<Output> = Vec::new();
    if with_filtered {
        r.push(Output { channel: String::from_str(FILTERED_CHANNEL), quantity: Quantity::Filtered });
    }
    r.push(Output { channel: String::from_str(SCORE_CHANNEL), quantity: Quantity::Score });
    r
}

/// The key of a node's parameter entry: `/node/entry`.
pub fn parameter_key(node: &str, entry: &str) -> (r: String)
    ensures
        r@ == seq!['/'] + node@ + seq!['/'] + entry@,
{
    let mut key = String::from_str("/");
    key.append(node);
    key.append("/");
    key.append(entry);
    proof {
        reveal_strlit("/");
    }
    key
}

} // verus!
