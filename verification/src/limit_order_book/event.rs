//! What a feed says of a packet besides its levels.

use vstd::prelude::*;

verus! {

/// The heading of a packet: the kind of event, when it happened and the symbol it is
/// about. The book carries it along and does not read it.
#[derive(Clone, Debug, PartialEq)]
pub struct Event {
    pub id: String,
    pub time: u64,
    pub symbol: String,
}

impl Default for Event {
    fn default() -> (event: Self)
        ensures
            event.id@ == Seq::<char>::empty(),
            event.time == 0,
            event.symbol@ == Seq::<char>::empty(),
    {
        Event { id: String::new(), time: 0, symbol: String::new() }
    }
}

} // verus!
