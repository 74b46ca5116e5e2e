use vstd::prelude::*;

verus! {

/// The three lights of a traffic signal.
#[derive(Clone, Copy, Debug, PartialEq, Eq, Structural)]
pub enum TrafficList {
    Red,
    Yellow,
    Green,
}

/// How many seconds a light stays on.
pub open spec fn light_seconds(light: TrafficList) -> u32 {
    match light {
        TrafficList::Red => 50,
        TrafficList::Yellow => 4,
        TrafficList::Green => 46,
    }
}

/// Something that lasts for a number of seconds.
pub trait Time {
    fn time(self) -> u32;
}

impl Time for TrafficList {
    /// The duration of this light, in seconds.
    fn time(self) -> (seconds: u32)
        ensures
            seconds == light_seconds(self),
    {
        match self {
            TrafficList::Red => 50,
            TrafficList::Yellow => 4,
            TrafficList::Green => 46,
        }
    }
}

} // verus!
