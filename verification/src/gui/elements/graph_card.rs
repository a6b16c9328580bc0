//! The graphs of the main screen.
use vstd::prelude::*;

verus! {

/// The quantities the main screen plots.
#[derive(Debug, Clone, Copy, PartialEq, Eq, Structural)]
pub enum GRAPHS {
    Ram,
    Cpu,
    Ping,
}

/// The unit a graph's values are given in.
pub open spec fn unit_of(g: GRAPHS) -> Seq<char> {
    match g {
        GRAPHS::Ram => "MB"@,
        GRAPHS::Cpu => "%"@,
        GRAPHS::Ping => "ms"@,
    }
}

impl GRAPHS {
    /// The unit of the graph's values.
    pub fn get_unit(&self) -> (r: String)
        ensures
            r@ == unit_of(*self),
    {
        match self {
            GRAPHS::Ram => String::from_str("MB"),
            GRAPHS::Cpu => String::from_str("%"),
            GRAPHS::Ping => String::from_str("ms"),
        }
    }
}

} // verus!
