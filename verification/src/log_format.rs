//! The log output format a node is asked to use.

use vstd::prelude::*;

verus! {

/// How a node writes its logs; the value follows the log-format flag.
#[derive(Clone, Copy, Debug, PartialEq, Eq, Structural)]
pub enum LogFormat {
    Default,
    Json,
}

impl LogFormat {
    /// The text the format is selected by on a command line.
    pub open spec fn spec_text(self) -> Seq<char> {
        match self {
            LogFormat::Default => "default"@,
            LogFormat::Json => "json"@,
        }
    }

    pub fn as_str(&self) -> (r: &'static str)
        ensures
            r@ == self.spec_text(),
    {
        match self {
            LogFormat::Default => "default",
            LogFormat::Json => "json",
        }
    }
}

} // verus!
