use vstd::prelude::*;

verus! {

/// Which mode the CPU should be set to.
#[derive(Debug, Clone, Copy, PartialEq, Eq, Structural)]
pub enum Mode {
    /// Highest performance and thermal limits at advertised clock speeds.
    Benchmark,
    /// High performance and reasonable thermal limits at advertised clock
    /// speeds.
    Advertised,
    /// Average performance at underclocked speeds.
    Efficiency,
}

/// The mode a raw configuration value denotes: the three recognized strings
/// map to their modes; any other value, or an absent one, falls back to
/// `Advertised`.
pub open spec fn resolve_spec(raw: Option<Seq<char>>) -> Mode {
    match raw {
        Some(s) => {
            if s == "benchmark"@ {
                Mode::Benchmark
            } else if s == "advertised"@ {
                Mode::Advertised
            } else if s == "efficiency"@ {
                Mode::Efficiency
            } else {
                Mode::Advertised
            }
        },
        None => Mode::Advertised,
    }
}

/// The view of an optional configuration string.
pub open spec fn opt_str_view(raw: Option<String>) -> Option<Seq<char>> {
    match raw {
        Some(s) => Some(s@),
        None => None,
    }
}

impl Mode {
    /// Maps the current value of the configuration key, or its absence, to a
    /// mode. Unrecognized input is not an error: it is normalized to the safe
    /// default, so malformed configuration can never stall the controller.
    pub fn resolve(raw: Option<String>) -> (m: Mode)
        ensures
            m == resolve_spec(opt_str_view(raw)),
    {
        match raw {
            Some(s) => {
                if s == "benchmark".to_owned() {
                    Mode::Benchmark
                } else if s == "advertised".to_owned() {
                    Mode::Advertised
                } else if s == "efficiency".to_owned() {
                    Mode::Efficiency
                } else {
                    Mode::Advertised
                }
            },
            None => Mode::Advertised,
        }
    }
}

/// Every configuration value other than the three recognized strings, and an
/// absent value as well, resolves to `Advertised`.
pub proof fn lemma_unrecognized_resolves_to_default(raw: Option<Seq<char>>)
    requires
        raw matches Some(s) ==> s != "benchmark"@ && s != "advertised"@ && s != "efficiency"@,
    ensures
        resolve_spec(raw) == Mode::Advertised,
{
}

} // verus!
