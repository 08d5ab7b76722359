use vstd::prelude::*;

verus! {

use crate::mode::Mode;

/// One pending control-file write: the path of the kernel attribute and the
/// payload to put there verbatim.
#[derive(Debug, PartialEq, Eq)]
pub struct WriteOp {
    pub path: String,
    pub payload: String,
}

impl View for WriteOp {
    type V = (Seq<char>, Seq<char>);

    open spec fn view(&self) -> (Seq<char>, Seq<char>) {
        (self.path@, self.payload@)
    }
}

/// The views of a sequence of pending writes, in order.
pub open spec fn ops_view(ops: Seq<WriteOp>) -> Seq<(Seq<char>, Seq<char>)> {
    ops.map_values(|op: WriteOp| op@)
}

/// Path of the mi_thermald profile config.
pub open spec fn thermal_path() -> Seq<char> {
    "/sys/devices/virtual/thermal/thermal_message/sconfig"@
}

/// Paths capping the little cores (CPU 0-3).
pub open spec fn little_core_paths() -> Seq<Seq<char>> {
    seq![
        "/sys/devices/system/cpu/cpu0/cpufreq/scaling_max_freq"@,
        "/sys/devices/system/cpu/cpu1/cpufreq/scaling_max_freq"@,
        "/sys/devices/system/cpu/cpu2/cpufreq/scaling_max_freq"@,
        "/sys/devices/system/cpu/cpu3/cpufreq/scaling_max_freq"@,
    ]
}

/// Paths capping the big cores (CPU 4-6).
pub open spec fn big_core_paths() -> Seq<Seq<char>> {
    seq![
        "/sys/devices/system/cpu/cpu4/cpufreq/scaling_max_freq"@,
        "/sys/devices/system/cpu/cpu5/cpufreq/scaling_max_freq"@,
        "/sys/devices/system/cpu/cpu6/cpufreq/scaling_max_freq"@,
    ]
}

/// Path capping the prime core (CPU 7).
pub open spec fn prime_core_path() -> Seq<char> {
    "/sys/devices/system/cpu/cpu7/cpufreq/scaling_max_freq"@
}

/// The thermal profile a mode activates: the benchmark profile for
/// `Benchmark`, the managed "mgame" profile for both other modes.
pub open spec fn thermal_payload(m: Mode) -> Seq<char> {
    if m == Mode::Benchmark {
        "10"@
    } else {
        "20"@
    }
}

/// The frequency caps of a mode as (little, big, prime). `Efficiency` uses
/// the underclock triple; `Benchmark` and `Advertised` share the advertised
/// triple.
pub open spec fn freq_triple(m: Mode) -> (Seq<char>, Seq<char>, Seq<char>) {
    if m == Mode::Efficiency {
        ("1075200"@, "1555200"@, "2054400"@)
    } else {
        ("1785600"@, "2419200"@, "2841600"@)
    }
}

/// The frequency writes for the given caps: `little` to every little-core
/// path in order, then `big` to every big-core path, then `prime` to the
/// prime path.
pub open spec fn freq_plan(little: Seq<char>, big: Seq<char>, prime: Seq<char>) -> Seq<
    (Seq<char>, Seq<char>),
> {
    little_core_paths().map_values(|p: Seq<char>| (p, little))
        + big_core_paths().map_values(|p: Seq<char>| (p, big)) + seq![(prime_core_path(), prime)]
}

/// Every control-file write an application of `m` performs, in order: the
/// thermal profile first, then the mode's frequency caps.
pub open spec fn plan_for(m: Mode) -> Seq<(Seq<char>, Seq<char>)> {
    seq![(thermal_path(), thermal_payload(m))] + freq_plan(
        freq_triple(m).0,
        freq_triple(m).1,
        freq_triple(m).2,
    )
}

/// Builds the frequency writes for the given caps, in the fixed little, big,
/// prime order.
pub fn apply_freqs(little: &str, big: &str, prime: &str) -> (r: Vec<WriteOp>)
    ensures
        ops_view(r@) == freq_plan(little@, big@, prime@),
{
    let mut r: Vec<WriteOp> = Vec::new();
    r.push(
        WriteOp {
            path: "/sys/devices/system/cpu/cpu0/cpufreq/scaling_max_freq".to_owned(),
            payload: little.to_owned(),
        },
    );
    r.push(
        WriteOp {
            path: "/sys/devices/system/cpu/cpu1/cpufreq/scaling_max_freq".to_owned(),
            payload: little.to_owned(),
        },
    );
    r.push(
        WriteOp {
            path: "/sys/devices/system/cpu/cpu2/cpufreq/scaling_max_freq".to_owned(),
            payload: little.to_owned(),
        },
    );
    r.push(
        WriteOp {
            path: "/sys/devices/system/cpu/cpu3/cpufreq/scaling_max_freq".to_owned(),
            payload: little.to_owned(),
        },
    );
    r.push(
        WriteOp {
            path: "/sys/devices/system/cpu/cpu4/cpufreq/scaling_max_freq".to_owned(),
            payload: big.to_owned(),
        },
    );
    r.push(
        WriteOp {
            path: "/sys/devices/system/cpu/cpu5/cpufreq/scaling_max_freq".to_owned(),
            payload: big.to_owned(),
        },
    );
    r.push(
        WriteOp {
            path: "/sys/devices/system/cpu/cpu6/cpufreq/scaling_max_freq".to_owned(),
            payload: big.to_owned(),
        },
    );
    r.push(
        WriteOp {
            path: "/sys/devices/system/cpu/cpu7/cpufreq/scaling_max_freq".to_owned(),
            payload: prime.to_owned(),
        },
    );
    proof {
        assert(ops_view(r@) =~= freq_plan(little@, big@, prime@));
    }
    r
}

/// The frequency writes of the efficiency underclock profile.
pub fn apply_efficiency_uc() -> (r: Vec<WriteOp>)
    ensures
        ops_view(r@) == freq_plan(
            freq_triple(Mode::Efficiency).0,
            freq_triple(Mode::Efficiency).1,
            freq_triple(Mode::Efficiency).2,
        ),
{
    apply_freqs("1075200", "1555200", "2054400")
}

/// The frequency writes of the advertised ("unleashed") profile, shared by
/// `Benchmark` and `Advertised`.
pub fn apply_unleashed() -> (r: Vec<WriteOp>)
    ensures
        ops_view(r@) == freq_plan(
            freq_triple(Mode::Advertised).0,
            freq_triple(Mode::Advertised).1,
            freq_triple(Mode::Advertised).2,
        ),
{
    apply_freqs("1785600", "2419200", "2841600")
}

impl Mode {
    /// Lays out every write applying this mode performs, in order: the
    /// mi_thermald profile for the mode, then an underclock for `Efficiency`
    /// or the advertised caps otherwise.
    pub fn plan(&self) -> (r: Vec<WriteOp>)
        ensures
            ops_view(r@) == plan_for(*self),
    {
        let thermald_mode: &str = match self {
            Mode::Benchmark => "10",
            _ => "20",
        };
        let mut r: Vec<WriteOp> = Vec::new();
        r.push(
            WriteOp {
                path: "/sys/devices/virtual/thermal/thermal_message/sconfig".to_owned(),
                payload: thermald_mode.to_owned(),
            },
        );
        let mut freqs = if let Mode::Efficiency = self {
            apply_efficiency_uc()
        } else {
            apply_unleashed()
        };
        r.append(&mut freqs);
        proof {
            assert(ops_view(r@) =~= plan_for(*self));
        }
        r
    }
}

} // verus!
