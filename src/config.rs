use vstd::prelude::*;

verus! {

/// Detectors built at start-up when no setting is given.
pub const DEFAULT_INITIAL_SIZE: usize = 10;

/// Idle detectors kept at most when no setting is given.
pub const DEFAULT_MAX_SIZE: usize = 50;

/// Bounds on the start-up count.
pub const MIN_INITIAL_SIZE: usize = 1;

pub const MAX_INITIAL_SIZE: usize = 100;

/// Upper bound on the idle count; its lower bound is the start-up count.
pub const MAX_MAX_SIZE: usize = 200;

/// Sizing of the detector pool.
#[derive(Clone, Copy, Debug, PartialEq, Eq, Structural)]
pub struct PoolConfig {
    pub initial_size: usize,
    pub max_size: usize,
}

/// `v` brought into `lo ..= hi` (the lower bound applied first).
pub open spec fn clamp(v: int, lo: int, hi: int) -> int {
    let raised = if v < lo { lo } else { v };
    if raised > hi { hi } else { raised }
}

/// A setting's value, or the default where it is missing or unreadable.
pub open spec fn setting_or(v: Option<usize>, default: usize) -> int {
    match v {
        Some(n) => n as int,
        None => default as int,
    }
}

/// What `text` reads as, as a decimal `usize`.
pub uninterp spec fn usize_from_text(text: Seq<char>) -> Option<usize>;

/// Relies on `str::parse::<usize>`: a reading that depends on the text alone,
/// with every failure mapped to `None`.
#[verifier::external_body]
fn parse_usize(text: &str) -> (r: Option<usize>)
    ensures
        r == usize_from_text(text@),
{
    text.parse::<usize>().ok()
}

impl PoolConfig {
    pub open spec fn wf(&self) -> bool {
        &&& MIN_INITIAL_SIZE <= self.initial_size <= MAX_INITIAL_SIZE
        &&& self.initial_size <= self.max_size <= MAX_MAX_SIZE
    }

    /// The sizing for already-read settings: the start-up count in
    /// `1 ..= 100` (10 by default), the idle bound in
    /// `initial_size ..= 200` (50 by default).
    pub fn from_settings(initial: Option<usize>, max: Option<usize>) -> (r: PoolConfig)
        ensures
            r.wf(),
            r.initial_size == clamp(
                setting_or(initial, DEFAULT_INITIAL_SIZE),
                MIN_INITIAL_SIZE as int,
                MAX_INITIAL_SIZE as int,
            ),
            r.max_size == clamp(
                setting_or(max, DEFAULT_MAX_SIZE),
                r.initial_size as int,
                MAX_MAX_SIZE as int,
            ),
    {
        let i = match initial {
            Some(n) => n,
            None => DEFAULT_INITIAL_SIZE,
        };
        let i = if i < MIN_INITIAL_SIZE { MIN_INITIAL_SIZE } else { i };
        let i = if i > MAX_INITIAL_SIZE { MAX_INITIAL_SIZE } else { i };
        let m = match max {
            Some(n) => n,
            None => DEFAULT_MAX_SIZE,
        };
        let m = if m < i { i } else { m };
        let m = if m > MAX_MAX_SIZE { MAX_MAX_SIZE } else { m };
        PoolConfig { initial_size: i, max_size: m }
    }

    /// The sizing for the raw setting texts, `None` where a setting is unset.
    pub fn from_texts(initial: Option<&str>, max: Option<&str>) -> (r: PoolConfig)
        ensures
            r.wf(),
            r == PoolConfig::from_settings_spec(
                match initial {
                    Some(t) => usize_from_text(t@),
                    None => None,
                },
                match max {
                    Some(t) => usize_from_text(t@),
                    None => None,
                },
            ),
    {
        let i = match initial {
            Some(t) => parse_usize(t),
            None => None,
        };
        let m = match max {
            Some(t) => parse_usize(t),
            None => None,
        };
        PoolConfig::from_settings(i, m)
    }

    pub open spec fn from_settings_spec(initial: Option<usize>, max: Option<usize>) -> PoolConfig {
        let i = clamp(
            setting_or(initial, DEFAULT_INITIAL_SIZE),
            MIN_INITIAL_SIZE as int,
            MAX_INITIAL_SIZE as int,
        );
        PoolConfig {
            initial_size: i as usize,
            max_size: clamp(setting_or(max, DEFAULT_MAX_SIZE), i, MAX_MAX_SIZE as int) as usize,
        }
    }
}

} // verus!
