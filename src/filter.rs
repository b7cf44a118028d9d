use vstd::prelude::*;

verus! {

/// Filtering mode of one address range.
#[derive(Debug, Clone, Copy, PartialEq, Eq, Structural)]
pub enum FilterConfig {
    /// The range is unused.
    Off,
    /// Trace while the instruction pointer lies in `[start, end)`.
    Trace(u64, u64),
    /// Stop tracing when the instruction pointer leaves `[start, end)`.
    TraceStop(u64, u64),
}

/// The value that a mode takes in its four-bit field of the control register.
pub open spec fn mode_code(f: FilterConfig) -> u64 {
    match f {
        FilterConfig::Off => 0,
        FilterConfig::TraceStop(_, _) => 1,
        FilterConfig::Trace(_, _) => 2,
    }
}

impl FilterConfig {
    pub fn code(&self) -> (r: u64)
        ensures
            r == mode_code(*self),
    {
        match self {
            FilterConfig::Off => 0,
            FilterConfig::TraceStop(_, _) => 1,
            FilterConfig::Trace(_, _) => 2,
        }
    }
}

} // verus!
