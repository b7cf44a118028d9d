use vstd::prelude::*;

verus! {

/// The raw fields of the CPU's Processor Trace leaf, as the CPU reports them.
#[derive(Debug, Clone, Copy, PartialEq, Eq, Structural)]
pub struct CpuTraceLeaf {
    pub has_topa: bool,
    pub has_rtit_cr3_match: bool,
    pub has_ip_tracestop_filtering: bool,
    pub mtc_period_encodings: u16,
    pub cycle_threshold_encodings: u16,
    pub psb_frequency_encodings: u16,
    pub address_ranges: u8,
}

/// What the current CPU supports of Processor Trace.
///
/// In each of the three masks, bit `i` set means that the encoded value
/// `i + 1` is a legal setting of that field.
#[derive(Debug, Clone, Copy, PartialEq, Eq, Structural)]
pub struct PTInfo {
    pub has_topa: bool,
    pub has_cr3_match: bool,
    pub mtc_freq_mask: u16,
    pub cyc_thresh_mask: u16,
    pub psb_freq_mask: u16,
    pub addr_range_num: u8,
    pub addr_cfg_max: usize,
}

/// The snapshot that a CPU leaf describes.
pub open spec fn info_of_leaf(l: CpuTraceLeaf) -> PTInfo {
    PTInfo {
        has_topa: l.has_topa,
        has_cr3_match: l.has_rtit_cr3_match,
        mtc_freq_mask: l.mtc_period_encodings,
        cyc_thresh_mask: l.cycle_threshold_encodings,
        psb_freq_mask: l.psb_frequency_encodings,
        addr_range_num: l.address_ranges,
        addr_cfg_max: if l.has_ip_tracestop_filtering { 2 } else { 0 },
    }
}

/// Relies on x86's `cpuid::CpuId::get_processor_trace_info` (raw-cpuid) and the
/// accessors of the leaf it returns: `None` when the CPU has no Processor Trace
/// leaf. What it returns depends on the machine, so nothing more is stated.
#[verifier::external_body]
fn query_trace_leaf() -> (r: Option<CpuTraceLeaf>) {
    x86::cpuid::CpuId::new().get_processor_trace_info().map(
        |i| CpuTraceLeaf {
            has_topa: i.has_topa(),
            has_rtit_cr3_match: i.has_rtit_cr3_match(),
            has_ip_tracestop_filtering: i.has_ip_tracestop_filtering(),
            mtc_period_encodings: i.supported_mtc_period_encodings(),
            cycle_threshold_encodings: i.supported_cycle_threshold_value_encodings(),
            psb_frequency_encodings: i.supported_psb_frequency_encodings(),
            address_ranges: i.configurable_address_ranges(),
        },
    )
}

impl PTInfo {
    /// The snapshot that a CPU leaf describes.
    pub fn from_leaf(l: &CpuTraceLeaf) -> (r: PTInfo)
        ensures
            r == info_of_leaf(*l),
    {
        PTInfo {
            has_topa: l.has_topa,
            has_cr3_match: l.has_rtit_cr3_match,
            mtc_freq_mask: l.mtc_period_encodings,
            cyc_thresh_mask: l.cycle_threshold_encodings,
            psb_freq_mask: l.psb_frequency_encodings,
            addr_range_num: l.address_ranges,
            addr_cfg_max: if l.has_ip_tracestop_filtering {
                2
            } else {
                0
            },
        }
    }

    /// Queries the current CPU. `None` when it has no Processor Trace leaf:
    /// no partial snapshot exists.
    pub fn new() -> (r: Option<PTInfo>)
        ensures
            r matches Some(i) ==> exists|l: CpuTraceLeaf| i == #[trigger] info_of_leaf(l),
    {
        match query_trace_leaf() {
            Some(l) => Some(PTInfo::from_leaf(&l)),
            None => None,
        }
    }
}

} // verus!
