use vstd::prelude::*;

verus! {

/// Trace control register.
pub const RTIT_CTL: u32 = 0x570;
/// Trace status register.
pub const RTIT_STATUS: u32 = 0x571;
/// Physical base address of the single-region output buffer.
pub const RTIT_OUTPUT_BASE: u32 = 0x560;
/// Output mask (low half) and write pointer (high half).
pub const RTIT_OUTPUT_MASK_PTRS: u32 = 0x561;
/// Start and end registers of the four address ranges.
pub const ADDR0_START: u32 = 0x580;
pub const ADDR0_END: u32 = 0x581;
pub const ADDR1_START: u32 = 0x582;
pub const ADDR1_END: u32 = 0x583;
pub const ADDR2_START: u32 = 0x584;
pub const ADDR2_END: u32 = 0x585;
pub const ADDR3_START: u32 = 0x586;
pub const ADDR3_END: u32 = 0x587;

// Bits of the control register.
pub const TRACE_EN: u64 = 0x1;
pub const CYC_EN: u64 = 0x2;
pub const CTL_OS: u64 = 0x4;
pub const CTL_USER: u64 = 0x8;
pub const PWR_EVT_EN: u64 = 0x10;
pub const FUP_ON_PTW: u64 = 0x20;
pub const FABRIC_EN: u64 = 0x40;
pub const CR3_FILTER: u64 = 0x80;
pub const TOPA: u64 = 0x100;
pub const MTC_EN: u64 = 0x200;
pub const TSC_EN: u64 = 0x400;
pub const DIS_RETC: u64 = 0x800;
pub const PTW_EN: u64 = 0x1000;
pub const BRANCH_EN: u64 = 0x2000;

pub const MTC_SHIFT: u64 = 14;
pub const CYC_SHIFT: u64 = 19;
pub const PSB_SHIFT: u64 = 24;

/// The encoded MTC period, bits 14 to 18.
pub const MTC_FIELD: u64 = 0x7_c000;
/// The encoded cycle threshold, bits 19 to 23.
pub const CYC_FIELD: u64 = 0xf8_0000;
/// The encoded PSB frequency, bits 24 to 31.
pub const PSB_FIELD: u64 = 0xff00_0000;

pub const ADDR0_MASK: u64 = 0xf_0000_0000;
pub const ADDR1_MASK: u64 = 0xf0_0000_0000;
pub const ADDR2_MASK: u64 = 0xf00_0000_0000;
pub const ADDR3_MASK: u64 = 0xf000_0000_0000;

/// Every bit and field of the control register that a start sets afresh.
pub const CONTROLLABLE: u64 = TRACE_EN | CYC_EN | CTL_OS | CTL_USER | PWR_EVT_EN | FUP_ON_PTW
    | FABRIC_EN | CR3_FILTER | TOPA | MTC_EN | TSC_EN | DIS_RETC | PTW_EN | BRANCH_EN | MTC_FIELD
    | CYC_FIELD | PSB_FIELD | ADDR0_MASK | ADDR1_MASK | ADDR2_MASK | ADDR3_MASK;

/// Error bit of the status register.
pub const PT_ERROR: u64 = 0x10;

} // verus!
