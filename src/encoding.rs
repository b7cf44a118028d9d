use vstd::prelude::*;

use crate::capability::PTInfo;
use crate::filter::{FilterConfig, mode_code};
use crate::registers::{
    BRANCH_EN, CONTROLLABLE, CTL_OS, CTL_USER, CYC_EN, CYC_SHIFT, DIS_RETC, MTC_EN, MTC_SHIFT,
    PSB_SHIFT, TRACE_EN, TSC_EN, MTC_FIELD, CYC_FIELD, PSB_FIELD, ADDR0_MASK, ADDR1_MASK, ADDR2_MASK,
    ADDR3_MASK,
};

verus! {

/// The settings of a trace run.
#[derive(Debug, Clone, Copy, PartialEq, Eq, Structural)]
pub struct TraceConfig {
    /// Don't enable branch tracing.
    pub disable_branch: bool,
    /// Trace user space.
    pub user: bool,
    /// Trace kernel space.
    pub kernel: bool,
    /// Emit timestamp-counter packets.
    pub tsc_en: bool,
    /// Disable return compression.
    pub dis_retc: bool,
    /// Clear the trace buffer before a start.
    pub clear_on_start: bool,
    /// Cycle packets every 2^(n-1) cycles; 0 disables them.
    pub cyc_thresh: u64,
    /// MTC packets at frequency 2^(n-1); 0 disables them.
    pub mtc_freq: u64,
    /// PSB packets every 2K^n bytes; 0 keeps the hardware default.
    pub psb_freq: u64,
    /// Mode of address range 0.
    pub addr0_cfg: FilterConfig,
    /// Mode of address range 1.
    pub addr1_cfg: FilterConfig,
    /// Mode of address range 2.
    pub addr2_cfg: FilterConfig,
    /// Mode of address range 3.
    pub addr3_cfg: FilterConfig,
}

impl TraceConfig {
    /// The default settings: branch, user, kernel, TSC and return-compression
    /// disabling on, buffer cleared on start, no MTC, cycle or PSB setting, every
    /// address range off.
    pub open spec fn default_spec() -> TraceConfig {
        TraceConfig {
            disable_branch: false,
            user: true,
            kernel: true,
            tsc_en: true,
            dis_retc: true,
            clear_on_start: true,
            cyc_thresh: 0,
            mtc_freq: 0,
            psb_freq: 0,
            addr0_cfg: FilterConfig::Off,
            addr1_cfg: FilterConfig::Off,
            addr2_cfg: FilterConfig::Off,
            addr3_cfg: FilterConfig::Off,
        }
    }
}

impl Default for TraceConfig {
    fn default() -> (r: TraceConfig)
        ensures
            r == TraceConfig::default_spec(),
    {
        TraceConfig {
            disable_branch: false,
            user: true,
            kernel: true,
            tsc_en: true,
            dis_retc: true,
            clear_on_start: true,
            cyc_thresh: 0,
            mtc_freq: 0,
            psb_freq: 0,
            addr0_cfg: FilterConfig::Off,
            addr1_cfg: FilterConfig::Off,
            addr2_cfg: FilterConfig::Off,
            addr3_cfg: FilterConfig::Off,
        }
    }
}

/// Whether the 1-based encoding `v` is set and legal under capability mask `mask`:
/// bit `v - 1` of the mask is set.
pub open spec fn encoding_allowed(v: u64, mask: u16) -> bool {
    1 <= v <= 16 && (mask as u64 >> ((v - 1) as u64)) & 1 == 1
}

/// What one encoded field contributes: `enable | ((v - 1) << shift)` when
/// `v` is allowed, else nothing.
pub open spec fn field_bits(v: u64, mask: u16, shift: u64, enable: u64) -> u64 {
    if encoding_allowed(v, mask) {
        enable | (((v - 1) as u64) << shift)
    } else {
        0
    }
}

pub open spec fn bit_if(b: bool, bit: u64) -> u64 {
    if b {
        bit
    } else {
        0
    }
}

/// The enable bit and the plain on/off flags.
pub open spec fn flag_bits(c: TraceConfig) -> u64 {
    TRACE_EN | bit_if(!c.disable_branch, BRANCH_EN) | bit_if(c.tsc_en, TSC_EN) | bit_if(
        c.kernel,
        CTL_OS,
    ) | bit_if(c.user, CTL_USER) | bit_if(c.dis_retc, DIS_RETC)
}

/// The configured mode of address range `i`.
pub open spec fn range_cfg(c: TraceConfig, i: u64) -> FilterConfig {
    if i == 0 {
        c.addr0_cfg
    } else if i == 1 {
        c.addr1_cfg
    } else if i == 2 {
        c.addr2_cfg
    } else {
        c.addr3_cfg
    }
}

/// Whether address range `i` is programmed: the CPU has more than `i` ranges.
pub open spec fn range_supported(k: PTInfo, i: u64) -> bool {
    k.addr_range_num as u64 > i
}

/// What address range `i` contributes: its mode at bit `32 + 4 i`, if supported.
pub open spec fn range_bits(c: TraceConfig, k: PTInfo, i: u64) -> u64 {
    if range_supported(k, i) {
        mode_code(range_cfg(c, i)) << ((32 + 4 * i) as u64)
    } else {
        0
    }
}

/// Whether a start warns that address range `i` is configured but not supported.
pub open spec fn range_ignored(c: TraceConfig, k: PTInfo, i: u64) -> bool {
    !range_supported(k, i) && range_cfg(c, i) != FilterConfig::Off
}

/// All the bits that a configuration sets in the control register.
pub open spec fn config_bits(c: TraceConfig, k: PTInfo) -> u64 {
    flag_bits(c) | field_bits(c.mtc_freq, k.mtc_freq_mask, MTC_SHIFT, MTC_EN) | field_bits(
        c.cyc_thresh,
        k.cyc_thresh_mask,
        CYC_SHIFT,
        CYC_EN,
    ) | field_bits(c.psb_freq, k.psb_freq_mask, PSB_SHIFT, 0) | range_bits(c, k, 0) | range_bits(
        c,
        k,
        1,
    ) | range_bits(c, k, 2) | range_bits(c, k, 3)
}

/// The control word that a start writes, given the value it read before:
/// every controllable bit and field is cleared, then the configuration's set.
pub open spec fn control_word(c: TraceConfig, k: PTInfo, prev: u64) -> u64 {
    (prev & !CONTROLLABLE) | config_bits(c, k)
}

fn bit_when(b: bool, bit: u64) -> (r: u64)
    ensures
        r == bit_if(b, bit),
{
    if b {
        bit
    } else {
        0
    }
}

fn encoded_field(v: u64, mask: u16, shift: u64, enable: u64) -> (r: u64)
    requires
        shift < 64,
    ensures
        r == field_bits(v, mask, shift, enable),
{
    if v > 0 && v <= 16 && ((mask as u64) >> (v - 1)) & 1 == 1 {
        enable | ((v - 1) << shift)
    } else {
        0
    }
}

fn encoded_range(cfg: FilterConfig, available: u8, i: u64) -> (r: u64)
    requires
        i < 4,
    ensures
        r == (if available as u64 > i {
            mode_code(cfg) << ((32 + 4 * i) as u64)
        } else {
            0
        }),
{
    if available as u64 > i {
        cfg.code() << (32 + 4 * i)
    } else {
        0
    }
}

/// Computes the control word that a start writes for configuration `c` on a CPU
/// with capabilities `k`, when the control register read `prev`.
pub fn compute_control_word(c: &TraceConfig, k: &PTInfo, prev: u64) -> (r: u64)
    ensures
        r == control_word(*c, *k, prev),
{
    let flags = TRACE_EN | bit_when(!c.disable_branch, BRANCH_EN) | bit_when(c.tsc_en, TSC_EN)
        | bit_when(c.kernel, CTL_OS) | bit_when(c.user, CTL_USER) | bit_when(c.dis_retc, DIS_RETC);
    let mtc = encoded_field(c.mtc_freq, k.mtc_freq_mask, MTC_SHIFT, MTC_EN);
    let cyc = encoded_field(c.cyc_thresh, k.cyc_thresh_mask, CYC_SHIFT, CYC_EN);
    let psb = encoded_field(c.psb_freq, k.psb_freq_mask, PSB_SHIFT, 0);
    let r0 = encoded_range(c.addr0_cfg, k.addr_range_num, 0);
    let r1 = encoded_range(c.addr1_cfg, k.addr_range_num, 1);
    let r2 = encoded_range(c.addr2_cfg, k.addr_range_num, 2);
    let r3 = encoded_range(c.addr3_cfg, k.addr_range_num, 3);
    (prev & !CONTROLLABLE) | (flags | mtc | cyc | psb | r0 | r1 | r2 | r3)
}


/// The plain flags that a configuration may set.
pub const FLAG_BITS: u64 = TRACE_EN | BRANCH_EN | TSC_EN | CTL_OS | CTL_USER | DIS_RETC;

/// The address-range field mask of range `i`.
pub open spec fn range_mask(i: u64) -> u64 {
    if i == 0 {
        ADDR0_MASK
    } else if i == 1 {
        ADDR1_MASK
    } else if i == 2 {
        ADDR2_MASK
    } else {
        ADDR3_MASK
    }
}

proof fn lemma_flags_within(c: TraceConfig)
    ensures
        flag_bits(c) & !FLAG_BITS == 0,
{
    lemma_masks();
    let (a, b, d, e, f) = (
        bit_if(!c.disable_branch, BRANCH_EN),
        bit_if(c.tsc_en, TSC_EN),
        bit_if(c.kernel, CTL_OS),
        bit_if(c.user, CTL_USER),
        bit_if(c.dis_retc, DIS_RETC),
    );
    assert((1u64 | a | b | d | e | f) & !0x2c0du64 == 0) by (bit_vector)
        requires
            a == 0 || a == 0x2000,
            b == 0 || b == 0x400,
            d == 0 || d == 4,
            e == 0 || e == 8,
            f == 0 || f == 0x800,
    ;
}

proof fn lemma_fields_within(c: TraceConfig, k: PTInfo)
    ensures
        field_bits(c.mtc_freq, k.mtc_freq_mask, MTC_SHIFT, MTC_EN) & !(MTC_EN | MTC_FIELD) == 0,
        field_bits(c.cyc_thresh, k.cyc_thresh_mask, CYC_SHIFT, CYC_EN) & !(CYC_EN | CYC_FIELD) == 0,
        field_bits(c.psb_freq, k.psb_freq_mask, PSB_SHIFT, 0) & !PSB_FIELD == 0,
{
    lemma_masks();
    lemma_zero_within();
    if encoding_allowed(c.mtc_freq, k.mtc_freq_mask) {
        let x = (c.mtc_freq - 1) as u64;
        assert((0x200u64 | (x << 14u64)) & !0x7_c200u64 == 0) by (bit_vector)
            requires
                x <= 15,
        ;
    }
    if encoding_allowed(c.cyc_thresh, k.cyc_thresh_mask) {
        let x = (c.cyc_thresh - 1) as u64;
        assert((2u64 | (x << 19u64)) & !0xf8_0002u64 == 0) by (bit_vector)
            requires
                x <= 15,
        ;
    }
    if encoding_allowed(c.psb_freq, k.psb_freq_mask) {
        let x = (c.psb_freq - 1) as u64;
        assert((0u64 | (x << 24u64)) & !0xff00_0000u64 == 0) by (bit_vector)
            requires
                x <= 15,
        ;
    }
}

proof fn lemma_range_within(c: TraceConfig, k: PTInfo, i: u64)
    requires
        i < 4,
    ensures
        range_bits(c, k, i) & !range_mask(i) == 0,
{
    let m = mode_code(range_cfg(c, i));
    assert(m <= 2);
    lemma_zero_within();
    if range_supported(k, i) {
        if i == 0 {
            assert((m << 32u64) & !0xf_0000_0000u64 == 0) by (bit_vector)
                requires
                    m <= 2,
            ;
        } else if i == 1 {
            assert((m << 36u64) & !0xf0_0000_0000u64 == 0) by (bit_vector)
                requires
                    m <= 2,
            ;
        } else if i == 2 {
            assert((m << 40u64) & !0xf00_0000_0000u64 == 0) by (bit_vector)
                requires
                    m <= 2,
            ;
        } else {
            assert((m << 44u64) & !0xf000_0000_0000u64 == 0) by (bit_vector)
                requires
                    m <= 2,
            ;
        }
    }
}

proof fn lemma_zero_within()
    by (bit_vector)
    ensures
        forall|y: u64| #[trigger] (0u64 & y) == 0,
{
}

proof fn lemma_masks()
    ensures
        CONTROLLABLE == 0xffff_ffff_ffffu64,
        FLAG_BITS == 0x2c0du64,
        MTC_EN | MTC_FIELD == 0x7_c200u64,
        CYC_EN | CYC_FIELD == 0xf8_0002u64,
{
    assert(CONTROLLABLE == 0xffff_ffff_ffffu64) by (bit_vector);
    assert(FLAG_BITS == 0x2c0du64) by (bit_vector);
    assert(MTC_EN | MTC_FIELD == 0x7_c200u64) by (bit_vector);
    assert(CYC_EN | CYC_FIELD == 0xf8_0002u64) by (bit_vector);
}

/// How the parts of a control word can be read back from it, when each part
/// stays within its own field.
proof fn lemma_parts(
    prev: u64,
    f: u64,
    m: u64,
    cy: u64,
    p: u64,
    a0: u64,
    a1: u64,
    a2: u64,
    a3: u64,
)
    by (bit_vector)
    requires
        f & !0x2c0du64 == 0,
        m & !0x7_c200u64 == 0,
        cy & !0xf8_0002u64 == 0,
        p & !0xff00_0000u64 == 0,
        a0 & !0xf_0000_0000u64 == 0,
        a1 & !0xf0_0000_0000u64 == 0,
        a2 & !0xf00_0000_0000u64 == 0,
        a3 & !0xf000_0000_0000u64 == 0,
    ensures
        ({
            let w = (prev & !0xffff_ffff_ffffu64) | (f | m | cy | p | a0 | a1 | a2 | a3);
            &&& w & 0x7_c200u64 == m
            &&& w & 0xf8_0002u64 == cy
            &&& w & 0xff00_0000u64 == p
            &&& w & 0xf_0000_0000u64 == a0
            &&& w & 0xf0_0000_0000u64 == a1
            &&& w & 0xf00_0000_0000u64 == a2
            &&& w & 0xf000_0000_0000u64 == a3
            &&& w & 0x2c0du64 == f
        }),
        (f | m | cy | p | a0 | a1 | a2 | a3) & !0xffff_ffff_ffffu64 == 0,
{
}

proof fn lemma_config_parts(c: TraceConfig, k: PTInfo, prev: u64)
    ensures
        control_word(c, k, prev) & (MTC_EN | MTC_FIELD) == field_bits(
            c.mtc_freq,
            k.mtc_freq_mask,
            MTC_SHIFT,
            MTC_EN,
        ),
        control_word(c, k, prev) & (CYC_EN | CYC_FIELD) == field_bits(
            c.cyc_thresh,
            k.cyc_thresh_mask,
            CYC_SHIFT,
            CYC_EN,
        ),
        control_word(c, k, prev) & PSB_FIELD == field_bits(c.psb_freq, k.psb_freq_mask, PSB_SHIFT, 0),
        forall|i: u64| i < 4 ==> control_word(c, k, prev) & #[trigger] range_mask(i) == range_bits(c, k, i),
        control_word(c, k, prev) & FLAG_BITS == flag_bits(c),
        config_bits(c, k) & !CONTROLLABLE == 0,
{
    lemma_flags_within(c);
    lemma_fields_within(c, k);
    lemma_range_within(c, k, 0);
    lemma_range_within(c, k, 1);
    lemma_range_within(c, k, 2);
    lemma_range_within(c, k, 3);
    lemma_masks();
    lemma_parts(
        prev,
        flag_bits(c),
        field_bits(c.mtc_freq, k.mtc_freq_mask, MTC_SHIFT, MTC_EN),
        field_bits(c.cyc_thresh, k.cyc_thresh_mask, CYC_SHIFT, CYC_EN),
        field_bits(c.psb_freq, k.psb_freq_mask, PSB_SHIFT, 0),
        range_bits(c, k, 0),
        range_bits(c, k, 1),
        range_bits(c, k, 2),
        range_bits(c, k, 3),
    );
}

/// A start leaves no trace of an earlier start: the word written after two
/// starts is the word the last configuration gives from the original value,
/// and its controllable bits are exactly those of the last configuration.
pub proof fn lemma_restart_forgets_previous(
    first: TraceConfig,
    first_caps: PTInfo,
    second: TraceConfig,
    second_caps: PTInfo,
    prev: u64,
)
    ensures
        control_word(second, second_caps, control_word(first, first_caps, prev)) == control_word(
            second,
            second_caps,
            prev,
        ),
        control_word(second, second_caps, control_word(first, first_caps, prev)) & CONTROLLABLE
            == config_bits(second, second_caps),
{
    lemma_config_parts(first, first_caps, prev);
    lemma_config_parts(second, second_caps, prev);
    lemma_masks();
    let b1 = config_bits(first, first_caps);
    let b2 = config_bits(second, second_caps);
    assert(((((prev & !0xffff_ffff_ffffu64) | b1) & !0xffff_ffff_ffffu64) | b2) == ((prev
        & !0xffff_ffff_ffffu64) | b2)) by (bit_vector)
        requires
            b1 & !0xffff_ffff_ffffu64 == 0,
    ;
    assert((((prev & !0xffff_ffff_ffffu64) | b2) & 0xffff_ffff_ffffu64) == b2) by (bit_vector)
        requires
            b2 & !0xffff_ffff_ffffu64 == 0,
    ;
}

/// An MTC, cycle-threshold or PSB setting `v` contributes its enable bit (none
/// for PSB) and `(v - 1)` at its shift exactly when bit `v - 1` of its
/// capability mask is set, and nothing otherwise.
pub proof fn lemma_encoded_fields(c: TraceConfig, k: PTInfo, prev: u64)
    ensures
        control_word(c, k, prev) & (MTC_EN | MTC_FIELD) == (if encoding_allowed(
            c.mtc_freq,
            k.mtc_freq_mask,
        ) {
            MTC_EN | (((c.mtc_freq - 1) as u64) << MTC_SHIFT)
        } else {
            0
        }),
        control_word(c, k, prev) & (CYC_EN | CYC_FIELD) == (if encoding_allowed(
            c.cyc_thresh,
            k.cyc_thresh_mask,
        ) {
            CYC_EN | (((c.cyc_thresh - 1) as u64) << CYC_SHIFT)
        } else {
            0
        }),
        control_word(c, k, prev) & PSB_FIELD == (if encoding_allowed(c.psb_freq, k.psb_freq_mask) {
            ((c.psb_freq - 1) as u64) << PSB_SHIFT
        } else {
            0
        }),
{
    lemma_config_parts(c, k, prev);
    if encoding_allowed(c.psb_freq, k.psb_freq_mask) {
        let x = ((c.psb_freq - 1) as u64) << PSB_SHIFT;
        assert(0u64 | x == x) by (bit_vector);
    }
}

/// Address range `i` contributes its mode code (2 for trace, 1 for trace-stop,
/// 0 when off) at bit `32 + 4 i` when the CPU has more than `i` ranges, and
/// nothing otherwise, whatever mode was asked for.
pub proof fn lemma_address_range_field(c: TraceConfig, k: PTInfo, prev: u64, i: u64)
    requires
        i < 4,
    ensures
        control_word(c, k, prev) & range_mask(i) == (if range_supported(k, i) {
            mode_code(range_cfg(c, i)) << ((32 + 4 * i) as u64)
        } else {
            0
        }),
{
    lemma_config_parts(c, k, prev);
}

} // verus!
