use vstd::prelude::*;

use crate::buffer::TraceBuffer;
use crate::capability::PTInfo;
use crate::encoding::{
    TraceConfig, compute_control_word, control_word, range_cfg, range_ignored, range_supported,
};
use crate::filter::FilterConfig;
use crate::msr::{MsrAccess, MsrOp, op_value};
use crate::registers::{
    ADDR0_END, ADDR0_START, ADDR1_END, ADDR1_START, ADDR2_END, ADDR2_START, ADDR3_END,
    ADDR3_START, PT_ERROR, RTIT_CTL, RTIT_OUTPUT_BASE, RTIT_OUTPUT_MASK_PTRS, RTIT_STATUS,
    TRACE_EN,
};

verus! {

/// Why a controller could not be made or started.
#[derive(Debug, Clone, Copy, PartialEq, Eq, Structural)]
pub enum TraceError {
    /// The CPU has no Processor Trace leaf: tracing cannot work at all.
    Unsupported,
    /// The buffer's length is not a power of two, so no output mask fits it.
    BufferSizeNotPowerOfTwo,
}

/// Whether `n` is `2^k` for some `k`.
pub open spec fn is_power_of_two(n: nat) -> bool
    decreases n,
{
    if n <= 1 {
        n == 1
    } else {
        n % 2 == 0 && is_power_of_two(n / 2)
    }
}

/// Relies on `usize::is_power_of_two`: true exactly when `n` is `2^k` for some `k`.
#[verifier::external_body]
fn power_of_two(n: usize) -> (r: bool)
    ensures
        r == is_power_of_two(n as nat),
{
    n.is_power_of_two()
}

/// The start and end registers of address range `i`.
pub open spec fn range_start_reg(i: u64) -> u32 {
    if i == 0 {
        ADDR0_START
    } else if i == 1 {
        ADDR1_START
    } else if i == 2 {
        ADDR2_START
    } else {
        ADDR3_START
    }
}

pub open spec fn range_end_reg(i: u64) -> u32 {
    if i == 0 {
        ADDR0_END
    } else if i == 1 {
        ADDR1_END
    } else if i == 2 {
        ADDR2_END
    } else {
        ADDR3_END
    }
}

/// The register writes that program address range `i`: its start and end,
/// when the range is supported and not off; none otherwise.
pub open spec fn range_ops(c: TraceConfig, k: PTInfo, i: u64) -> Seq<MsrOp> {
    if range_supported(k, i) {
        match range_cfg(c, i) {
            FilterConfig::Off => seq![],
            FilterConfig::Trace(s, e) => seq![
                MsrOp::Write(range_start_reg(i), s),
                MsrOp::Write(range_end_reg(i), e),
            ],
            FilterConfig::TraceStop(s, e) => seq![
                MsrOp::Write(range_start_reg(i), s),
                MsrOp::Write(range_end_reg(i), e),
            ],
        }
    } else {
        seq![]
    }
}

/// The ranges, by index, that a start warns about: configured but not supported.
pub open spec fn ignored_ranges(c: TraceConfig, k: PTInfo) -> Seq<u8> {
    (if range_ignored(c, k, 0) { seq![0u8] } else { seq![] }) + (if range_ignored(c, k, 1) {
        seq![1u8]
    } else {
        seq![]
    }) + (if range_ignored(c, k, 2) { seq![2u8] } else { seq![] }) + (if range_ignored(c, k, 3) {
        seq![3u8]
    } else {
        seq![]
    })
}

/// Whether a start with control register value `ctl` clears the buffer first.
pub open spec fn clears_buffer(c: TraceConfig, ctl: u64) -> bool {
    c.clear_on_start && ctl & TRACE_EN == 0
}

/// The accesses with which a start that read `ctl` from the control register
/// begins: the read, a pause of a running trace, and, when the buffer is
/// cleared, the reinstalled mask and a cleared status.
pub open spec fn prepare_ops(c: TraceConfig, ctl: u64, len: nat) -> Seq<MsrOp> {
    seq![MsrOp::Read(RTIT_CTL, ctl)] + (if ctl & TRACE_EN != 0 {
        seq![MsrOp::Write(RTIT_CTL, ctl & !TRACE_EN)]
    } else {
        seq![]
    }) + (if clears_buffer(c, ctl) {
        seq![
            MsrOp::Write(RTIT_OUTPUT_MASK_PTRS, (len - 1) as u64),
            MsrOp::Write(RTIT_STATUS, 0),
        ]
    } else {
        seq![]
    })
}

/// The address-range writes of a start, range 0 first.
pub open spec fn ranges_ops(c: TraceConfig, k: PTInfo) -> Seq<MsrOp> {
    range_ops(c, k, 0) + range_ops(c, k, 1) + range_ops(c, k, 2) + range_ops(c, k, 3)
}

/// The accesses of a start that read `ctl` from the control register, on a
/// buffer of `len` bytes.
pub open spec fn start_ops(c: TraceConfig, k: PTInfo, ctl: u64, len: nat) -> Seq<MsrOp> {
    prepare_ops(c, ctl, len) + ranges_ops(c, k) + seq![MsrOp::Write(RTIT_CTL, control_word(c, k, ctl))]
}

/// Whether history `after` is history `before` followed by the accesses of a
/// start, where the first of those read the control register.
pub open spec fn started(
    before: Seq<MsrOp>,
    after: Seq<MsrOp>,
    c: TraceConfig,
    k: PTInfo,
    len: nat,
) -> bool {
    after == before + start_ops(c, k, value_at(after, before.len() as int), len)
}

/// The accesses of an attach that read `ctl`, on a buffer of `len` bytes at
/// physical address `phys`.
pub open spec fn attach_ops(ctl: u64, phys: u64, len: nat) -> Seq<MsrOp> {
    seq![
        MsrOp::Read(RTIT_CTL, ctl),
        MsrOp::Write(RTIT_OUTPUT_BASE, phys),
        MsrOp::Write(RTIT_OUTPUT_MASK_PTRS, (len - 1) as u64),
        MsrOp::Write(RTIT_STATUS, 0),
    ]
}

/// The accesses of a stop of a running trace that read `ctl`, `status` and
/// `ptrs`.
pub open spec fn stop_ops(ctl: u64, status: u64, ptrs: u64) -> Seq<MsrOp> {
    seq![
        MsrOp::Read(RTIT_CTL, ctl),
        MsrOp::Read(RTIT_STATUS, status),
        MsrOp::Write(RTIT_CTL, 0),
        MsrOp::Write(RTIT_STATUS, 0),
        MsrOp::Read(RTIT_OUTPUT_MASK_PTRS, ptrs),
    ]
}

/// The value of the access at position `i` of a history.
pub open spec fn value_at(ops: Seq<MsrOp>, i: int) -> u64 {
    op_value(ops[i])
}

/// Drives Processor Trace on one logical CPU through `msr_interface`, with
/// `buffer` as the single output region.
pub struct ProcessorTraceController<M: MsrAccess, B: TraceBuffer> {
    running: bool,
    current_offset: u32,
    buffer: B,
    msr_interface: M,
    /// The settings that the next start applies.
    pub config: TraceConfig,
}

impl<M: MsrAccess, B: TraceBuffer> ProcessorTraceController<M, B> {
    pub closed spec fn is_running(&self) -> bool {
        self.running
    }

    pub closed spec fn offset(&self) -> u32 {
        self.current_offset
    }

    pub closed spec fn settings(&self) -> TraceConfig {
        self.config
    }

    pub closed spec fn msr_ops(&self) -> Seq<MsrOp> {
        self.msr_interface.ops()
    }

    pub closed spec fn buffer_bytes(&self) -> Seq<u8> {
        self.buffer.bytes()
    }

    pub closed spec fn buffer_phys(&self) -> u64 {
        self.buffer.phys()
    }

    /// The buffer's length is a power of two.
    pub open spec fn wf(&self) -> bool {
        is_power_of_two(self.buffer_bytes().len())
    }

    /// A controller that is not running, has captured nothing and carries the
    /// default settings. Fails when the buffer's length is not a power of two,
    /// before any register is touched.
    pub fn new(msr_interface: M, buffer: B) -> (r: Result<Self, TraceError>)
        ensures
            r is Err <==> !is_power_of_two(buffer.bytes().len()),
            r is Err ==> r->Err_0 == TraceError::BufferSizeNotPowerOfTwo,
            r matches Ok(t) ==> {
                &&& t.wf()
                &&& !t.is_running()
                &&& t.offset() == 0
                &&& t.msr_ops() == msr_interface.ops()
                &&& t.buffer_bytes() == buffer.bytes()
                &&& t.buffer_phys() == buffer.phys()
                &&& t.settings() == TraceConfig::default_spec()
            },
    {
        if !power_of_two(buffer.len()) {
            return Err(TraceError::BufferSizeNotPowerOfTwo);
        }
        Ok(ProcessorTraceController {
            running: false,
            current_offset: 0,
            buffer,
            msr_interface,
            config: TraceConfig::default(),
        })
    }

    /// Bytes captured as of the last stop.
    pub fn current_offset(&self) -> (r: u32)
        ensures
            r == self.offset(),
    {
        self.current_offset
    }

    /// Whether a trace is running.
    pub fn running(&self) -> (r: bool)
        ensures
            r == self.is_running(),
    {
        self.running
    }

    /// The output buffer.
    pub fn buffer(&self) -> (r: &B)
        ensures
            r.bytes() == self.buffer_bytes(),
            r.phys() == self.buffer_phys(),
    {
        &self.buffer
    }

    /// The register access handle.
    pub fn msr_interface(&self) -> (r: &M)
        ensures
            r.ops() == self.msr_ops(),
    {
        &self.msr_interface
    }

    fn install_buffer_mask(&mut self)
        requires
            old(self).wf(),
        ensures
            final(self).msr_ops() == old(self).msr_ops().push(
                MsrOp::Write(RTIT_OUTPUT_MASK_PTRS, (old(self).buffer_bytes().len() - 1) as u64),
            ),
            final(self).running == old(self).running,
            final(self).current_offset == old(self).current_offset,
            final(self).config == old(self).config,
            final(self).buffer == old(self).buffer,
    {
        let len = self.buffer.len();
        self.msr_interface.write(RTIT_OUTPUT_MASK_PTRS, (len - 1) as u64);
    }

    fn install_trace_buffer(&mut self)
        requires
            old(self).wf(),
        ensures
            final(self).msr_ops() == old(self).msr_ops().push(
                MsrOp::Write(RTIT_OUTPUT_BASE, old(self).buffer_phys()),
            ).push(
                MsrOp::Write(RTIT_OUTPUT_MASK_PTRS, (old(self).buffer_bytes().len() - 1) as u64),
            ),
            final(self).running == old(self).running,
            final(self).current_offset == old(self).current_offset,
            final(self).config == old(self).config,
            final(self).buffer == old(self).buffer,
    {
        let phys = self.buffer.physical_address();
        self.msr_interface.write(RTIT_OUTPUT_BASE, phys);
        self.install_buffer_mask();
    }

    /// Installs the buffer in the hardware and clears the status register.
    /// Returns whether tracing was already enabled, in which case this
    /// controller takes over.
    pub fn attach(&mut self) -> (r: bool)
        requires
            old(self).wf(),
        ensures
            final(self).wf(),
            ({
                let n = old(self).msr_ops().len() as int;
                let ctl = value_at(final(self).msr_ops(), n);
                &&& final(self).msr_ops() == old(self).msr_ops() + attach_ops(
                    ctl,
                    old(self).buffer_phys(),
                    old(self).buffer_bytes().len(),
                )
                &&& r == (ctl & TRACE_EN != 0)
            }),
            final(self).is_running() == old(self).is_running(),
            final(self).offset() == old(self).offset(),
            final(self).settings() == old(self).settings(),
            final(self).buffer_bytes() == old(self).buffer_bytes(),
            final(self).buffer_phys() == old(self).buffer_phys(),
    {
        let ctl = self.msr_interface.read(RTIT_CTL);
        let taken_over = ctl & TRACE_EN != 0;
        self.install_trace_buffer();
        self.msr_interface.write(RTIT_STATUS, 0);
        proof {
            let n = old(self).msr_ops().len() as int;
            assert(self.msr_ops()[n] == MsrOp::Read(RTIT_CTL, ctl));
            assert(self.msr_ops() =~= old(self).msr_ops() + attach_ops(
                ctl,
                old(self).buffer_phys(),
                old(self).buffer_bytes().len(),
            ));
        }
        taken_over
    }

    fn program_range(&mut self, k: &PTInfo, i: u64, start_reg: u32, end_reg: u32) -> (ignored: bool)
        requires
            i < 4,
            start_reg == range_start_reg(i),
            end_reg == range_end_reg(i),
        ensures
            final(self).msr_ops() == old(self).msr_ops() + range_ops(old(self).config, *k, i),
            ignored == range_ignored(old(self).config, *k, i),
            final(self).running == old(self).running,
            final(self).current_offset == old(self).current_offset,
            final(self).config == old(self).config,
            final(self).buffer == old(self).buffer,
    {
        let cfg = if i == 0 {
            self.config.addr0_cfg
        } else if i == 1 {
            self.config.addr1_cfg
        } else if i == 2 {
            self.config.addr2_cfg
        } else {
            self.config.addr3_cfg
        };
        if k.addr_range_num as u64 > i {
            match cfg {
                FilterConfig::Off => {},
                FilterConfig::TraceStop(start, end) => {
                    self.msr_interface.write(start_reg, start);
                    self.msr_interface.write(end_reg, end);
                },
                FilterConfig::Trace(start, end) => {
                    self.msr_interface.write(start_reg, start);
                    self.msr_interface.write(end_reg, end);
                },
            }
            assert(self.msr_ops() =~= old(self).msr_ops() + range_ops(old(self).config, *k, i));
            false
        } else {
            assert(self.msr_ops() =~= old(self).msr_ops() + range_ops(old(self).config, *k, i));
            cfg != FilterConfig::Off
        }
    }

    fn prepare(&mut self) -> (ctl: u64)
        requires
            old(self).wf(),
        ensures
            final(self).wf(),
            final(self).msr_ops() == old(self).msr_ops() + prepare_ops(
                old(self).config,
                ctl,
                old(self).buffer_bytes().len(),
            ),
            final(self).buffer_bytes() == if clears_buffer(old(self).config, ctl) {
                Seq::new(old(self).buffer_bytes().len(), |i: int| 0u8)
            } else {
                old(self).buffer_bytes()
            },
            final(self).running == old(self).running,
            final(self).current_offset == old(self).current_offset,
            final(self).config == old(self).config,
            final(self).buffer_phys() == old(self).buffer_phys(),
    {
        let ctl = self.msr_interface.read(RTIT_CTL);
        let enabled = ctl & TRACE_EN != 0;
        if enabled {
            self.msr_interface.write(RTIT_CTL, ctl & !TRACE_EN);
        }
        if self.config.clear_on_start && !enabled {
            self.buffer.zero();
            self.install_buffer_mask();
            self.msr_interface.write(RTIT_STATUS, 0);
        }
        assert(self.msr_ops() =~= old(self).msr_ops() + prepare_ops(
            old(self).config,
            ctl,
            old(self).buffer_bytes().len(),
        ));
        ctl
    }

    fn program_ranges(&mut self, caps: &PTInfo) -> (ignored: Vec<u8>)
        ensures
            final(self).msr_ops() == old(self).msr_ops() + ranges_ops(old(self).config, *caps),
            ignored@ == ignored_ranges(old(self).config, *caps),
            final(self).running == old(self).running,
            final(self).current_offset == old(self).current_offset,
            final(self).config == old(self).config,
            final(self).buffer == old(self).buffer,
    {
        let mut ignored: Vec<u8> = Vec::new();
        if self.program_range(caps, 0, ADDR0_START, ADDR0_END) {
            ignored.push(0);
        }
        if self.program_range(caps, 1, ADDR1_START, ADDR1_END) {
            ignored.push(1);
        }
        if self.program_range(caps, 2, ADDR2_START, ADDR2_END) {
            ignored.push(2);
        }
        if self.program_range(caps, 3, ADDR3_START, ADDR3_END) {
            ignored.push(3);
        }
        assert(self.msr_ops() =~= old(self).msr_ops() + ranges_ops(old(self).config, *caps));
        assert(ignored@ =~= ignored_ranges(old(self).config, *caps));
        ignored
    }

    /// Starts tracing on a CPU with capabilities `caps`: pauses a trace that
    /// is running, clears the buffer when asked to and no trace was running,
    /// programs the supported address ranges and writes the control word.
    /// Returns the indices of the ranges that were configured but are not
    /// supported, which are left out.
    pub fn start_with(&mut self, caps: &PTInfo) -> (ignored: Vec<u8>)
        requires
            old(self).wf(),
        ensures
            final(self).wf(),
            final(self).is_running(),
            started(
                old(self).msr_ops(),
                final(self).msr_ops(),
                old(self).settings(),
                *caps,
                old(self).buffer_bytes().len(),
            ),
            final(self).buffer_bytes() == if clears_buffer(
                old(self).settings(),
                value_at(final(self).msr_ops(), old(self).msr_ops().len() as int),
            ) {
                Seq::new(old(self).buffer_bytes().len(), |i: int| 0u8)
            } else {
                old(self).buffer_bytes()
            },
            ignored@ == ignored_ranges(old(self).settings(), *caps),
            final(self).offset() == old(self).offset(),
            final(self).settings() == old(self).settings(),
            final(self).buffer_phys() == old(self).buffer_phys(),
    {
        let ghost ops0 = self.msr_ops();
        let ctl = self.prepare();
        let ghost ops1 = self.msr_ops();
        let ignored = self.program_ranges(caps);
        let word = compute_control_word(&self.config, caps, ctl);
        self.msr_interface.write(RTIT_CTL, word);
        self.running = true;
        proof {
            let n = ops0.len() as int;
            assert(ops1[n] == MsrOp::Read(RTIT_CTL, ctl));
            assert(self.msr_ops()[n] == ops1[n]);
            assert(self.msr_ops() =~= ops0 + start_ops(
                self.config,
                *caps,
                ctl,
                self.buffer_bytes().len(),
            ));
        }
        ignored
    }

    /// Queries the CPU's capabilities and starts tracing with them, as
    /// `start_with` does. Fails, with nothing touched, when the CPU has no
    /// Processor Trace support.
    pub fn start(&mut self) -> (r: Result<Vec<u8>, TraceError>)
        requires
            old(self).wf(),
        ensures
            final(self).wf(),
            r is Err ==> r->Err_0 == TraceError::Unsupported && *final(self) == *old(self),
            r matches Ok(ignored) ==> final(self).is_running() && exists|k: PTInfo|
                #[trigger] started(
                    old(self).msr_ops(),
                    final(self).msr_ops(),
                    old(self).settings(),
                    k,
                    old(self).buffer_bytes().len(),
                ) && ignored@ == ignored_ranges(old(self).settings(), k),
            final(self).offset() == old(self).offset(),
            final(self).settings() == old(self).settings(),
            final(self).buffer_phys() == old(self).buffer_phys(),
    {
        match PTInfo::new() {
            None => Err(TraceError::Unsupported),
            Some(caps) => {
                let ignored = self.start_with(&caps);
                Ok(ignored)
            },
        }
    }

    /// Stops a running trace: disables tracing, clears the status register and
    /// records, as the captured byte count, the upper half of the output
    /// pointer register. Returns whether the hardware reported an error.
    /// Does nothing when no trace is running.
    pub fn stop(&mut self) -> (hw_error: bool)
        ensures
            !old(self).is_running() ==> *final(self) == *old(self) && !hw_error,
            old(self).is_running() ==> ({
                let n = old(self).msr_ops().len() as int;
                let ops = final(self).msr_ops();
                &&& ops == old(self).msr_ops() + stop_ops(
                    value_at(ops, n),
                    value_at(ops, n + 1),
                    value_at(ops, n + 4),
                )
                &&& final(self).offset() == (value_at(ops, n + 4) >> 32u64) as u32
                &&& hw_error == (value_at(ops, n + 1) & PT_ERROR != 0)
            }),
            !final(self).is_running(),
            final(self).wf() == old(self).wf(),
            final(self).settings() == old(self).settings(),
            final(self).buffer_bytes() == old(self).buffer_bytes(),
            final(self).buffer_phys() == old(self).buffer_phys(),
    {
        if !self.running {
            return false;
        }
        let ctl = self.msr_interface.read(RTIT_CTL);
        let status = self.msr_interface.read(RTIT_STATUS);
        let hw_error = status & PT_ERROR != 0;
        self.msr_interface.write(RTIT_CTL, 0);
        self.msr_interface.write(RTIT_STATUS, 0);
        let ptrs = self.msr_interface.read(RTIT_OUTPUT_MASK_PTRS);
        self.current_offset = (ptrs >> 32) as u32;
        self.running = false;
        proof {
            let n = old(self).msr_ops().len() as int;
            assert(self.msr_ops() =~= old(self).msr_ops() + stop_ops(ctl, status, ptrs));
            assert(value_at(self.msr_ops(), n) == ctl);
            assert(value_at(self.msr_ops(), n + 1) == status);
            assert(value_at(self.msr_ops(), n + 4) == ptrs);
        }
        hw_error
    }

    /// Stops any running trace, then clears the output mask and pointer
    /// register.
    pub fn detach(&mut self)
        ensures
            !final(self).is_running(),
            !old(self).is_running() ==> final(self).msr_ops() == old(self).msr_ops().push(
                MsrOp::Write(RTIT_OUTPUT_MASK_PTRS, 0),
            ) && final(self).offset() == old(self).offset(),
            old(self).is_running() ==> ({
                let n = old(self).msr_ops().len() as int;
                let ops = final(self).msr_ops();
                &&& ops == old(self).msr_ops() + stop_ops(
                    value_at(ops, n),
                    value_at(ops, n + 1),
                    value_at(ops, n + 4),
                ) + seq![MsrOp::Write(RTIT_OUTPUT_MASK_PTRS, 0)]
                &&& final(self).offset() == (value_at(ops, n + 4) >> 32u64) as u32
            }),
            final(self).msr_ops().last() == MsrOp::Write(RTIT_OUTPUT_MASK_PTRS, 0),
            final(self).wf() == old(self).wf(),
            final(self).settings() == old(self).settings(),
            final(self).buffer_bytes() == old(self).buffer_bytes(),
            final(self).buffer_phys() == old(self).buffer_phys(),
    {
        let ghost ops0 = self.msr_ops();
        self.stop();
        let ghost ops1 = self.msr_ops();
        self.msr_interface.write(RTIT_OUTPUT_MASK_PTRS, 0);
        proof {
            if old(self).running {
                let n = ops0.len() as int;
                assert(ops1.len() == n + 5);
                assert(value_at(self.msr_ops(), n) == value_at(ops1, n));
                assert(value_at(self.msr_ops(), n + 1) == value_at(ops1, n + 1));
                assert(value_at(self.msr_ops(), n + 4) == value_at(ops1, n + 4));
            }
        }
    }
}

} // verus!
