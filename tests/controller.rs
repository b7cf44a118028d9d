use processortrace::buffer::{HeapBuffer, TraceBuffer};
use processortrace::capability::PTInfo;
use processortrace::controller::{ProcessorTraceController, TraceError};
use processortrace::encoding::TraceConfig;
use processortrace::filter::FilterConfig;
use processortrace::msr::{MsrOp, SimulatedMsrs};
use processortrace::registers::{
    ADDR0_END, ADDR0_START, ADDR1_END, ADDR1_START, BRANCH_EN, CTL_OS, CTL_USER, DIS_RETC,
    MTC_EN, RTIT_CTL, RTIT_OUTPUT_BASE, RTIT_OUTPUT_MASK_PTRS, RTIT_STATUS, TRACE_EN, TSC_EN,
};

type Controller = ProcessorTraceController<SimulatedMsrs, HeapBuffer>;

const DEFAULT_WORD: u64 = TRACE_EN | BRANCH_EN | TSC_EN | CTL_OS | CTL_USER | DIS_RETC;

fn caps(addr_range_num: u8) -> PTInfo {
    PTInfo {
        has_topa: true,
        has_cr3_match: true,
        mtc_freq_mask: 0,
        cyc_thresh_mask: 0,
        psb_freq_mask: 0,
        addr_range_num,
        addr_cfg_max: 2,
    }
}

fn controller(len: usize) -> Controller {
    match ProcessorTraceController::new(SimulatedMsrs::new(), HeapBuffer::new(len, 0x4000_0000)) {
        Ok(c) => c,
        Err(_) => panic!("buffer rejected"),
    }
}

fn controller_with(msrs: SimulatedMsrs, len: usize) -> Controller {
    match ProcessorTraceController::new(msrs, HeapBuffer::new(len, 0)) {
        Ok(c) => c,
        Err(_) => panic!("buffer rejected"),
    }
}

fn ops(c: &Controller) -> Vec<MsrOp> {
    c.msr_interface().log().clone()
}

fn ctl_value(c: &Controller) -> u64 {
    c.msr_interface().value(RTIT_CTL)
}

#[test]
fn new_rejects_length_not_power_of_two() {
    let r = ProcessorTraceController::new(SimulatedMsrs::new(), HeapBuffer::new(3000, 0x1000));
    assert!(matches!(r, Err(TraceError::BufferSizeNotPowerOfTwo)));
    let r = ProcessorTraceController::new(SimulatedMsrs::new(), HeapBuffer::new(0, 0x1000));
    assert!(matches!(r, Err(TraceError::BufferSizeNotPowerOfTwo)));
    let r = ProcessorTraceController::new(SimulatedMsrs::new(), HeapBuffer::new(4096, 0x1000));
    assert!(r.is_ok());
}

#[test]
fn new_is_idle_with_default_settings() {
    let c = controller(4096);
    assert!(!c.running());
    assert_eq!(c.current_offset(), 0);
    assert!(ops(&c).is_empty());
    assert_eq!(c.config, TraceConfig::default());
    assert!(c.config.user && c.config.kernel && c.config.tsc_en && c.config.dis_retc);
    assert!(c.config.clear_on_start && !c.config.disable_branch);
}

#[test]
fn attach_installs_buffer() {
    let mut c = controller(4096);
    let taken_over = c.attach();
    assert!(!taken_over);
    assert_eq!(
        ops(&c),
        vec![
            MsrOp::Read(RTIT_CTL, 0),
            MsrOp::Write(RTIT_OUTPUT_BASE, 0x4000_0000),
            MsrOp::Write(RTIT_OUTPUT_MASK_PTRS, 4095),
            MsrOp::Write(RTIT_STATUS, 0),
        ]
    );
}

#[test]
fn attach_takes_over_enabled_trace() {
    let mut msrs = SimulatedMsrs::new();
    msrs.set(RTIT_CTL, TRACE_EN | 0x2000);
    let mut c = controller_with(msrs, 2048);
    assert!(c.attach());
    assert_eq!(ops(&c)[0], MsrOp::Read(RTIT_CTL, TRACE_EN | 0x2000));
}

#[test]
fn start_default_configuration() {
    let mut c = controller(4096);
    let ignored = c.start_with(&caps(0));
    assert!(ignored.is_empty());
    assert!(c.running());
    assert_eq!(DEFAULT_WORD, 0x2c0d);
    assert_eq!(
        ops(&c),
        vec![
            MsrOp::Read(RTIT_CTL, 0),
            MsrOp::Write(RTIT_OUTPUT_MASK_PTRS, 4095),
            MsrOp::Write(RTIT_STATUS, 0),
            MsrOp::Write(RTIT_CTL, DEFAULT_WORD),
        ]
    );
}

#[test]
fn start_flags_follow_settings() {
    let mut c = controller(4096);
    c.config.disable_branch = true;
    c.config.tsc_en = false;
    c.config.kernel = false;
    c.config.user = true;
    c.config.dis_retc = false;
    c.config.clear_on_start = false;
    c.start_with(&caps(0));
    assert_eq!(ops(&c), vec![MsrOp::Read(RTIT_CTL, 0), MsrOp::Write(RTIT_CTL, TRACE_EN | CTL_USER)]);
}

#[test]
fn start_mtc_in_capability_mask() {
    let mut c = controller(4096);
    c.config.mtc_freq = 3;
    let mut k = caps(0);
    k.mtc_freq_mask = 0b0100;
    c.start_with(&k);
    let w = ctl_value(&c);
    assert_eq!(w & (MTC_EN | (2 << 14)), MTC_EN | (2 << 14));
    assert_eq!(w, DEFAULT_WORD | 0x200 | 0x8000);
}

#[test]
fn start_drops_encodings_outside_mask() {
    let mut c = controller(4096);
    c.config.mtc_freq = 2;
    c.config.cyc_thresh = 17;
    c.config.psb_freq = 5;
    let mut k = caps(0);
    k.mtc_freq_mask = 0b0100;
    k.cyc_thresh_mask = 0xffff;
    k.psb_freq_mask = 0b1000;
    c.start_with(&k);
    assert_eq!(ctl_value(&c), DEFAULT_WORD);
}

#[test]
fn start_cycle_threshold_and_psb() {
    let mut c = controller(4096);
    c.config.cyc_thresh = 1;
    c.config.psb_freq = 4;
    let mut k = caps(0);
    k.cyc_thresh_mask = 1;
    k.psb_freq_mask = 0b1000;
    c.start_with(&k);
    assert_eq!(ctl_value(&c), DEFAULT_WORD | 0x2 | (3 << 24));
}

#[test]
fn start_address_range_beyond_support() {
    let mut c = controller(4096);
    c.config.clear_on_start = false;
    c.config.addr0_cfg = FilterConfig::Trace(0x1000, 0x2000);
    c.config.addr1_cfg = FilterConfig::Trace(0x3000, 0x4000);
    let ignored = c.start_with(&caps(1));
    assert_eq!(ignored, vec![1u8]);
    let w = ctl_value(&c);
    assert_eq!((w >> 32) & 0xf, 2);
    assert_eq!((w >> 36) & 0xf, 0);
    assert_eq!(
        ops(&c),
        vec![
            MsrOp::Read(RTIT_CTL, 0),
            MsrOp::Write(ADDR0_START, 0x1000),
            MsrOp::Write(ADDR0_END, 0x2000),
            MsrOp::Write(RTIT_CTL, DEFAULT_WORD | (2 << 32)),
        ]
    );
    assert!(!ops(&c).iter().any(|op| matches!(op, MsrOp::Write(r, _) if *r == ADDR1_START || *r == ADDR1_END)));
}

#[test]
fn start_trace_stop_range_and_off_ranges() {
    let mut c = controller(4096);
    c.config.clear_on_start = false;
    c.config.addr1_cfg = FilterConfig::TraceStop(0x5000, 0x6000);
    c.config.addr3_cfg = FilterConfig::Off;
    let ignored = c.start_with(&caps(4));
    assert!(ignored.is_empty());
    assert_eq!(ctl_value(&c), DEFAULT_WORD | (1 << 36));
    assert_eq!(c.msr_interface().value(ADDR1_START), 0x5000);
    assert_eq!(c.msr_interface().value(ADDR1_END), 0x6000);
}

#[test]
fn start_twice_keeps_no_stale_bits() {
    // Bits above the address-range fields are not the controller's to set.
    let mut msrs = SimulatedMsrs::new();
    msrs.set(RTIT_CTL, 0xabcd << 48);
    let mut c = controller_with(msrs, 4096);
    c.config.mtc_freq = 3;
    c.config.addr0_cfg = FilterConfig::Trace(1, 2);
    let mut k = caps(2);
    k.mtc_freq_mask = 0xffff;
    c.start_with(&k);
    assert_eq!(ctl_value(&c), (0xabcd << 48) | DEFAULT_WORD | 0x200 | 0x8000 | (2 << 32));
    c.config = TraceConfig::default();
    c.config.user = false;
    c.start_with(&k);
    assert_eq!(ctl_value(&c), (0xabcd << 48) | (DEFAULT_WORD & !CTL_USER));
}

#[test]
fn start_pauses_running_trace_and_keeps_buffer() {
    let mut msrs = SimulatedMsrs::new();
    msrs.set(RTIT_CTL, TRACE_EN | BRANCH_EN);
    let mut buffer = HeapBuffer::new(1024, 0);
    buffer.put(5, 0xaa);
    let mut c = match ProcessorTraceController::new(msrs, buffer) {
        Ok(c) => c,
        Err(_) => panic!("buffer rejected"),
    };
    c.start_with(&caps(0));
    assert_eq!(
        ops(&c),
        vec![
            MsrOp::Read(RTIT_CTL, TRACE_EN | BRANCH_EN),
            MsrOp::Write(RTIT_CTL, BRANCH_EN),
            MsrOp::Write(RTIT_CTL, DEFAULT_WORD),
        ]
    );
    assert_eq!(c.buffer().as_slice()[5], 0xaa);
}

#[test]
fn start_clears_buffer_when_idle() {
    let mut buffer = HeapBuffer::new(1024, 0);
    buffer.put(5, 0xaa);
    buffer.put(1023, 0x55);
    let mut c = match ProcessorTraceController::new(SimulatedMsrs::new(), buffer) {
        Ok(c) => c,
        Err(_) => panic!("buffer rejected"),
    };
    c.start_with(&caps(0));
    assert_eq!(c.buffer().len(), 1024);
    assert!(c.buffer().as_slice().iter().all(|b| *b == 0));
}

#[test]
fn stop_without_start_does_nothing() {
    let mut c = controller(4096);
    assert!(!c.stop());
    assert!(ops(&c).is_empty());
    assert_eq!(c.current_offset(), 0);
    assert!(!c.running());
}

#[test]
fn stop_after_start_reads_offset() {
    // The hardware has advanced the write pointer in the upper half.
    let mut msrs = SimulatedMsrs::new();
    msrs.set(RTIT_OUTPUT_MASK_PTRS, 0x0000_1234_0000_0fff);
    let mut c = controller_with(msrs, 4096);
    c.config.clear_on_start = false;
    c.start_with(&caps(0));
    let before = ops(&c).len();
    let hw_error = c.stop();
    assert!(!hw_error);
    assert!(!c.running());
    assert_eq!(c.current_offset(), 0x1234);
    assert_eq!(
        ops(&c)[before..].to_vec(),
        vec![
            MsrOp::Read(RTIT_CTL, DEFAULT_WORD),
            MsrOp::Read(RTIT_STATUS, 0),
            MsrOp::Write(RTIT_CTL, 0),
            MsrOp::Write(RTIT_STATUS, 0),
            MsrOp::Read(RTIT_OUTPUT_MASK_PTRS, 0x0000_1234_0000_0fff),
        ]
    );
    assert!(!c.stop());
    assert_eq!(ops(&c).len(), before + 5);
    assert_eq!(c.current_offset(), 0x1234);
}

#[test]
fn stop_reports_hardware_error() {
    let mut msrs = SimulatedMsrs::new();
    msrs.set(RTIT_STATUS, 0x10);
    let mut c = controller_with(msrs, 4096);
    c.config.clear_on_start = false;
    c.start_with(&caps(0));
    assert!(c.stop());
    assert_eq!(c.msr_interface().value(RTIT_STATUS), 0);
    assert_eq!(c.msr_interface().value(RTIT_CTL), 0);
}

#[test]
fn detach_clears_output_pointer() {
    let mut c = controller(4096);
    c.attach();
    c.start_with(&caps(0));
    c.detach();
    assert!(!c.running());
    assert_eq!(c.msr_interface().value(RTIT_OUTPUT_MASK_PTRS), 0);
    assert_eq!(ops(&c).last(), Some(&MsrOp::Write(RTIT_OUTPUT_MASK_PTRS, 0)));

    let mut idle = controller(4096);
    idle.detach();
    assert!(!idle.running());
    assert_eq!(ops(&idle), vec![MsrOp::Write(RTIT_OUTPUT_MASK_PTRS, 0)]);
}

#[test]
fn start_queries_this_cpu() {
    let mut c = controller(4096);
    match c.start() {
        Ok(_) => {
            assert!(c.running());
            assert_eq!(ops(&c)[0], MsrOp::Read(RTIT_CTL, 0));
            assert!(matches!(ops(&c).last(), Some(MsrOp::Write(r, _)) if *r == RTIT_CTL));
        }
        Err(e) => {
            assert_eq!(e, TraceError::Unsupported);
            assert!(!c.running());
            assert!(ops(&c).is_empty());
        }
    }
}
