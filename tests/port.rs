use processortrace::buffer::HeapBuffer;
use processortrace::capability::PTInfo;
use processortrace::controller::ProcessorTraceController;
use processortrace::msr::{LoggedPort, RegisterPort};
use processortrace::registers::{RTIT_CTL, RTIT_OUTPUT_MASK_PTRS, RTIT_STATUS};

struct FakePort {
    writes: Vec<(u32, u64)>,
    reads: Vec<u32>,
}

impl RegisterPort for FakePort {
    fn read_register(&mut self, msr: u32) -> u64 {
        self.reads.push(msr);
        if msr == RTIT_OUTPUT_MASK_PTRS {
            0x0000_0200_0000_0fff
        } else {
            0
        }
    }

    fn write_register(&mut self, msr: u32, value: u64) {
        self.writes.push((msr, value));
    }
}

#[test]
fn logged_port_forwards_accesses() {
    let port = LoggedPort::new(FakePort { writes: Vec::new(), reads: Vec::new() });
    let mut c = match ProcessorTraceController::new(port, HeapBuffer::new(4096, 0x10_0000)) {
        Ok(c) => c,
        Err(_) => panic!("buffer rejected"),
    };
    let k = PTInfo {
        has_topa: false,
        has_cr3_match: false,
        mtc_freq_mask: 0,
        cyc_thresh_mask: 0,
        psb_freq_mask: 0,
        addr_range_num: 0,
        addr_cfg_max: 0,
    };
    c.start_with(&k);
    c.stop();
    assert_eq!(c.current_offset(), 0x200);
    let p = c.msr_interface().port();
    assert_eq!(p.reads, vec![RTIT_CTL, RTIT_CTL, RTIT_STATUS, RTIT_OUTPUT_MASK_PTRS]);
    assert_eq!(
        p.writes,
        vec![
            (RTIT_OUTPUT_MASK_PTRS, 4095),
            (RTIT_STATUS, 0),
            (RTIT_CTL, 0x2c0d),
            (RTIT_CTL, 0),
            (RTIT_STATUS, 0),
        ]
    );
}
