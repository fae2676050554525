use iris_gdb::adapter::{AdapterError, IrisGdbStub, ResourceReading, ResumeAction};
use iris_gdb::registers::GuestState;

fn stub() -> IrisGdbStub {
    IrisGdbStub::from_instance(7)
}

fn simulator_readings() -> Vec<ResourceReading> {
    vec![
        ResourceReading { name: String::from("R0"), data: vec![0x11] },
        ResourceReading { name: String::from("R15"), data: vec![0x0800_0000] },
        ResourceReading { name: String::from("XPSR"), data: vec![0x0100_0000] },
        // a non-register resource in the directory is skipped
        ResourceReading { name: String::from("FPSCR"), data: vec![0xFFFF] },
        // a register whose read returned no data leaves its slot alone
        ResourceReading { name: String::from("R1"), data: vec![] },
    ]
}

#[test]
fn from_instance_binds_the_id() {
    assert_eq!(stub().instance_id, 7);
}

#[test]
fn read_registers_fills_mapped_slots() {
    let target = stub();
    let mut regs = GuestState { regs: [0xAAAA_AAAA; 26] };
    target.read_registers(&mut regs, &simulator_readings());
    assert_eq!(regs.regs[0], 0x11);
    assert_eq!(regs.regs[15], 0x0800_0000);
    assert_eq!(regs.regs[25], 0x0100_0000);
    // empty read: slot 1 unmodified; unmapped name: nothing else touched
    assert_eq!(regs.regs[1], 0xAAAA_AAAA);
    assert_eq!(regs.regs[2], 0xAAAA_AAAA);
}

#[test]
fn read_registers_truncates_wide_words() {
    let target = stub();
    let mut regs = GuestState { regs: [0; 26] };
    let readings = vec![ResourceReading {
        name: String::from("R3"),
        data: vec![0x5_6666_7777],
    }];
    target.read_registers(&mut regs, &readings);
    assert_eq!(regs.regs[3], 0x6666_7777);
}

#[test]
fn later_readings_win() {
    let target = stub();
    let mut regs = GuestState { regs: [0; 26] };
    let readings = vec![
        ResourceReading { name: String::from("R4"), data: vec![1] },
        ResourceReading { name: String::from("R4"), data: vec![2] },
    ];
    target.read_registers(&mut regs, &readings);
    assert_eq!(regs.regs[4], 2);
}

#[test]
fn memory_request_uses_fixed_space_and_unit() {
    let req = stub().memory_request(0x1000, 4);
    assert_eq!(req.instance_id, 7);
    assert_eq!(req.space_id, 0);
    assert_eq!(req.address, 0x1000);
    assert_eq!(req.access_width, 1);
    assert_eq!(req.byte_count, 4);
}

#[test]
fn read_memory_flattens_words_little_endian() {
    let target = stub();
    let mut dest = vec![0u8; 4];
    target.read_addrs(&mut dest, &vec![0xDEADBEEF]);
    assert_eq!(dest, [0xEF, 0xBE, 0xAD, 0xDE]);
}

#[test]
fn read_memory_discards_excess_source_bytes() {
    let target = stub();
    let mut dest = vec![0x99u8; 6];
    target.read_addrs(&mut dest, &vec![0x0102_0304_0506_0708, 0xFFFF_FFFF_FFFF_FFFF]);
    assert_eq!(dest, [0x08, 0x07, 0x06, 0x05, 0x04, 0x03]);
}

#[test]
fn read_memory_leaves_tail_past_source_untouched() {
    let target = stub();
    let mut dest = vec![0x99u8; 12];
    target.read_addrs(&mut dest, &vec![0xDEADBEEF]);
    assert_eq!(
        dest,
        [0xEF, 0xBE, 0xAD, 0xDE, 0, 0, 0, 0, 0x99, 0x99, 0x99, 0x99]
    );
}

#[test]
fn writes_always_report_success() {
    let target = stub();
    assert_eq!(target.write_addrs(0x2000, &vec![1, 2, 3]), Ok(()));
    assert_eq!(target.write_addrs(0, &vec![]), Ok(()));
    let regs = GuestState { regs: [5; 26] };
    assert_eq!(target.write_registers(&regs), Ok(()));
}

#[test]
fn writes_do_not_alter_subsequent_reads() {
    let target = stub();
    // a stub simulator whose state never changes
    let readings = simulator_readings();
    let words = vec![0xDEADBEEFu64];

    let mut regs_before = GuestState { regs: [0; 26] };
    target.read_registers(&mut regs_before, &readings);
    let mut mem_before = vec![0u8; 4];
    target.read_addrs(&mut mem_before, &words);

    assert_eq!(target.write_registers(&GuestState { regs: [9; 26] }), Ok(()));
    assert_eq!(target.write_addrs(0x1000, &vec![0xAB; 4]), Ok(()));

    let mut regs_after = GuestState { regs: [0; 26] };
    target.read_registers(&mut regs_after, &readings);
    let mut mem_after = vec![0u8; 4];
    target.read_addrs(&mut mem_after, &words);

    assert_eq!(regs_before, regs_after);
    assert_eq!(mem_before, mem_after);
}

#[test]
fn resume_is_not_supported() {
    let target = stub();
    assert_eq!(target.resume(ResumeAction::Continue), Err(AdapterError::NotSupported));
    assert_eq!(target.resume(ResumeAction::Step), Err(AdapterError::NotSupported));
    assert_eq!(
        target.resume(ResumeAction::ContinueWithSignal(5)),
        Err(AdapterError::NotSupported)
    );
    assert_eq!(
        target.resume(ResumeAction::StepWithSignal(5)),
        Err(AdapterError::NotSupported)
    );
}
