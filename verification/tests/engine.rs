//! Tests of the injection engine against a mocked process-control surface.

use injector::injector::{
    make_call_regs, prepare_stack_pointer, to_words, trampoline, Engine, Phase, Regs, TraceAction,
    TraceError, TraceEvent, RTLD_LAZY,
};

#[test]
fn trampoline_bytes_by_class() {
    assert_eq!(trampoline(2).unwrap(), vec![0xff, 0xd0, 0xcc]);
    assert_eq!(trampoline(1).unwrap(), vec![0x51, 0x53, 0xff, 0xd0, 0xcc]);
    assert!(trampoline(0).is_none());
    assert!(trampoline(9).is_none());
}

#[test]
fn prepared_stack_pointer_is_aligned_and_below() {
    let cases: [(u64, u64); 4] = [
        (0x7ffd_0000_1000, 16),
        (0x7ffd_0000_1003, 1),
        (0xffff_ffff_ffff_ffff, 21),
        (0x20, 0x11),
    ];
    for (rsp, len) in cases {
        let sp = prepare_stack_pointer(rsp, len);
        assert_eq!(sp % 16, 0);
        assert!(sp + len <= rsp);
    }
    // exact value: 0x1000 - 0x10 = 0xff0, already aligned
    assert_eq!(prepare_stack_pointer(0x7ffd_0000_1000, 16), 0x7ffd_0000_0ff0);
    // rounding down after the subtraction
    assert_eq!(prepare_stack_pointer(0x7ffd_0000_1003, 4), 0x7ffd_0000_0ff0);
}

#[test]
fn buffers_are_padded_to_whole_words() {
    assert_eq!(to_words(vec![0x41, 0x42]), vec![0x4241]);
    let w = to_words(vec![1, 2, 3, 4, 5, 6, 7, 8, 9]);
    assert_eq!(w, vec![0x0807060504030201, 0x09]);
    assert_eq!(to_words(vec![]), vec![0]);
}

#[test]
fn call_registers_follow_the_convention() {
    let mut saved = Regs::zeroed();
    saved.rsp = 0x1000;
    saved.rip = 0x400000;
    saved.rdx = 77;
    let r64 = make_call_regs(2, &saved, 0xf00d, 0xff0, RTLD_LAZY);
    assert_eq!(r64.rax, 0xf00d);
    assert_eq!(r64.rdi, 0xff0);
    assert_eq!(r64.rsi, RTLD_LAZY as u64);
    assert_eq!(r64.rsp, 0xff0);
    assert_eq!(r64.rdx, 77);
    assert_eq!(r64.rip, 0x400000);
    let r32 = make_call_regs(1, &saved, 0xf00d, 0xff0, RTLD_LAZY);
    assert_eq!(r32.rax, 0xf00d);
    assert_eq!(r32.rbx, 0xff0);
    assert_eq!(r32.rcx, RTLD_LAZY as u64);
    assert_eq!(r32.rsp, 0xff0);
}

/// A mocked process-control surface: word-granular memory, one register set,
/// an attach flag, and one scripted failure per action kind (1-based call
/// count; 0 never fails).
struct Mock {
    attached: bool,
    regs: Regs,
    mem: Vec<(u64, u64)>,
    /// Return-value stub placed in the accumulator register when resumed.
    stub_handle: u64,
    fail_attach_nth: u32,
    fail_wait_nth: u32,
    fail_readregs_nth: u32,
    fail_writeregs_nth: u32,
    fail_readword_nth: u32,
    fail_writeword_nth: u32,
    fail_resume_nth: u32,
    fail_detach_nth: u32,
    seen: [u32; 8],
}

impl Mock {
    fn new(regs: Regs) -> Mock {
        Mock {
            attached: false,
            regs,
            mem: Vec::new(),
            stub_handle: 0x4242,
            fail_attach_nth: 0,
            fail_wait_nth: 0,
            fail_readregs_nth: 0,
            fail_writeregs_nth: 0,
            fail_readword_nth: 0,
            fail_writeword_nth: 0,
            fail_resume_nth: 0,
            fail_detach_nth: 0,
            seen: [0; 8],
        }
    }

    fn mem_read(&self, addr: u64) -> u64 {
        for (a, w) in &self.mem {
            if *a == addr {
                return *w;
            }
        }
        0
    }

    fn mem_write(&mut self, addr: u64, word: u64) {
        for entry in self.mem.iter_mut() {
            if entry.0 == addr {
                entry.1 = word;
                return;
            }
        }
        self.mem.push((addr, word));
    }

    fn scripted_failure(&mut self, slot: usize, nth: u32) -> bool {
        self.seen[slot] += 1;
        nth != 0 && self.seen[slot] == nth
    }

    fn apply(&mut self, a: &TraceAction) -> TraceEvent {
        match a {
            TraceAction::Attach => {
                if self.scripted_failure(0, self.fail_attach_nth) {
                    return TraceEvent::Failed(5);
                }
                self.attached = true;
                TraceEvent::Completed
            },
            TraceAction::WaitStop => {
                if self.scripted_failure(1, self.fail_wait_nth) {
                    return TraceEvent::Failed(5);
                }
                TraceEvent::Completed
            },
            TraceAction::ReadRegs => {
                if self.scripted_failure(2, self.fail_readregs_nth) {
                    return TraceEvent::Failed(5);
                }
                TraceEvent::GotRegs(self.regs)
            },
            TraceAction::WriteRegs(r) => {
                if self.scripted_failure(3, self.fail_writeregs_nth) {
                    return TraceEvent::Failed(5);
                }
                self.regs = *r;
                TraceEvent::Completed
            },
            TraceAction::ReadWord(addr) => {
                if self.scripted_failure(4, self.fail_readword_nth) {
                    return TraceEvent::Failed(5);
                }
                TraceEvent::GotWord(self.mem_read(*addr))
            },
            TraceAction::WriteWord(addr, w) => {
                if self.scripted_failure(5, self.fail_writeword_nth) {
                    return TraceEvent::Failed(5);
                }
                self.mem_write(*addr, *w);
                TraceEvent::Completed
            },
            TraceAction::Resume => {
                if self.scripted_failure(6, self.fail_resume_nth) {
                    return TraceEvent::Failed(5);
                }
                self.regs.rax = self.stub_handle;
                TraceEvent::Completed
            },
            TraceAction::Detach => {
                if self.scripted_failure(7, self.fail_detach_nth) {
                    return TraceEvent::Failed(5);
                }
                self.attached = false;
                TraceEvent::Completed
            },
        }
    }
}

fn drive(eng: &mut Engine, mock: &mut Mock) -> Result<u64, TraceError> {
    let mut act = eng.step(TraceEvent::Start);
    let mut steps = 0;
    while let Some(a) = act {
        steps += 1;
        assert!(steps < 10_000, "the engine must terminate");
        let ev = mock.apply(&a);
        act = eng.step(ev);
    }
    eng.result()
}

fn initial_regs() -> Regs {
    let mut r = Regs::zeroed();
    r.rsp = 0x7ffc_0000_0100;
    r.rip = 0x40_0000;
    r.rax = 1;
    r.rdx = 42;
    r
}

#[test]
fn failure_at_set_registers_restores_code_and_detaches() {
    let orig_word = 0x1122_3344_5566_7788u64;
    let regs = initial_regs();
    let mut mock = Mock::new(regs);
    mock.mem_write(regs.rip, orig_word);
    mock.fail_writeregs_nth = 1; // the mutated-register write fails
    let mut eng = Engine::new(2, 0xdead_f00d, &b"/tmp/lib.so".to_vec(), RTLD_LAZY);
    let r = drive(&mut eng, &mut mock);
    assert_eq!(r, Err(TraceError::RegisterWriteFailed(5)));
    // the code bytes are exactly the pre-attempt snapshot
    assert_eq!(mock.mem_read(regs.rip), orig_word);
    // tracing control is released
    assert!(!mock.attached);
    // the restore register write went through, back to the snapshot
    assert_eq!(mock.regs, regs);
    assert!(eng.rollback_error.is_none());
}

#[test]
fn end_to_end_injects_and_restores_exactly() {
    let orig_word = 0xaabb_ccdd_0011_2233u64;
    let regs = initial_regs();
    let mut mock = Mock::new(regs);
    mock.mem_write(regs.rip, orig_word);
    mock.stub_handle = 0x4242;
    // the 64-bit trampoline is exactly call-through-accumulator plus trap
    assert_eq!(trampoline(2).unwrap(), vec![0xff, 0xd0, 0xcc]);
    let mut eng = Engine::new(2, 0x7f00_dead_0000, &b"/tmp/evil.so".to_vec(), RTLD_LAZY);
    let r = drive(&mut eng, &mut mock);
    // the post-trap return register is the stubbed handle
    assert_eq!(r, Ok(0x4242));
    // the instruction-pointer bytes equal the pre-attempt snapshot
    assert_eq!(mock.mem_read(regs.rip), orig_word);
    // the full register set equals the pre-attempt snapshot
    assert_eq!(mock.regs, regs);
    assert!(!mock.attached);
    assert!(eng.rollback_error.is_none());
    assert!(matches!(eng.phase, Phase::Done));
}

#[test]
fn the_argument_buffer_lands_below_the_stack_pointer() {
    let regs = initial_regs();
    let mut mock = Mock::new(regs);
    let path = b"/a/b.so".to_vec(); // 7 bytes + terminator = 8: one word
    let mut eng = Engine::new(2, 0x1000, &path, RTLD_LAZY);
    drive(&mut eng, &mut mock).unwrap();
    let sp = prepare_stack_pointer(regs.rsp, 8);
    // the path bytes (with terminator) sit at the prepared stack pointer
    let expected = to_words(b"/a/b.so\0".to_vec());
    assert_eq!(mock.mem_read(sp), expected[0]);
    assert_eq!(sp % 16, 0);
    assert!(sp + 8 <= regs.rsp);
}

#[test]
fn attach_failure_is_fatal_without_rollback() {
    let mut eng = Engine::new(2, 0x1000, &b"/x.so".to_vec(), RTLD_LAZY);
    // drive by hand: the first action must be the attach, and it fails
    let act = eng.step(TraceEvent::Start);
    assert_eq!(act, Some(TraceAction::Attach));
    let act = eng.step(TraceEvent::Failed(13));
    assert_eq!(act, None);
    assert_eq!(eng.result(), Err(TraceError::AttachFailed(13)));
}

#[test]
fn unsupported_class_detaches_with_an_error() {
    let regs = initial_regs();
    let mut mock = Mock::new(regs);
    let mut eng = Engine::new(7, 0x1000, &b"/x.so".to_vec(), RTLD_LAZY);
    let r = drive(&mut eng, &mut mock);
    assert_eq!(r, Err(TraceError::UnsupportedClass));
    assert!(!mock.attached);
}

#[test]
fn too_small_stack_pointer_is_reported() {
    let mut regs = initial_regs();
    regs.rsp = 3; // smaller than the buffer
    let mut mock = Mock::new(regs);
    let mut eng = Engine::new(2, 0x1000, &b"/x.so".to_vec(), RTLD_LAZY);
    let r = drive(&mut eng, &mut mock);
    assert_eq!(r, Err(TraceError::StackTooSmall));
    assert!(!mock.attached);
}

#[test]
fn restore_failure_is_reported_alongside_the_handle() {
    let regs = initial_regs();
    let mut mock = Mock::new(regs);
    mock.fail_writeregs_nth = 2; // the restoring register write fails
    let mut eng = Engine::new(2, 0x1000, &b"/x.so".to_vec(), RTLD_LAZY);
    let r = drive(&mut eng, &mut mock);
    // the attempt's own outcome still stands
    assert_eq!(r, Ok(0x4242));
    // the inability to heal is reported, not swallowed
    assert_eq!(eng.rollback_error, Some(TraceError::RegisterWriteFailed(5)));
    assert!(!mock.attached);
}

#[test]
fn each_operation_failure_carries_its_error() {
    let regs = initial_regs();
    // the path "/x.so" with terminator is 6 bytes: one stack word, so the
    // write order is stack word, payload word, restore word
    let path = b"/x.so".to_vec();

    let mut m = Mock::new(regs);
    m.fail_readregs_nth = 1;
    let mut e = Engine::new(2, 0x1000, &path, RTLD_LAZY);
    assert_eq!(drive(&mut e, &mut m), Err(TraceError::RegisterReadFailed(5)));
    assert!(!m.attached);

    let mut m = Mock::new(regs);
    m.fail_writeword_nth = 1; // the stack write
    let mut e = Engine::new(2, 0x1000, &path, RTLD_LAZY);
    assert_eq!(drive(&mut e, &mut m), Err(TraceError::StackWriteFailed(5)));
    assert!(!m.attached);

    let mut m = Mock::new(regs);
    m.fail_readword_nth = 1; // reading the rollback image
    let mut e = Engine::new(2, 0x1000, &path, RTLD_LAZY);
    assert_eq!(drive(&mut e, &mut m), Err(TraceError::CodeReadFailed(5)));
    assert!(!m.attached);

    let orig_word = 0x5544_3322_1100_99aau64;
    let mut m = Mock::new(regs);
    m.mem_write(regs.rip, orig_word);
    m.fail_writeword_nth = 2; // writing the trampoline over the code
    let mut e = Engine::new(2, 0x1000, &path, RTLD_LAZY);
    assert_eq!(drive(&mut e, &mut m), Err(TraceError::CodeWriteFailed(5)));
    assert_eq!(m.mem_read(regs.rip), orig_word); // rolled back
    assert_eq!(m.regs, regs);
    assert!(!m.attached);

    let mut m = Mock::new(regs);
    m.mem_write(regs.rip, orig_word);
    m.fail_resume_nth = 1;
    let mut e = Engine::new(2, 0x1000, &path, RTLD_LAZY);
    assert_eq!(drive(&mut e, &mut m), Err(TraceError::ResumeFailed(5)));
    assert_eq!(m.mem_read(regs.rip), orig_word);
    assert_eq!(m.regs, regs); // mutated registers written back
    assert!(!m.attached);

    let mut m = Mock::new(regs);
    m.mem_write(regs.rip, orig_word);
    m.fail_wait_nth = 2; // the wait for the trap
    let mut e = Engine::new(2, 0x1000, &path, RTLD_LAZY);
    assert_eq!(drive(&mut e, &mut m), Err(TraceError::WaitFailed(5)));
    assert_eq!(m.mem_read(regs.rip), orig_word);
    assert_eq!(m.regs, regs);
    assert!(!m.attached);

    let mut m = Mock::new(regs);
    m.mem_write(regs.rip, orig_word);
    m.fail_readregs_nth = 2; // reading the post-call result
    let mut e = Engine::new(2, 0x1000, &path, RTLD_LAZY);
    assert_eq!(drive(&mut e, &mut m), Err(TraceError::ResultReadFailed(5)));
    assert_eq!(m.mem_read(regs.rip), orig_word);
    assert_eq!(m.regs, regs);
    assert!(!m.attached);

    let mut m = Mock::new(regs);
    m.fail_detach_nth = 1;
    let mut e = Engine::new(2, 0x1000, &path, RTLD_LAZY);
    // the attempt itself succeeded; the inability to detach is reported
    assert_eq!(drive(&mut e, &mut m), Ok(0x4242));
    assert_eq!(e.rollback_error, Some(TraceError::DetachFailed(5)));

    let mut m = Mock::new(regs);
    m.fail_wait_nth = 1; // the wait right after attach
    let mut e = Engine::new(2, 0x1000, &path, RTLD_LAZY);
    assert_eq!(drive(&mut e, &mut m), Err(TraceError::WaitFailed(5)));
    assert!(!m.attached);
}
