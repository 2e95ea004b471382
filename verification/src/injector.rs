//! The injection engine: attaches to a live process, writes the library path
//! onto its stack, plants a short call-and-trap trampoline at the instruction
//! pointer, points the call registers at the resolved loader entry, lets the
//! trampoline run, captures the returned handle, and restores every byte and
//! register it touched before detaching.
//!
//! The decisions are a verified state machine ([`Engine`]) from events to
//! actions; [`call_dlopen`] drives it against the kernel's tracing interface.

use vstd::prelude::*;

use crate::elf::elfdefs::{ELFCLASS32, ELFCLASS64};
use crate::bytes::u64_le;

verus! {

/// Loader mode flag: resolve symbols lazily.
pub const RTLD_LAZY: i32 = 0x1;

/// Loader mode flag: resolve symbols now.
pub const RTLD_NOW: i32 = 0x2;

/// Mask over the binding-time mode flags.
pub const RTLD_BINDING_MASK: i32 = 0x3;

/// Loader mode flag: do not load, only look up.
pub const RTLD_NOLOAD: i32 = 0x4;

/// Loader mode flag: place the module's own symbols first.
pub const RTLD_DEEPBIND: i32 = 0x8;

/// Loader mode flag: make symbols globally visible.
pub const RTLD_GLOBAL: i32 = 0x100;

/// Loader mode flag: keep symbols local.
pub const RTLD_LOCAL: i32 = 0;

/// Loader mode flag: never unload the module.
pub const RTLD_NODELETE: i32 = 0x1000;

/// The complete general-purpose register set of the traced process, as the
/// kernel's tracing interface hands it out and takes it back.
#[derive(PartialEq, Eq, Structural, Clone, Copy, Debug)]
pub struct Regs {
    pub r15: u64,
    pub r14: u64,
    pub r13: u64,
    pub r12: u64,
    pub rbp: u64,
    pub rbx: u64,
    pub r11: u64,
    pub r10: u64,
    pub r9: u64,
    pub r8: u64,
    pub rax: u64,
    pub rcx: u64,
    pub rdx: u64,
    pub rsi: u64,
    pub rdi: u64,
    pub orig_rax: u64,
    pub rip: u64,
    pub cs: u64,
    pub eflags: u64,
    pub rsp: u64,
    pub ss: u64,
    pub fs_base: u64,
    pub gs_base: u64,
    pub ds: u64,
    pub es: u64,
    pub fs: u64,
    pub gs: u64,
}

impl Regs {
    /// An all-zero register set.
    pub fn zeroed() -> (r: Regs)
        ensures
            r == (Regs {
                r15: 0u64,
                r14: 0u64,
                r13: 0u64,
                r12: 0u64,
                rbp: 0u64,
                rbx: 0u64,
                r11: 0u64,
                r10: 0u64,
                r9: 0u64,
                r8: 0u64,
                rax: 0u64,
                rcx: 0u64,
                rdx: 0u64,
                rsi: 0u64,
                rdi: 0u64,
                orig_rax: 0u64,
                rip: 0u64,
                cs: 0u64,
                eflags: 0u64,
                rsp: 0u64,
                ss: 0u64,
                fs_base: 0u64,
                gs_base: 0u64,
                ds: 0u64,
                es: 0u64,
                fs: 0u64,
                gs: 0u64,
            }),
    {
        Regs {
            r15: 0,
            r14: 0,
            r13: 0,
            r12: 0,
            rbp: 0,
            rbx: 0,
            r11: 0,
            r10: 0,
            r9: 0,
            r8: 0,
            rax: 0,
            rcx: 0,
            rdx: 0,
            rsi: 0,
            rdi: 0,
            orig_rax: 0,
            rip: 0,
            cs: 0,
            eflags: 0,
            rsp: 0,
            ss: 0,
            fs_base: 0,
            gs_base: 0,
            ds: 0,
            es: 0,
            fs: 0,
            gs: 0,
        }
    }
}

/// The short machine-code sequence planted at the instruction pointer. The
/// 32-bit sequence pushes the mode, then the path pointer, calls through the
/// accumulator register and traps; the 64-bit sequence calls through the
/// accumulator register (arguments already sit in the argument registers) and
/// traps. The trap is what re-stops the traced process under its tracer.
pub open spec fn trampoline_spec(class: u8) -> Seq<u8> {
    if class == ELFCLASS32 {
        seq![0x51u8, 0x53u8, 0xffu8, 0xd0u8, 0xccu8]
    } else {
        seq![0xffu8, 0xd0u8, 0xccu8]
    }
}

/// The trampoline bytes for a width class; `None` for an unsupported class.
pub fn trampoline(elf_class: u8) -> (r: Option<Vec<u8>>)
    ensures
        r is Some <==> (elf_class == ELFCLASS32 || elf_class == ELFCLASS64),
        r matches Some(v) ==> v@ == trampoline_spec(elf_class),
{
    if elf_class == ELFCLASS32 {
        let mut v: Vec<u8> = Vec::new();
        v.push(0x51);
        v.push(0x53);
        v.push(0xff);
        v.push(0xd0);
        v.push(0xcc);
        proof {
            assert(v@ =~= trampoline_spec(elf_class));
        }
        Some(v)
    } else if elf_class == ELFCLASS64 {
        let mut v: Vec<u8> = Vec::new();
        v.push(0xff);
        v.push(0xd0);
        v.push(0xcc);
        proof {
            assert(v@ =~= trampoline_spec(elf_class));
        }
        Some(v)
    } else {
        None
    }
}

/// The prepared stack pointer: the buffer length subtracted from the saved
/// stack pointer, rounded down to a 16-byte boundary (the ABI's stack
/// alignment for the subsequent call).
pub open spec fn prepared_sp(rsp: u64, len: u64) -> u64 {
    ((rsp - len) as u64) & 0xffff_ffff_ffff_fff0u64
}

/// Computes the prepared stack pointer: 16-byte aligned and at least `len`
/// bytes below the saved stack pointer.
pub fn prepare_stack_pointer(rsp: u64, len: u64) -> (r: u64)
    requires
        len <= rsp,
    ensures
        r == prepared_sp(rsp, len),
        r % 16 == 0,
        r + len <= rsp,
{
    let x = rsp - len;
    let r = x & 0xffff_ffff_ffff_fff0u64;
    proof {
        assert((x & 0xffff_ffff_ffff_fff0u64) <= x && (x & 0xffff_ffff_ffff_fff0u64) % 16 == 0)
            by (bit_vector);
    }
    r
}

/// Length after zero-padding to whole words: at least one word, and a whole
/// number of words.
pub open spec fn padded_len(n: int) -> int {
    if n <= 8 {
        8
    } else if n % 8 == 0 {
        n
    } else {
        n + (8 - n % 8)
    }
}

/// The buffer zero-padded to a whole number of words.
pub open spec fn zero_pad(b: Seq<u8>) -> Seq<u8> {
    b + Seq::new((padded_len(b.len() as int) - b.len()) as nat, |i: int| 0u8)
}

/// The words of a whole-word buffer, in ascending address order, each read
/// little-endian.
pub open spec fn words_of(b: Seq<u8>) -> Seq<u64> {
    Seq::new((b.len() / 8) as nat, |i: int| u64_le(b, 8 * i))
}

/// The words a buffer occupies in target memory: zero-padded, then grouped.
pub open spec fn buffer_words(b: Seq<u8>) -> Seq<u64> {
    words_of(zero_pad(b))
}

/// Zero-pads the buffer to whole words and groups it into the words written
/// to the target, in ascending address order.
pub fn to_words(buf: Vec<u8>) -> (r: Vec<u64>)
    requires
        buf@.len() + 8 <= usize::MAX,
    ensures
        r@ == buffer_words(buf@),
        r@.len() >= 1,
{
    let ghost orig = buf@;
    let mut b = buf;
    while b.len() < 8 || b.len() % 8 != 0
        invariant
            orig.len() + 8 <= usize::MAX,
            orig.len() <= b@.len() <= padded_len(orig.len() as int),
            b@ == zero_pad(orig).subrange(0, b@.len() as int),
        decreases padded_len(orig.len() as int) - b@.len(),
    {
        b.push(0);
        proof {
            assert(b@ =~= zero_pad(orig).subrange(0, b@.len() as int));
        }
    }
    proof {
        assert(b@ =~= zero_pad(orig));
    }
    let mut w: Vec<u64> = Vec::new();
    let mut i: usize = 0;
    let nw = b.len() / 8;
    while i < nw
        invariant
            b@.len() == 8 * nw,
            8 * nw <= usize::MAX,
            w@.len() == i <= nw,
            forall|j: int| 0 <= j < i ==> w@[j] == u64_le(b@, 8 * j),
        decreases nw - i,
    {
        w.push(crate::bytes::read_u64(&b, 8 * i));
        i = i + 1;
    }
    proof {
        assert(w@ =~= words_of(b@));
    }
    w
}

/// The register set that makes the trampoline perform the call: the
/// accumulator register holds the function address and the stack pointer the
/// prepared value; the 32-bit convention stages (path pointer, mode) in the
/// registers the trampoline pushes, the 64-bit convention places them
/// directly in the first two argument registers. Every other register keeps
/// its saved value.
pub open spec fn call_regs_spec(class: u8, saved: Regs, fn_addr: u64, sp: u64, mode: i32) -> Regs {
    if class == ELFCLASS32 {
        Regs { rax: fn_addr, rbx: sp, rcx: mode as u64, rsp: sp, ..saved }
    } else {
        Regs { rax: fn_addr, rdi: sp, rsi: mode as u64, rsp: sp, ..saved }
    }
}

/// Builds the mutated register set for the call.
pub fn make_call_regs(class: u8, saved: &Regs, fn_addr: u64, sp: u64, mode: i32) -> (r: Regs)
    ensures
        r == call_regs_spec(class, *saved, fn_addr, sp, mode),
{
    let mut r = *saved;
    r.rax = fn_addr;
    r.rsp = sp;
    if class == ELFCLASS32 {
        r.rbx = sp;
        r.rcx = mode as u64;
    } else {
        r.rdi = sp;
        r.rsi = mode as u64;
    }
    r
}

/// Zero-padding to whole words grows a buffer by at most seven bytes and
/// yields at least one whole word.
pub proof fn lemma_padded_len(n: int)
    requires
        n >= 0,
    ensures
        padded_len(n) % 8 == 0,
        padded_len(n) >= 8,
        n <= padded_len(n),
        n >= 1 ==> padded_len(n) <= n + 7,
{
    if n <= 8 {
    } else if n % 8 == 0 {
    } else {
        vstd::arithmetic::div_mod::lemma_fundamental_div_mod(n, 8);
        assert(padded_len(n) == 8 * (n / 8) + 8);
        assert((8 * (n / 8) + 8) % 8 == 0) by (nonlinear_arith);
    }
}

/// Why one injection attempt failed; each variant names the operation that
/// failed and carries the OS error code where one exists.
#[derive(PartialEq, Eq, Structural, Clone, Copy, Debug)]
pub enum TraceError {
    /// Requesting tracing control failed; nothing was mutated.
    AttachFailed(i32),
    /// Waiting for the target to stop failed.
    WaitFailed(i32),
    /// Reading the register set failed.
    RegisterReadFailed(i32),
    /// Writing the argument buffer onto the target's stack failed.
    StackWriteFailed(i32),
    /// Reading the original code bytes (the rollback image) failed.
    CodeReadFailed(i32),
    /// Writing the trampoline over the target's code failed.
    CodeWriteFailed(i32),
    /// Writing the mutated register set failed.
    RegisterWriteFailed(i32),
    /// Resuming the target failed.
    ResumeFailed(i32),
    /// Reading the post-call register set failed.
    ResultReadFailed(i32),
    /// Releasing tracing control failed.
    DetachFailed(i32),
    /// The architecture width is neither of the two supported classes.
    UnsupportedClass,
    /// The saved stack pointer leaves no room for the argument buffer.
    StackTooSmall,
}

/// One operation of the process-control surface, as the engine requests it.
#[derive(PartialEq, Eq, Structural, Clone, Copy, Debug)]
pub enum TraceAction {
    /// Request tracing control of the target.
    Attach,
    /// Block until the kernel reports the target stopped.
    WaitStop,
    /// Read the complete register set.
    ReadRegs,
    /// Write the given register set.
    WriteRegs(Regs),
    /// Read one word of target memory at the given address.
    ReadWord(u64),
    /// Write one word of target memory at the given address.
    WriteWord(u64, u64),
    /// Resume execution of the target.
    Resume,
    /// Release tracing control.
    Detach,
}

/// What performing the last requested action yielded.
#[derive(PartialEq, Eq, Structural, Clone, Copy, Debug)]
pub enum TraceEvent {
    /// No action was performed yet; starts the attempt.
    Start,
    /// The action completed.
    Completed,
    /// The register set an action read.
    GotRegs(Regs),
    /// The memory word an action read.
    GotWord(u64),
    /// The action failed with this OS error code.
    Failed(i32),
}

/// Where one injection attempt stands; the order is the protocol's order, and
/// failures jump forward into the restore phases, never backward.
#[derive(PartialEq, Eq, Structural, Clone, Copy, Debug)]
pub enum Phase {
    /// Built, nothing requested yet.
    Created,
    /// Attach requested.
    Attaching,
    /// Waiting for the stop after attach.
    AwaitingStop,
    /// Reading the register snapshot.
    ReadingRegs,
    /// Writing the argument buffer below the saved stack pointer, word by
    /// word.
    WritingStack,
    /// Reading the original code words at the instruction pointer (the
    /// rollback image).
    ReadingCode,
    /// Writing the trampoline words over the code.
    WritingPayload,
    /// Writing the mutated register set.
    SettingRegs,
    /// Resuming the target so the trampoline runs.
    Resuming,
    /// Waiting for the trap to re-stop the target.
    AwaitingTrap,
    /// Reading the post-call register set (the return-value register).
    ReadingResult,
    /// Writing the saved code words back, word by word.
    RestoringCode,
    /// Writing the saved register set back.
    RestoringRegs,
    /// Releasing tracing control; always the final operation.
    Detaching,
    /// Finished; the result is available.
    Done,
}

/// Forward progress measure over phases.
pub open spec fn phase_rank(p: Phase) -> int {
    match p {
        Phase::Created => 15,
        Phase::Attaching => 14,
        Phase::AwaitingStop => 13,
        Phase::ReadingRegs => 12,
        Phase::WritingStack => 11,
        Phase::ReadingCode => 10,
        Phase::WritingPayload => 9,
        Phase::SettingRegs => 8,
        Phase::Resuming => 7,
        Phase::AwaitingTrap => 6,
        Phase::ReadingResult => 5,
        Phase::RestoringCode => 4,
        Phase::RestoringRegs => 3,
        Phase::Detaching => 2,
        Phase::Done => 0,
    }
}

/// One injection attempt: created for it, consumed by it. The engine decides;
/// a driver performs each requested [`TraceAction`] and hands back the
/// [`TraceEvent`]. Every piece of target state the engine captured (register
/// snapshot, original code words) is written back on every path that reaches
/// the restore phases, and tracing control is always released last.
pub struct Engine {
    /// Width class of the target (dictates trampoline and call convention).
    pub class: u8,
    /// Resolved address of the loader entry point to call.
    pub fn_addr: u64,
    /// Loader mode flag handed to the entry point.
    pub mode: i32,
    /// Length of the argument buffer before padding: path bytes plus
    /// terminator.
    pub stack_len: u64,
    /// The argument buffer (path plus terminator, zero-padded), as words.
    pub stack_words: Vec<u64>,
    /// The trampoline, zero-padded, as words.
    pub payload_words: Vec<u64>,
    /// Where the attempt stands.
    pub phase: Phase,
    /// Word index inside the current word-by-word phase.
    pub idx: usize,
    /// The register snapshot taken once after attach.
    pub saved_regs: Regs,
    /// The prepared (aligned) stack pointer.
    pub new_sp: u64,
    /// The mutated register set that performs the call.
    pub call_regs: Regs,
    /// The original code words at the instruction pointer.
    pub saved_code: Vec<u64>,
    /// The captured return value, once read.
    pub handle: Option<u64>,
    /// The first failure of the attempt itself.
    pub error: Option<TraceError>,
    /// The first failure among the restore and detach operations; it never
    /// suppresses `error`.
    pub rollback_error: Option<TraceError>,
}

impl Engine {
    /// Facts available once the register snapshot was taken and the stack
    /// prepared; they bound every address the engine writes.
    pub open spec fn setup_ok(&self) -> bool {
        &&& self.class == ELFCLASS32 || self.class == ELFCLASS64
        &&& self.payload_words@.len() == 1
        &&& self.stack_len >= 1
        &&& self.new_sp + self.stack_len <= self.saved_regs.rsp
        &&& 8 * self.stack_words@.len() == padded_len(self.stack_len as int)
    }

    /// The machine's invariant, phase by phase.
    pub open spec fn wf(&self) -> bool {
        &&& self.stack_words@.len() >= 1
        &&& 8 * self.stack_words@.len() == padded_len(self.stack_len as int)
        &&& self.stack_len >= 1
        &&& (self.class == ELFCLASS32 || self.class == ELFCLASS64)
            ==> self.payload_words@.len() == 1
        &&& match self.phase {
            Phase::Created | Phase::Attaching | Phase::AwaitingStop | Phase::ReadingRegs => {
                self.error is None && self.saved_code@.len() == 0
            },
            Phase::WritingStack => {
                self.error is None && self.setup_ok() && self.idx < self.stack_words@.len()
                    && self.saved_code@.len() == 0
            },
            Phase::ReadingCode => {
                self.error is None && self.setup_ok() && self.idx < self.payload_words@.len()
                    && self.saved_code@.len() == self.idx
            },
            Phase::WritingPayload => {
                self.error is None && self.setup_ok() && self.idx < self.payload_words@.len()
                    && self.saved_code@.len() == self.payload_words@.len()
            },
            Phase::SettingRegs | Phase::Resuming | Phase::AwaitingTrap | Phase::ReadingResult => {
                self.error is None && self.setup_ok() && self.saved_code@.len()
                    == self.payload_words@.len()
            },
            Phase::RestoringCode => {
                self.setup_ok() && self.idx < self.saved_code@.len() && self.saved_code@.len()
                    == self.payload_words@.len() && (self.error is Some || self.handle is Some)
            },
            Phase::RestoringRegs | Phase::Detaching => {
                self.error is Some || self.handle is Some
            },
            Phase::Done => self.error is Some || self.handle is Some,
        }
    }

    /// Which event the engine awaits.
    pub open spec fn expects(&self, ev: TraceEvent) -> bool {
        match self.phase {
            Phase::Created => ev is Start,
            Phase::ReadingRegs | Phase::ReadingResult => ev is GotRegs || ev is Failed,
            Phase::ReadingCode => ev is GotWord || ev is Failed,
            Phase::Done => false,
            _ => ev is Completed || ev is Failed,
        }
    }

    /// The action pending in the current phase.
    pub open spec fn action_of(&self) -> TraceAction {
        match self.phase {
            Phase::Attaching => TraceAction::Attach,
            Phase::AwaitingStop | Phase::AwaitingTrap => TraceAction::WaitStop,
            Phase::ReadingRegs | Phase::ReadingResult => TraceAction::ReadRegs,
            Phase::WritingStack => TraceAction::WriteWord(
                (self.new_sp + 8 * self.idx) as u64,
                self.stack_words@[self.idx as int],
            ),
            Phase::ReadingCode => TraceAction::ReadWord(
                (self.saved_regs.rip + 8 * self.idx) as u64,
            ),
            Phase::WritingPayload => TraceAction::WriteWord(
                (self.saved_regs.rip + 8 * self.idx) as u64,
                self.payload_words@[self.idx as int],
            ),
            Phase::SettingRegs => TraceAction::WriteRegs(self.call_regs),
            Phase::Resuming => TraceAction::Resume,
            Phase::RestoringCode => TraceAction::WriteWord(
                (self.saved_regs.rip + 8 * self.idx) as u64,
                self.saved_code@[self.idx as int],
            ),
            Phase::RestoringRegs => TraceAction::WriteRegs(self.saved_regs),
            Phase::Detaching => TraceAction::Detach,
            Phase::Created | Phase::Done => TraceAction::Detach,
        }
    }

    /// Words still to move in the current word-by-word phase.
    pub open spec fn remaining(&self) -> int {
        match self.phase {
            Phase::WritingStack => self.stack_words@.len() - self.idx,
            Phase::ReadingCode | Phase::WritingPayload => self.payload_words@.len() - self.idx,
            Phase::RestoringCode => self.saved_code@.len() - self.idx,
            _ => 0,
        }
    }

    /// The configuration laid down at construction; never mutated afterward.
    pub open spec fn cfg(&self) -> (u8, u64, i32, u64, Seq<u64>, Seq<u64>) {
        (self.class, self.fn_addr, self.mode, self.stack_len, self.stack_words@,
        self.payload_words@)
    }

    /// The attempt's outcome: the captured handle, or the first failure.
    pub open spec fn result_spec(&self) -> Result<u64, TraceError> {
        match self.error {
            Some(e) => Err(e),
            None => Ok(self.handle->Some_0),
        }
    }

    /// Builds one attempt: argument buffer (path plus terminator) and
    /// trampoline are laid out as padded words up front.
    pub fn new(elf_class: u8, fn_addr: u64, libpath: &Vec<u8>, mode: i32) -> (r: Engine)
        requires
            libpath@.len() + 9 <= usize::MAX,
        ensures
            r.wf(),
            r.phase == Phase::Created,
            r.class == elf_class,
            r.fn_addr == fn_addr,
            r.mode == mode,
            r.stack_len == libpath@.len() + 1,
            r.stack_words@ == buffer_words(libpath@ + seq![0u8]),
            (elf_class == ELFCLASS32 || elf_class == ELFCLASS64) ==> r.payload_words@
                == buffer_words(trampoline_spec(elf_class)),
            r.error is None,
            r.rollback_error is None,
            r.handle is None,
    {
        let mut sb: Vec<u8> = Vec::new();
        let mut i: usize = 0;
        while i < libpath.len()
            invariant
                i <= libpath@.len(),
                sb@ == libpath@.subrange(0, i as int),
            decreases libpath@.len() - i,
        {
            sb.push(libpath[i]);
            proof {
                assert(sb@ =~= libpath@.subrange(0, i + 1));
            }
            i = i + 1;
        }
        proof {
            assert(sb@ =~= libpath@);
        }
        sb.push(0);
        proof {
            assert(sb@ =~= libpath@ + seq![0u8]);
        }
        let stack_len: u64 = sb.len() as u64;
        let stack_words = to_words(sb);
        let payload_words: Vec<u64> = match trampoline(elf_class) {
            Some(t) => to_words(t),
            None => Vec::new(),
        };
        proof {
            lemma_padded_len(stack_len as int);
            lemma_padded_len(trampoline_spec(elf_class).len() as int);
        }
        Engine {
            class: elf_class,
            fn_addr,
            mode,
            stack_len,
            stack_words,
            payload_words,
            phase: Phase::Created,
            idx: 0,
            saved_regs: Regs::zeroed(),
            new_sp: 0,
            call_regs: Regs::zeroed(),
            saved_code: Vec::new(),
            handle: None,
            error: None,
            rollback_error: None,
        }
    }

    /// Consumes one event and decides the next action; `None` once done.
    /// Every transition moves strictly forward: failures jump into the
    /// restore phases (saved code words first, then the saved register set,
    /// then detach), never backward, and the first failure of the attempt is
    /// kept as the result while restore failures are recorded separately.
    pub fn step(&mut self, ev: TraceEvent) -> (act: Option<TraceAction>)
        requires
            old(self).wf(),
            old(self).expects(ev),
        ensures
            final(self).wf(),
            final(self).cfg() == old(self).cfg(),
            act is None <==> final(self).phase is Done,
            act matches Some(a) ==> a == final(self).action_of(),
            !(final(self).phase is Created),
            phase_rank(final(self).phase) < phase_rank(old(self).phase) || (phase_rank(
                final(self).phase,
            ) == phase_rank(old(self).phase) && final(self).remaining() < old(self).remaining()),
            // the captured target state, once taken, is never modified
            !(old(self).phase is ReadingRegs) ==> final(self).saved_regs == old(self).saved_regs
                && final(self).new_sp == old(self).new_sp && final(self).call_regs == old(self).call_regs,
            !(old(self).phase is ReadingCode) ==> final(self).saved_code@ == old(self).saved_code@,
            !(old(self).phase is ReadingResult) ==> final(self).handle == old(self).handle,
            old(self).error is Some ==> final(self).error == old(self).error,
            !(old(self).phase is RestoringCode || old(self).phase is RestoringRegs || old(self).phase is Detaching) ==> final(self).rollback_error == old(self).rollback_error,
            // transitions, phase by phase
            old(self).phase is Created ==> final(self).phase is Attaching,
            old(self).phase is Attaching && ev is Completed ==> final(self).phase is AwaitingStop,
            old(self).phase is Attaching ==> (match ev {
                TraceEvent::Failed(e) => (final(self).phase is Done && final(self).error == Some(TraceError::AttachFailed(e))),
                _ => true,
            }),
            old(self).phase is AwaitingStop && ev is Completed ==> final(self).phase is ReadingRegs,
            old(self).phase is AwaitingStop ==> (match ev {
                TraceEvent::Failed(e) => (final(self).phase is Detaching && final(self).error == Some(TraceError::WaitFailed(e))),
                _ => true,
            }),
            old(self).phase is ReadingRegs ==> (match ev {
                TraceEvent::GotRegs(r) => ((if !(old(self).class == ELFCLASS32 || old(self).class == ELFCLASS64) {
                final(self).phase is Detaching && final(self).error == Some(
                    TraceError::UnsupportedClass,
                )
            } else if r.rsp < old(self).stack_len {
                final(self).phase is Detaching && final(self).error == Some(
                    TraceError::StackTooSmall,
                )
            } else {
                &&& final(self).phase is WritingStack
                &&& final(self).idx == 0
                &&& final(self).saved_regs == r
                &&& final(self).new_sp == prepared_sp(r.rsp, old(self).stack_len)
                &&& final(self).call_regs == call_regs_spec(
                    old(self).class,
                    r,
                    old(self).fn_addr,
                    prepared_sp(r.rsp, old(self).stack_len),
                    old(self).mode,
                )
            })),
                _ => true,
            }),
            old(self).phase is ReadingRegs ==> (match ev {
                TraceEvent::Failed(e) => (final(self).phase is Detaching && final(self).error == Some(TraceError::RegisterReadFailed(e))),
                _ => true,
            }),
            old(self).phase is WritingStack && ev is Completed ==> (if old(self).idx + 1 < old(self).stack_words@.len() {
                final(self).phase is WritingStack && final(self).idx == old(self).idx + 1
            } else {
                final(self).phase is ReadingCode && final(self).idx == 0
            }),
            old(self).phase is WritingStack ==> (match ev {
                TraceEvent::Failed(e) => (final(self).phase is Detaching && final(self).error == Some(TraceError::StackWriteFailed(e))),
                _ => true,
            }),
            old(self).phase is ReadingCode ==> (match ev {
                TraceEvent::GotWord(w) => (final(self).saved_code@ == old(self).saved_code@.push(w) && (if old(self).idx + 1 < old(self).payload_words@.len() {
                final(self).phase is ReadingCode && final(self).idx == old(self).idx + 1
            } else {
                final(self).phase is WritingPayload && final(self).idx == 0
            })),
                _ => true,
            }),
            old(self).phase is ReadingCode ==> (match ev {
                TraceEvent::Failed(e) => (final(self).phase is Detaching && final(self).error == Some(TraceError::CodeReadFailed(e))
                && final(self).saved_code@ == old(self).saved_code@),
                _ => true,
            }),
            old(self).phase is WritingPayload && ev is Completed ==> (if old(self).idx + 1 < old(self).payload_words@.len() {
                final(self).phase is WritingPayload && final(self).idx == old(self).idx + 1
            } else {
                final(self).phase is SettingRegs
            }),
            old(self).phase is WritingPayload ==> (match ev {
                TraceEvent::Failed(e) => (final(self).phase is RestoringCode && final(self).idx == 0 && final(self).error == Some(
                TraceError::CodeWriteFailed(e),
            )),
                _ => true,
            }),
            old(self).phase is SettingRegs && ev is Completed ==> final(self).phase is Resuming,
            old(self).phase is SettingRegs ==> (match ev {
                TraceEvent::Failed(e) => (final(self).phase is RestoringCode && final(self).idx == 0 && final(self).error == Some(
                TraceError::RegisterWriteFailed(e),
            )),
                _ => true,
            }),
            old(self).phase is Resuming && ev is Completed ==> final(self).phase is AwaitingTrap,
            old(self).phase is Resuming ==> (match ev {
                TraceEvent::Failed(e) => (final(self).phase is RestoringCode && final(self).idx == 0 && final(self).error == Some(
                TraceError::ResumeFailed(e),
            )),
                _ => true,
            }),
            old(self).phase is AwaitingTrap && ev is Completed ==> final(self).phase is ReadingResult,
            old(self).phase is AwaitingTrap ==> (match ev {
                TraceEvent::Failed(e) => (final(self).phase is RestoringCode && final(self).idx == 0 && final(self).error == Some(
                TraceError::WaitFailed(e),
            )),
                _ => true,
            }),
            old(self).phase is ReadingResult ==> (match ev {
                TraceEvent::GotRegs(r) => (final(self).phase is RestoringCode && final(self).idx == 0 && final(self).handle == Some(r.rax)
                && final(self).error is None),
                _ => true,
            }),
            old(self).phase is ReadingResult ==> (match ev {
                TraceEvent::Failed(e) => (final(self).phase is RestoringCode && final(self).idx == 0 && final(self).error == Some(
                TraceError::ResultReadFailed(e),
            ) && final(self).handle == old(self).handle),
                _ => true,
            }),
            old(self).phase is RestoringCode ==> final(self).error == old(self).error && (if old(self).idx + 1 < old(self).saved_code@.len() {
                final(self).phase is RestoringCode && final(self).idx == old(self).idx + 1
            } else {
                final(self).phase is RestoringRegs
            }),
            old(self).phase is RestoringRegs ==> final(self).phase is Detaching && final(self).error == old(self).error,
            old(self).phase is Detaching ==> final(self).phase is Done && final(self).error == old(self).error,
            // restore failures are recorded once, never suppressing the error
            (old(self).phase is RestoringCode || old(self).phase is RestoringRegs || old(self).phase is Detaching) && ev is Completed ==> final(self).rollback_error == old(self).rollback_error,
            (old(self).phase is RestoringCode || old(self).phase is RestoringRegs || old(self).phase is Detaching) ==> (match ev {
                TraceEvent::Failed(e) => (final(self).rollback_error == (if old(self).rollback_error is Some {
                old(self).rollback_error
            } else if old(self).phase is RestoringCode {
                Some(TraceError::CodeWriteFailed(e))
            } else if old(self).phase is RestoringRegs {
                Some(TraceError::RegisterWriteFailed(e))
            } else {
                Some(TraceError::DetachFailed(e))
            })),
                _ => true,
            }),
    {
        match self.phase {
            Phase::Created => {
                self.phase = Phase::Attaching;
            },
            Phase::Attaching => {
                match ev {
                    TraceEvent::Completed => {
                        self.phase = Phase::AwaitingStop;
                    },
                    TraceEvent::Failed(e) => {
                        self.error = Some(TraceError::AttachFailed(e));
                        self.phase = Phase::Done;
                    },
                    _ => {
                        proof {
                            assert(false);
                        }
                    },
                }
            },
            Phase::AwaitingStop => {
                match ev {
                    TraceEvent::Completed => {
                        self.phase = Phase::ReadingRegs;
                    },
                    TraceEvent::Failed(e) => {
                        self.error = Some(TraceError::WaitFailed(e));
                        self.phase = Phase::Detaching;
                    },
                    _ => {
                        proof {
                            assert(false);
                        }
                    },
                }
            },
            Phase::ReadingRegs => {
                match ev {
                    TraceEvent::GotRegs(r) => {
                        if !(self.class == ELFCLASS32 || self.class == ELFCLASS64) {
                            self.error = Some(TraceError::UnsupportedClass);
                            self.phase = Phase::Detaching;
                        } else if r.rsp < self.stack_len {
                            self.error = Some(TraceError::StackTooSmall);
                            self.phase = Phase::Detaching;
                        } else {
                            let sp = prepare_stack_pointer(r.rsp, self.stack_len);
                            self.saved_regs = r;
                            self.new_sp = sp;
                            self.call_regs = make_call_regs(
                                self.class,
                                &r,
                                self.fn_addr,
                                sp,
                                self.mode,
                            );
                            self.idx = 0;
                            self.phase = Phase::WritingStack;
                        }
                    },
                    TraceEvent::Failed(e) => {
                        self.error = Some(TraceError::RegisterReadFailed(e));
                        self.phase = Phase::Detaching;
                    },
                    _ => {
                        proof {
                            assert(false);
                        }
                    },
                }
            },
            Phase::WritingStack => {
                match ev {
                    TraceEvent::Completed => {
                        let n: usize = self.stack_words.len();
                        if self.idx + 1 < n {
                            self.idx = self.idx + 1;
                        } else {
                            self.idx = 0;
                            self.phase = Phase::ReadingCode;
                        }
                    },
                    TraceEvent::Failed(e) => {
                        self.error = Some(TraceError::StackWriteFailed(e));
                        self.phase = Phase::Detaching;
                    },
                    _ => {
                        proof {
                            assert(false);
                        }
                    },
                }
            },
            Phase::ReadingCode => {
                match ev {
                    TraceEvent::GotWord(w) => {
                        self.saved_code.push(w);
                        let n: usize = self.payload_words.len();
                        if self.idx + 1 < n {
                            self.idx = self.idx + 1;
                        } else {
                            self.idx = 0;
                            self.phase = Phase::WritingPayload;
                        }
                    },
                    TraceEvent::Failed(e) => {
                        self.error = Some(TraceError::CodeReadFailed(e));
                        self.phase = Phase::Detaching;
                    },
                    _ => {
                        proof {
                            assert(false);
                        }
                    },
                }
            },
            Phase::WritingPayload => {
                match ev {
                    TraceEvent::Completed => {
                        let n: usize = self.payload_words.len();
                        if self.idx + 1 < n {
                            self.idx = self.idx + 1;
                        } else {
                            self.phase = Phase::SettingRegs;
                        }
                    },
                    TraceEvent::Failed(e) => {
                        self.error = Some(TraceError::CodeWriteFailed(e));
                        self.idx = 0;
                        self.phase = Phase::RestoringCode;
                    },
                    _ => {
                        proof {
                            assert(false);
                        }
                    },
                }
            },
            Phase::SettingRegs => {
                match ev {
                    TraceEvent::Completed => {
                        self.phase = Phase::Resuming;
                    },
                    TraceEvent::Failed(e) => {
                        self.error = Some(TraceError::RegisterWriteFailed(e));
                        self.idx = 0;
                        self.phase = Phase::RestoringCode;
                    },
                    _ => {
                        proof {
                            assert(false);
                        }
                    },
                }
            },
            Phase::Resuming => {
                match ev {
                    TraceEvent::Completed => {
                        self.phase = Phase::AwaitingTrap;
                    },
                    TraceEvent::Failed(e) => {
                        self.error = Some(TraceError::ResumeFailed(e));
                        self.idx = 0;
                        self.phase = Phase::RestoringCode;
                    },
                    _ => {
                        proof {
                            assert(false);
                        }
                    },
                }
            },
            Phase::AwaitingTrap => {
                match ev {
                    TraceEvent::Completed => {
                        self.phase = Phase::ReadingResult;
                    },
                    TraceEvent::Failed(e) => {
                        self.error = Some(TraceError::WaitFailed(e));
                        self.idx = 0;
                        self.phase = Phase::RestoringCode;
                    },
                    _ => {
                        proof {
                            assert(false);
                        }
                    },
                }
            },
            Phase::ReadingResult => {
                match ev {
                    TraceEvent::GotRegs(r) => {
                        self.handle = Some(r.rax);
                        self.idx = 0;
                        self.phase = Phase::RestoringCode;
                    },
                    TraceEvent::Failed(e) => {
                        self.error = Some(TraceError::ResultReadFailed(e));
                        self.idx = 0;
                        self.phase = Phase::RestoringCode;
                    },
                    _ => {
                        proof {
                            assert(false);
                        }
                    },
                }
            },
            Phase::RestoringCode => {
                if let TraceEvent::Failed(e) = ev {
                    if self.rollback_error.is_none() {
                        self.rollback_error = Some(TraceError::CodeWriteFailed(e));
                    }
                }
                let n: usize = self.saved_code.len();
                if self.idx + 1 < n {
                    self.idx = self.idx + 1;
                } else {
                    self.phase = Phase::RestoringRegs;
                }
            },
            Phase::RestoringRegs => {
                if let TraceEvent::Failed(e) = ev {
                    if self.rollback_error.is_none() {
                        self.rollback_error = Some(TraceError::RegisterWriteFailed(e));
                    }
                }
                self.phase = Phase::Detaching;
            },
            Phase::Detaching => {
                if let TraceEvent::Failed(e) = ev {
                    if self.rollback_error.is_none() {
                        self.rollback_error = Some(TraceError::DetachFailed(e));
                    }
                }
                self.phase = Phase::Done;
            },
            Phase::Done => {
                proof {
                    assert(false);
                }
            },
        }
        self.emit()
    }

    /// The action the current phase awaits, built with checked address
    /// arithmetic.
    fn emit(&self) -> (act: Option<TraceAction>)
        requires
            self.wf(),
        ensures
            act is None <==> self.phase is Done,
            act matches Some(a) ==> a == self.action_of(),
    {
        match self.phase {
            Phase::Created => Some(TraceAction::Detach),
            Phase::Attaching => Some(TraceAction::Attach),
            Phase::AwaitingStop | Phase::AwaitingTrap => Some(TraceAction::WaitStop),
            Phase::ReadingRegs | Phase::ReadingResult => Some(TraceAction::ReadRegs),
            Phase::WritingStack => {
                proof {
                    lemma_padded_len(self.stack_len as int);
                }
                Some(
                    TraceAction::WriteWord(
                        self.new_sp + 8 * (self.idx as u64),
                        self.stack_words[self.idx],
                    ),
                )
            },
            Phase::ReadingCode => Some(
                TraceAction::ReadWord(self.saved_regs.rip + 8 * (self.idx as u64)),
            ),
            Phase::WritingPayload => Some(
                TraceAction::WriteWord(
                    self.saved_regs.rip + 8 * (self.idx as u64),
                    self.payload_words[self.idx],
                ),
            ),
            Phase::SettingRegs => Some(TraceAction::WriteRegs(self.call_regs)),
            Phase::Resuming => Some(TraceAction::Resume),
            Phase::RestoringCode => Some(
                TraceAction::WriteWord(
                    self.saved_regs.rip + 8 * (self.idx as u64),
                    self.saved_code[self.idx],
                ),
            ),
            Phase::RestoringRegs => Some(TraceAction::WriteRegs(self.saved_regs)),
            Phase::Detaching => Some(TraceAction::Detach),
            Phase::Done => None,
        }
    }

    /// The attempt's outcome, once the machine is done.
    pub fn result(&self) -> (r: Result<u64, TraceError>)
        requires
            self.wf(),
            self.phase is Done,
        ensures
            r == self.result_spec(),
    {
        match self.error {
            Some(e) => Err(e),
            None => {
                match self.handle {
                    Some(h) => Ok(h),
                    None => {
                        proof {
                            assert(false);
                        }
                        Err(TraceError::UnsupportedClass)
                    },
                }
            },
        }
    }
}

/// Declares the tracing interface's register-set carrier so verified code can
/// read and build its (all public) fields; nothing about its behaviour is
/// assumed.
#[verifier::external_type_specification]
pub struct ExUserRegs(libc::user_regs_struct);

/// Carries the kernel's register-set value into the engine's own type, field
/// for field.
pub fn regs_from_user(u: &libc::user_regs_struct) -> (r: Regs)
    ensures
        r == (Regs {
            r15: u.r15,
            r14: u.r14,
            r13: u.r13,
            r12: u.r12,
            rbp: u.rbp,
            rbx: u.rbx,
            r11: u.r11,
            r10: u.r10,
            r9: u.r9,
            r8: u.r8,
            rax: u.rax,
            rcx: u.rcx,
            rdx: u.rdx,
            rsi: u.rsi,
            rdi: u.rdi,
            orig_rax: u.orig_rax,
            rip: u.rip,
            cs: u.cs,
            eflags: u.eflags,
            rsp: u.rsp,
            ss: u.ss,
            fs_base: u.fs_base,
            gs_base: u.gs_base,
            ds: u.ds,
            es: u.es,
            fs: u.fs,
            gs: u.gs,
        }),
{
    Regs {
        r15: u.r15,
        r14: u.r14,
        r13: u.r13,
        r12: u.r12,
        rbp: u.rbp,
        rbx: u.rbx,
        r11: u.r11,
        r10: u.r10,
        r9: u.r9,
        r8: u.r8,
        rax: u.rax,
        rcx: u.rcx,
        rdx: u.rdx,
        rsi: u.rsi,
        rdi: u.rdi,
        orig_rax: u.orig_rax,
        rip: u.rip,
        cs: u.cs,
        eflags: u.eflags,
        rsp: u.rsp,
        ss: u.ss,
        fs_base: u.fs_base,
        gs_base: u.gs_base,
        ds: u.ds,
        es: u.es,
        fs: u.fs,
        gs: u.gs,
    }
}

/// Carries a register set back into the kernel's carrier, field for field.
pub fn user_from_regs(r: &Regs) -> (u: libc::user_regs_struct)
    ensures
        u == (libc::user_regs_struct {
            r15: r.r15,
            r14: r.r14,
            r13: r.r13,
            r12: r.r12,
            rbp: r.rbp,
            rbx: r.rbx,
            r11: r.r11,
            r10: r.r10,
            r9: r.r9,
            r8: r.r8,
            rax: r.rax,
            rcx: r.rcx,
            rdx: r.rdx,
            rsi: r.rsi,
            rdi: r.rdi,
            orig_rax: r.orig_rax,
            rip: r.rip,
            cs: r.cs,
            eflags: r.eflags,
            rsp: r.rsp,
            ss: r.ss,
            fs_base: r.fs_base,
            gs_base: r.gs_base,
            ds: r.ds,
            es: r.es,
            fs: r.fs,
            gs: r.gs,
        }),
{
    libc::user_regs_struct {
        r15: r.r15,
        r14: r.r14,
        r13: r.r13,
        r12: r.r12,
        rbp: r.rbp,
        rbx: r.rbx,
        r11: r.r11,
        r10: r.r10,
        r9: r.r9,
        r8: r.r8,
        rax: r.rax,
        rcx: r.rcx,
        rdx: r.rdx,
        rsi: r.rsi,
        rdi: r.rdi,
        orig_rax: r.orig_rax,
        rip: r.rip,
        cs: r.cs,
        eflags: r.eflags,
        rsp: r.rsp,
        ss: r.ss,
        fs_base: r.fs_base,
        gs_base: r.gs_base,
        ds: r.ds,
        es: r.es,
        fs: r.fs,
        gs: r.gs,
    }
}

/// Relies on nix's `ptrace::attach`: requests tracing control of `pid`; the
/// kernel decides, so only the error code is carried out.
#[verifier::external_body]
fn pt_attach(pid: i32) -> (r: Result<(), i32>) {
    match nix::sys::ptrace::attach(nix::unistd::Pid::from_raw(pid)) {
        Ok(()) => Ok(()),
        Err(e) => Err(e as i32),
    }
}

/// Relies on nix's `ptrace::detach` (no signal delivered): releases tracing
/// control of `pid`.
#[verifier::external_body]
fn pt_detach(pid: i32) -> (r: Result<(), i32>) {
    match nix::sys::ptrace::detach(nix::unistd::Pid::from_raw(pid), None) {
        Ok(()) => Ok(()),
        Err(e) => Err(e as i32),
    }
}

/// Relies on nix's `waitpid` with the stopped flag: blocks until the kernel
/// reports `pid` stopped.
#[verifier::external_body]
fn pt_wait_stop(pid: i32) -> (r: Result<(), i32>) {
    match nix::sys::wait::waitpid(
        nix::unistd::Pid::from_raw(pid),
        Some(nix::sys::wait::WaitPidFlag::WSTOPPED),
    ) {
        Ok(_) => Ok(()),
        Err(e) => Err(e as i32),
    }
}

/// Relies on nix's `ptrace::getregs`: reads the stopped tracee's complete
/// general-purpose register set; its values depend on the target, so nothing
/// is promised of them.
#[verifier::external_body]
fn pt_getregs(pid: i32) -> (r: Result<libc::user_regs_struct, i32>) {
    match nix::sys::ptrace::getregs(nix::unistd::Pid::from_raw(pid)) {
        Ok(u) => Ok(u),
        Err(e) => Err(e as i32),
    }
}

/// Relies on nix's `ptrace::setregs`: writes the given register set into the
/// stopped tracee.
#[verifier::external_body]
fn pt_setregs(pid: i32, regs: libc::user_regs_struct) -> (r: Result<(), i32>) {
    match nix::sys::ptrace::setregs(nix::unistd::Pid::from_raw(pid), regs) {
        Ok(()) => Ok(()),
        Err(e) => Err(e as i32),
    }
}

/// Relies on nix's `ptrace::read`: reads one word of tracee memory at `addr`;
/// its value depends on the target, so nothing is promised of it.
#[verifier::external_body]
fn pt_read_word(pid: i32, addr: u64) -> (r: Result<u64, i32>) {
    match nix::sys::ptrace::read(
        nix::unistd::Pid::from_raw(pid),
        addr as usize as nix::sys::ptrace::AddressType,
    ) {
        Ok(w) => Ok(w as u64),
        Err(e) => Err(e as i32),
    }
}

/// Relies on nix's `ptrace::write`: writes one word of tracee memory at
/// `addr`.
#[verifier::external_body]
fn pt_write_word(pid: i32, addr: u64, word: u64) -> (r: Result<(), i32>) {
    match nix::sys::ptrace::write(
        nix::unistd::Pid::from_raw(pid),
        addr as usize as nix::sys::ptrace::AddressType,
        word as libc::c_long,
    ) {
        Ok(()) => Ok(()),
        Err(e) => Err(e as i32),
    }
}

/// Relies on nix's `ptrace::cont` (no signal delivered): resumes the stopped
/// tracee.
#[verifier::external_body]
fn pt_cont(pid: i32) -> (r: Result<(), i32>) {
    match nix::sys::ptrace::cont(nix::unistd::Pid::from_raw(pid), None) {
        Ok(()) => Ok(()),
        Err(e) => Err(e as i32),
    }
}

/// Which events performing an action may hand back.
pub open spec fn event_ok_for(a: TraceAction, ev: TraceEvent) -> bool {
    match a {
        TraceAction::ReadRegs => ev is GotRegs || ev is Failed,
        TraceAction::ReadWord(_) => ev is GotWord || ev is Failed,
        _ => ev is Completed || ev is Failed,
    }
}

/// Performs one requested action against the real tracing interface and hands
/// the outcome back as an event.
fn perform(pid: i32, a: &TraceAction) -> (ev: TraceEvent)
    ensures
        event_ok_for(*a, ev),
{
    match a {
        TraceAction::Attach => match pt_attach(pid) {
            Ok(_) => TraceEvent::Completed,
            Err(e) => TraceEvent::Failed(e),
        },
        TraceAction::WaitStop => match pt_wait_stop(pid) {
            Ok(_) => TraceEvent::Completed,
            Err(e) => TraceEvent::Failed(e),
        },
        TraceAction::ReadRegs => match pt_getregs(pid) {
            Ok(u) => TraceEvent::GotRegs(regs_from_user(&u)),
            Err(e) => TraceEvent::Failed(e),
        },
        TraceAction::WriteRegs(r) => match pt_setregs(pid, user_from_regs(r)) {
            Ok(_) => TraceEvent::Completed,
            Err(e) => TraceEvent::Failed(e),
        },
        TraceAction::ReadWord(addr) => match pt_read_word(pid, *addr) {
            Ok(w) => TraceEvent::GotWord(w),
            Err(e) => TraceEvent::Failed(e),
        },
        TraceAction::WriteWord(addr, w) => match pt_write_word(pid, *addr, *w) {
            Ok(_) => TraceEvent::Completed,
            Err(e) => TraceEvent::Failed(e),
        },
        TraceAction::Resume => match pt_cont(pid) {
            Ok(_) => TraceEvent::Completed,
            Err(e) => TraceEvent::Failed(e),
        },
        TraceAction::Detach => match pt_detach(pid) {
            Ok(_) => TraceEvent::Completed,
            Err(e) => TraceEvent::Failed(e),
        },
    }
}

/// A well-formed engine that is neither fresh nor done accepts every event
/// its pending action can produce.
pub proof fn lemma_event_accepted(e: Engine, ev: TraceEvent)
    requires
        !(e.phase is Created),
        !(e.phase is Done),
        event_ok_for(e.action_of(), ev),
    ensures
        e.expects(ev),
{
}

/// Runs one full injection attempt against process `pid`: drives the engine's
/// protocol over the real tracing interface. The first component is the
/// captured handle or the first failure; the second reports a restore or
/// detach failure, which never suppresses the first.
pub fn call_dlopen(pid: i32, elf_class: u8, dlopen_addr: u64, libpath: &Vec<u8>, mode: i32) -> (r:
    (Result<u64, TraceError>, Option<TraceError>))
    requires
        libpath@.len() + 9 <= usize::MAX,
    ensures
        !(elf_class == ELFCLASS32 || elf_class == ELFCLASS64) ==> r.0 is Err,
{
    let mut eng = Engine::new(elf_class, dlopen_addr, libpath, mode);
    let mut act = eng.step(TraceEvent::Start);
    while act.is_some()
        invariant
            eng.wf(),
            eng.class == elf_class,
            act is Some ==> !(eng.phase is Created) && !(eng.phase is Done) && act->Some_0
                == eng.action_of(),
            act is None ==> eng.phase is Done,
            eng.handle is Some ==> (eng.class == ELFCLASS32 || eng.class == ELFCLASS64),
        decreases phase_rank(eng.phase), eng.remaining(),
    {
        let a = match act {
            Some(a) => a,
            None => {
                proof {
                    assert(false);
                }
                TraceAction::Detach
            },
        };
        let ev = perform(pid, &a);
        proof {
            lemma_event_accepted(eng, ev);
        }
        act = eng.step(ev);
    }
    let res = eng.result();
    (res, eng.rollback_error)
}

} // verus!
