//! The steps that set the display affinity of a window owned by another
//! process: code is written into that process and run there by a remote
//! thread.
//!
//! `Injection` decides each step; whoever drives it performs the action that
//! `step` returns and reports what came of it as the next `Event`.
use vstd::prelude::*;
use crate::payload::{
    build_x64_code, build_x86_code, build_x86_get_func_code, spec_display_affinity,
    display_affinity, swdf_offset, x64_code, x86_get_func_code, x86_trampoline, CODE_X64_SIZE,
    CODE_X86_SIZE, CODE_GET_FUNC_ADDRESS_X86_SIZE_ALL,
};

verus! {

/// Code to be written into the target process.
#[derive(Clone, Copy, Debug, PartialEq, Eq, Structural)]
pub enum Payload {
    /// The 64-bit routine that calls `function(hwnd, affinity)`.
    X64Call { hwnd: u64, affinity: u32, function: u64 },
    /// The 32-bit routine, loaded at `base`, that looks up
    /// `SetWindowDisplayAffinity`.
    X86Lookup { base: usize },
    /// The 32-bit trampoline, loaded at `base`, that jumps to `func` after
    /// pushing `affinity_byte`.
    X86Trampoline { func: usize, affinity_byte: u8, base: usize },
}

/// The bytes of a payload.
pub open spec fn payload_bytes(p: Payload) -> Seq<u8> {
    match p {
        Payload::X64Call { hwnd, affinity, function } => x64_code(hwnd, affinity, function),
        Payload::X86Lookup { base } => x86_get_func_code(base),
        Payload::X86Trampoline { func, affinity_byte, base } => x86_trampoline(func, affinity_byte, base),
    }
}

/// The size of a payload in bytes.
pub open spec fn payload_len(p: Payload) -> usize {
    match p {
        Payload::X64Call { .. } => CODE_X64_SIZE,
        Payload::X86Lookup { .. } => CODE_GET_FUNC_ADDRESS_X86_SIZE_ALL,
        Payload::X86Trampoline { .. } => CODE_X86_SIZE,
    }
}

/// Whether the addresses that a payload carries can be computed without
/// overflow.
pub open spec fn payload_buildable(p: Payload) -> bool {
    match p {
        Payload::X64Call { .. } => true,
        Payload::X86Lookup { base } => base + swdf_offset() <= usize::MAX,
        Payload::X86Trampoline { .. } => true,
    }
}

/// Whether the addresses that a payload carries can be computed.
pub fn payload_is_buildable(p: Payload) -> (ok: bool)
    ensures
        ok == payload_buildable(p),
{
    match p {
        Payload::X64Call { .. } => true,
        Payload::X86Lookup { base } => base <= usize::MAX - CODE_GET_FUNC_ADDRESS_X86_SIZE_ALL + 25,
        Payload::X86Trampoline { .. } => true,
    }
}

/// The module, in a 64-bit process, that holds `SetWindowDisplayAffinity`.
pub const TARGET_MODULE: &'static str = "User32.dll";

/// The function that the injected code calls.
pub const TARGET_FUNCTION: &'static str = "SetWindowDisplayAffinity";

/// The bytes of a payload, ready to be written.
pub fn build_payload(p: Payload) -> (code: Vec<u8>)
    requires
        payload_buildable(p),
    ensures
        code@ == payload_bytes(p),
        code@.len() == payload_len(p),
{
    match p {
        Payload::X64Call { hwnd, affinity, function } => build_x64_code(hwnd, affinity, function),
        Payload::X86Lookup { base } => {
            let code = build_x86_get_func_code(base);
            vstd::slice::slice_to_vec(code.as_slice())
        },
        Payload::X86Trampoline { func, affinity_byte, base } => {
            let code = build_x86_code(func, affinity_byte, base);
            vstd::slice::slice_to_vec(code.as_slice())
        },
    }
}

/// What came of the last action.
#[derive(Clone, Copy, Debug, PartialEq, Eq, Structural)]
pub enum Event {
    /// The action completed and returned nothing of interest.
    Done,
    /// The process that owns the window.
    ProcessId(u32),
    /// Whether the process runs under WOW64, that is, is a 32-bit process.
    Wow64(bool),
    /// An address: of a module, of a function, or of a block just allocated.
    Address(usize),
    /// Whether the remote thread handle that came back is valid.
    Thread(bool),
    /// The exit code of the remote thread.
    ExitCode(u32),
}

/// What to do next.
#[derive(Clone, Copy, Debug, PartialEq, Eq, Structural)]
pub enum Action {
    /// Find the process that owns the window (`GetWindowThreadProcessId`).
    QueryProcessId { hwnd: u64 },
    /// Open the process with all access.
    OpenProcess { pid: u32 },
    /// Ask whether the process is a 32-bit one (`IsWow64Process`).
    QueryWow64,
    /// Find the base of `TARGET_MODULE` in the process.
    FindModule { pid: u32 },
    /// Find `TARGET_FUNCTION` in the module at `module`.
    ResolveFunction { module: usize },
    /// Allocate executable memory in the process; `reserve` also reserves
    /// the range (`MEM_COMMIT | MEM_RESERVE` rather than `MEM_COMMIT`).
    Allocate { size: usize, reserve: bool },
    /// Write the payload into the process at `address`.
    Write { address: usize, payload: Payload },
    /// Start a remote thread at `address`, passing `parameter`.
    StartThread { address: usize, parameter: Option<u64> },
    /// Wait until the remote thread ends.
    WaitThread,
    /// Read the remote thread's exit code.
    ReadExitCode,
    /// Close the remote thread's handle.
    CloseThread,
    /// Release (`release`) or decommit the block at `address`.
    Free { address: usize, size: usize, release: bool },
    /// Close the process handle.
    CloseProcess,
    /// The work is over, with the given result.
    Finish { result: bool },
    /// The event does not fit the step, or the lookup block lies so high that
    /// the addresses of its strings overflow: the work stops here.
    Abort,
}

/// Where the work stands.
#[derive(Clone, Copy, Debug, PartialEq, Eq, Structural)]
pub enum Stage {
    Start,
    AwaitProcessId,
    AwaitOpen { pid: u32 },
    AwaitWow64 { pid: u32 },
    AwaitModule,
    AwaitFunction,
    AwaitX64Block { function: usize },
    AwaitX64Write { block: usize },
    AwaitX64Thread { block: usize },
    AwaitX64Wait { block: usize },
    AwaitX64Free,
    AwaitX64CloseThread,
    AwaitLookupBlock,
    AwaitLookupWrite { block: usize },
    AwaitLookupThread { block: usize },
    AwaitLookupWait { block: usize },
    AwaitLookupExit { block: usize },
    AwaitLookupCloseThread { block: usize, func: u32 },
    AwaitLookupFree { func: u32 },
    AwaitTrampolineBlock { func: u32 },
    AwaitTrampolineWrite { block: usize },
    AwaitTrampolineThread { block: usize },
    AwaitTrampolineWait { block: usize },
    AwaitTrampolineCloseThread { block: usize },
    AwaitTrampolineFree,
    AwaitProcessClose,
    Finished,
    Aborted,
}

/// The work of setting the display affinity of one window.
#[derive(Clone, Copy, Debug, PartialEq, Eq, Structural)]
pub struct Injection {
    pub hwnd: u64,
    pub affinity: u32,
    pub stage: Stage,
}

pub open spec fn with_stage(inj: Injection, stage: Stage) -> Injection {
    Injection { stage, ..inj }
}

/// After the 32-bit lookup has produced `func` (0 where it failed):
/// allocate the trampoline's block.
pub open spec fn to_trampoline(inj: Injection, func: u32) -> (Injection, Action) {
    (
        with_stage(inj, Stage::AwaitTrampolineBlock { func }),
        Action::Allocate { size: CODE_X86_SIZE, reserve: false },
    )
}

/// One step: the next stage and the action to perform, given what came of
/// the previous action.
pub open spec fn next(inj: Injection, event: Event) -> (Injection, Action) {
    let abort = (with_stage(inj, Stage::Aborted), Action::Abort);
    match (inj.stage, event) {
        (Stage::Start, _) => (
            with_stage(inj, Stage::AwaitProcessId),
            Action::QueryProcessId { hwnd: inj.hwnd },
        ),
        (Stage::AwaitProcessId, Event::ProcessId(pid)) => (
            with_stage(inj, Stage::AwaitOpen { pid }),
            Action::OpenProcess { pid },
        ),
        (Stage::AwaitOpen { pid }, Event::Done) => (
            with_stage(inj, Stage::AwaitWow64 { pid }),
            Action::QueryWow64,
        ),
        (Stage::AwaitWow64 { pid }, Event::Wow64(false)) => (
            with_stage(inj, Stage::AwaitModule),
            Action::FindModule { pid },
        ),
        (Stage::AwaitWow64 { .. }, Event::Wow64(true)) => (
            with_stage(inj, Stage::AwaitLookupBlock),
            Action::Allocate { size: CODE_GET_FUNC_ADDRESS_X86_SIZE_ALL, reserve: false },
        ),
        (Stage::AwaitModule, Event::Address(module)) => (
            with_stage(inj, Stage::AwaitFunction),
            Action::ResolveFunction { module },
        ),
        (Stage::AwaitFunction, Event::Address(function)) => (
            with_stage(inj, Stage::AwaitX64Block { function }),
            Action::Allocate { size: CODE_X64_SIZE, reserve: true },
        ),
        (Stage::AwaitX64Block { function }, Event::Address(block)) => (
            with_stage(inj, Stage::AwaitX64Write { block }),
            Action::Write {
                address: block,
                payload: Payload::X64Call {
                    hwnd: inj.hwnd,
                    affinity: inj.affinity,
                    function: function as u64,
                },
            },
        ),
        (Stage::AwaitX64Write { block }, Event::Done) => (
            with_stage(inj, Stage::AwaitX64Thread { block }),
            Action::StartThread { address: block, parameter: None },
        ),
        (Stage::AwaitX64Thread { block }, Event::Thread(_)) => (
            with_stage(inj, Stage::AwaitX64Wait { block }),
            Action::WaitThread,
        ),
        (Stage::AwaitX64Wait { block }, Event::Done) => (
            with_stage(inj, Stage::AwaitX64Free),
            Action::Free { address: block, size: 0, release: true },
        ),
        (Stage::AwaitX64Free, Event::Done) => (
            with_stage(inj, Stage::AwaitX64CloseThread),
            Action::CloseThread,
        ),
        (Stage::AwaitX64CloseThread, Event::Done) => (
            with_stage(inj, Stage::AwaitProcessClose),
            Action::CloseProcess,
        ),
        (Stage::AwaitLookupBlock, Event::Address(block)) => if (block as u32) != 0 {
            if block + swdf_offset() <= usize::MAX {
                (
                    with_stage(inj, Stage::AwaitLookupWrite { block }),
                    Action::Write { address: block, payload: Payload::X86Lookup { base: block } },
                )
            } else {
                abort
            }
        } else {
            to_trampoline(inj, 0)
        },
        (Stage::AwaitLookupWrite { block }, Event::Done) => (
            with_stage(inj, Stage::AwaitLookupThread { block }),
            Action::StartThread { address: block, parameter: None },
        ),
        (Stage::AwaitLookupThread { block }, Event::Thread(valid)) => if valid {
            (with_stage(inj, Stage::AwaitLookupWait { block }), Action::WaitThread)
        } else {
            to_trampoline(inj, 0)
        },
        (Stage::AwaitLookupWait { block }, Event::Done) => (
            with_stage(inj, Stage::AwaitLookupExit { block }),
            Action::ReadExitCode,
        ),
        (Stage::AwaitLookupExit { block }, Event::ExitCode(func)) => (
            with_stage(inj, Stage::AwaitLookupCloseThread { block, func }),
            Action::CloseThread,
        ),
        (Stage::AwaitLookupCloseThread { block, func }, Event::Done) => (
            with_stage(inj, Stage::AwaitLookupFree { func }),
            Action::Free { address: block, size: CODE_GET_FUNC_ADDRESS_X86_SIZE_ALL, release: false },
        ),
        (Stage::AwaitLookupFree { func }, Event::Done) => to_trampoline(inj, func),
        (Stage::AwaitTrampolineBlock { func }, Event::Address(block)) => (
            with_stage(inj, Stage::AwaitTrampolineWrite { block }),
            Action::Write {
                address: block,
                payload: Payload::X86Trampoline {
                    func: func as usize,
                    affinity_byte: inj.affinity as u8,
                    base: block,
                },
            },
        ),
        (Stage::AwaitTrampolineWrite { block }, Event::Done) => (
            with_stage(inj, Stage::AwaitTrampolineThread { block }),
            Action::StartThread { address: block, parameter: Some(inj.hwnd) },
        ),
        (Stage::AwaitTrampolineThread { block }, Event::Thread(valid)) => if valid {
            (with_stage(inj, Stage::AwaitTrampolineWait { block }), Action::WaitThread)
        } else {
            (
                with_stage(inj, Stage::AwaitTrampolineFree),
                Action::Free { address: block, size: CODE_X86_SIZE, release: false },
            )
        },
        (Stage::AwaitTrampolineWait { block }, Event::Done) => (
            with_stage(inj, Stage::AwaitTrampolineCloseThread { block }),
            Action::CloseThread,
        ),
        (Stage::AwaitTrampolineCloseThread { block }, Event::Done) => (
            with_stage(inj, Stage::AwaitTrampolineFree),
            Action::Free { address: block, size: CODE_X86_SIZE, release: false },
        ),
        (Stage::AwaitTrampolineFree, Event::Done) => (
            with_stage(inj, Stage::AwaitProcessClose),
            Action::CloseProcess,
        ),
        (Stage::AwaitProcessClose, Event::Done) => (
            with_stage(inj, Stage::Finished),
            Action::Finish { result: true },
        ),
        _ => abort,
    }
}

impl Injection {
    /// The work of hiding the window `hwnd` from capture (`hide`) or showing
    /// it again, before its first step.
    pub fn new(hwnd: u64, hide: bool) -> (inj: Injection)
        ensures
            inj == (Injection {
                hwnd,
                affinity: spec_display_affinity(hide),
                stage: Stage::Start,
            }),
    {
        Injection { hwnd, affinity: display_affinity(hide), stage: Stage::Start }
    }

    /// Moves to the next stage, given what came of the previous action, and
    /// returns the action to perform.
    pub fn step(&mut self, event: Event) -> (action: Action)
        ensures
            (*final(self), action) == next(*old(self), event),
    {
        let (stage, action) = self.next_stage(event);
        self.stage = stage;
        action
    }

    fn trampoline_block(func: u32) -> (r: (Stage, Action))
        ensures
            r == (Stage::AwaitTrampolineBlock { func }, Action::Allocate {
                size: CODE_X86_SIZE,
                reserve: false,
            }),
    {
        (Stage::AwaitTrampolineBlock { func }, Action::Allocate { size: CODE_X86_SIZE, reserve: false })
    }

    fn next_stage(&self, event: Event) -> (r: (Stage, Action))
        ensures
            r.0 == next(*self, event).0.stage,
            r.1 == next(*self, event).1,
    {
        let abort = (Stage::Aborted, Action::Abort);
        match (self.stage, event) {
            (Stage::Start, _) => (Stage::AwaitProcessId, Action::QueryProcessId { hwnd: self.hwnd }),
            (Stage::AwaitProcessId, Event::ProcessId(pid)) => (
                Stage::AwaitOpen { pid },
                Action::OpenProcess { pid },
            ),
            (Stage::AwaitOpen { pid }, Event::Done) => (Stage::AwaitWow64 { pid }, Action::QueryWow64),
            (Stage::AwaitWow64 { pid }, Event::Wow64(is_32bit)) => if is_32bit {
                (
                    Stage::AwaitLookupBlock,
                    Action::Allocate { size: CODE_GET_FUNC_ADDRESS_X86_SIZE_ALL, reserve: false },
                )
            } else {
                (Stage::AwaitModule, Action::FindModule { pid })
            },
            (Stage::AwaitModule, Event::Address(module)) => (
                Stage::AwaitFunction,
                Action::ResolveFunction { module },
            ),
            (Stage::AwaitFunction, Event::Address(function)) => (
                Stage::AwaitX64Block { function },
                Action::Allocate { size: CODE_X64_SIZE, reserve: true },
            ),
            (Stage::AwaitX64Block { function }, Event::Address(block)) => (
                Stage::AwaitX64Write { block },
                Action::Write {
                    address: block,
                    payload: Payload::X64Call {
                        hwnd: self.hwnd,
                        affinity: self.affinity,
                        function: function as u64,
                    },
                },
            ),
            (Stage::AwaitX64Write { block }, Event::Done) => (
                Stage::AwaitX64Thread { block },
                Action::StartThread { address: block, parameter: None },
            ),
            (Stage::AwaitX64Thread { block }, Event::Thread(_)) => (
                Stage::AwaitX64Wait { block },
                Action::WaitThread,
            ),
            (Stage::AwaitX64Wait { block }, Event::Done) => (
                Stage::AwaitX64Free,
                Action::Free { address: block, size: 0, release: true },
            ),
            (Stage::AwaitX64Free, Event::Done) => (Stage::AwaitX64CloseThread, Action::CloseThread),
            (Stage::AwaitX64CloseThread, Event::Done) => (
                Stage::AwaitProcessClose,
                Action::CloseProcess,
            ),
            (Stage::AwaitLookupBlock, Event::Address(block)) => if (block as u32) != 0 {
                if block <= usize::MAX - CODE_GET_FUNC_ADDRESS_X86_SIZE_ALL + 25 {
                    (
                        Stage::AwaitLookupWrite { block },
                        Action::Write { address: block, payload: Payload::X86Lookup { base: block } },
                    )
                } else {
                    abort
                }
            } else {
                Self::trampoline_block(0)
            },
            (Stage::AwaitLookupWrite { block }, Event::Done) => (
                Stage::AwaitLookupThread { block },
                Action::StartThread { address: block, parameter: None },
            ),
            (Stage::AwaitLookupThread { block }, Event::Thread(valid)) => if valid {
                (Stage::AwaitLookupWait { block }, Action::WaitThread)
            } else {
                Self::trampoline_block(0)
            },
            (Stage::AwaitLookupWait { block }, Event::Done) => (
                Stage::AwaitLookupExit { block },
                Action::ReadExitCode,
            ),
            (Stage::AwaitLookupExit { block }, Event::ExitCode(func)) => (
                Stage::AwaitLookupCloseThread { block, func },
                Action::CloseThread,
            ),
            (Stage::AwaitLookupCloseThread { block, func }, Event::Done) => (
                Stage::AwaitLookupFree { func },
                Action::Free {
                    address: block,
                    size: CODE_GET_FUNC_ADDRESS_X86_SIZE_ALL,
                    release: false,
                },
            ),
            (Stage::AwaitLookupFree { func }, Event::Done) => Self::trampoline_block(func),
            (Stage::AwaitTrampolineBlock { func }, Event::Address(block)) => (
                Stage::AwaitTrampolineWrite { block },
                Action::Write {
                    address: block,
                    payload: Payload::X86Trampoline {
                        func: func as usize,
                        affinity_byte: self.affinity as u8,
                        base: block,
                    },
                },
            ),
            (Stage::AwaitTrampolineWrite { block }, Event::Done) => (
                Stage::AwaitTrampolineThread { block },
                Action::StartThread { address: block, parameter: Some(self.hwnd) },
            ),
            (Stage::AwaitTrampolineThread { block }, Event::Thread(valid)) => if valid {
                (Stage::AwaitTrampolineWait { block }, Action::WaitThread)
            } else {
                (
                    Stage::AwaitTrampolineFree,
                    Action::Free { address: block, size: CODE_X86_SIZE, release: false },
                )
            },
            (Stage::AwaitTrampolineWait { block }, Event::Done) => (
                Stage::AwaitTrampolineCloseThread { block },
                Action::CloseThread,
            ),
            (Stage::AwaitTrampolineCloseThread { block }, Event::Done) => (
                Stage::AwaitTrampolineFree,
                Action::Free { address: block, size: CODE_X86_SIZE, release: false },
            ),
            (Stage::AwaitTrampolineFree, Event::Done) => (
                Stage::AwaitProcessClose,
                Action::CloseProcess,
            ),
            (Stage::AwaitProcessClose, Event::Done) => (
                Stage::Finished,
                Action::Finish { result: true },
            ),
            _ => abort,
        }
    }
}

/// The size of the block that a stage waits for, where it waits for one.
pub open spec fn awaited_block_size(stage: Stage) -> Option<usize> {
    match stage {
        Stage::AwaitX64Block { .. } => Some(CODE_X64_SIZE),
        Stage::AwaitLookupBlock => Some(CODE_GET_FUNC_ADDRESS_X86_SIZE_ALL),
        Stage::AwaitTrampolineBlock { .. } => Some(CODE_X86_SIZE),
        _ => None,
    }
}

/// Every allocation is followed by a stage that waits for a block of the
/// size that was asked for.
pub proof fn lemma_allocation_is_awaited(inj: Injection, event: Event)
    ensures
        next(inj, event).1 matches Action::Allocate { size, .. } ==> awaited_block_size(
            next(inj, event).0.stage,
        ) == Some(size),
{
}

/// Every write goes into the block just allocated and fills it exactly: it
/// comes from a stage that waits for a block, the address written to is the
/// address of that block, the payload is as long as the block and its
/// addresses can be computed, and position-dependent code is built for the
/// address it is written to.
pub proof fn lemma_write_fills_allocated_block(inj: Injection, event: Event)
    ensures
        next(inj, event).1 matches Action::Write { address, payload } ==> {
            &&& event == Event::Address(address)
            &&& awaited_block_size(inj.stage) == Some(payload_len(payload))
            &&& payload_buildable(payload)
            &&& payload_bytes(payload).len() == payload_len(payload)
            &&& (payload matches Payload::X86Lookup { base } ==> base == address)
            &&& (payload matches Payload::X86Trampoline { base, .. } ==> base == address)
        },
{
    if let Action::Write { address, payload } = next(inj, event).1 {
        match payload {
            Payload::X64Call { hwnd, affinity, function } => {
                crate::payload::lemma_x64_code_operands(hwnd, affinity, function);
            },
            Payload::X86Lookup { base } => {
                crate::payload::lemma_x86_get_func_code_strings(base);
            },
            Payload::X86Trampoline { func, affinity_byte, base } => {
                crate::payload::lemma_x86_trampoline_targets(func, affinity_byte, base);
            },
        }
    }
}

/// The code carries the window's affinity: the 64-bit routine passes it
/// whole, and the 32-bit trampoline pushes its low byte, which for the
/// affinities that `Injection::new` chooses is all of it.
pub proof fn lemma_payload_carries_affinity(inj: Injection, event: Event)
    ensures
        next(inj, event).1 matches Action::Write { payload, .. } ==> {
            &&& (payload matches Payload::X64Call { hwnd, affinity, .. } ==> hwnd == inj.hwnd
                && affinity == inj.affinity)
            &&& (payload matches Payload::X86Trampoline { affinity_byte, .. } ==> affinity_byte
                == inj.affinity as u8)
        },
        (exists|hide: bool| inj.affinity == spec_display_affinity(hide)) ==> (inj.affinity as u8)
            as u32 == inj.affinity,
{
}

/// Only the trampoline's thread is given a parameter, and that parameter is
/// the window's handle; the thread starts at the address the trampoline was
/// written to.
pub proof fn lemma_thread_parameter_is_window(inj: Injection, event: Event)
    ensures
        next(inj, event).1 matches Action::StartThread { address, parameter } ==> (
        parameter is Some ==> parameter == Some(inj.hwnd) && inj.stage
            == (Stage::AwaitTrampolineWrite { block: address })),
{
}

/// The work finishes only once the process handle has been closed, and then
/// reports success.
pub proof fn lemma_finish_after_close(inj: Injection, event: Event)
    ensures
        next(inj, event).1 matches Action::Finish { result } ==> result && inj.stage
            == Stage::AwaitProcessClose && event == Event::Done,
        next(inj, event).1 == Action::CloseProcess ==> next(inj, event).0.stage
            == Stage::AwaitProcessClose,
{
}

/// How many steps at most remain before the work is over.
pub open spec fn remaining_steps(stage: Stage) -> nat {
    match stage {
        Stage::Start => 40,
        Stage::AwaitProcessId => 39,
        Stage::AwaitOpen { .. } => 38,
        Stage::AwaitWow64 { .. } => 37,
        Stage::AwaitModule => 36,
        Stage::AwaitFunction => 35,
        Stage::AwaitX64Block { .. } => 34,
        Stage::AwaitX64Write { .. } => 33,
        Stage::AwaitX64Thread { .. } => 32,
        Stage::AwaitX64Wait { .. } => 31,
        Stage::AwaitX64Free => 30,
        Stage::AwaitX64CloseThread => 29,
        Stage::AwaitLookupBlock => 28,
        Stage::AwaitLookupWrite { .. } => 27,
        Stage::AwaitLookupThread { .. } => 26,
        Stage::AwaitLookupWait { .. } => 25,
        Stage::AwaitLookupExit { .. } => 24,
        Stage::AwaitLookupCloseThread { .. } => 23,
        Stage::AwaitLookupFree { .. } => 22,
        Stage::AwaitTrampolineBlock { .. } => 21,
        Stage::AwaitTrampolineWrite { .. } => 20,
        Stage::AwaitTrampolineThread { .. } => 19,
        Stage::AwaitTrampolineWait { .. } => 18,
        Stage::AwaitTrampolineCloseThread { .. } => 17,
        Stage::AwaitTrampolineFree => 16,
        Stage::AwaitProcessClose => 1,
        Stage::Finished => 0,
        Stage::Aborted => 0,
    }
}

/// The work always ends: every step before the end brings it closer to
/// `Finished` or `Aborted`, and from there every event only aborts.
pub proof fn lemma_work_ends(inj: Injection, event: Event)
    ensures
        inj.stage != Stage::Finished && inj.stage != Stage::Aborted ==> remaining_steps(
            next(inj, event).0.stage,
        ) < remaining_steps(inj.stage),
        inj.stage == Stage::Finished || inj.stage == Stage::Aborted ==> next(inj, event)
            == (with_stage(inj, Stage::Aborted), Action::Abort),
        remaining_steps(next(inj, event).0.stage) == 0 ==> (next(inj, event).0.stage
            == Stage::Finished || next(inj, event).0.stage == Stage::Aborted),
{
}

/// In a 64-bit process, the function that was resolved is the one the
/// routine calls: after `ResolveFunction` reports `function` and the
/// allocation reports `block`, the routine written to `block` calls
/// `function` with the window's handle and affinity.
pub proof fn lemma_x64_calls_resolved_function(inj: Injection, function: usize, block: usize)
    requires
        inj.stage == Stage::AwaitFunction,
    ensures
        next(next(inj, Event::Address(function)).0, Event::Address(block)).1 == (Action::Write {
            address: block,
            payload: Payload::X64Call {
                hwnd: inj.hwnd,
                affinity: inj.affinity,
                function: function as u64,
            },
        }),
{
}

/// In a 32-bit process, the address that the lookup routine returns is
/// where the trampoline jumps: after the exit code `func`, the thread's
/// closing, the block's release and the allocation of `block`, the
/// trampoline written to `block` jumps to `func`.
pub proof fn lemma_x86_jumps_to_looked_up_function(
    inj: Injection,
    lookup_block: usize,
    func: u32,
    block: usize,
)
    requires
        inj.stage == (Stage::AwaitLookupExit { block: lookup_block }),
    ensures
        ({
            let s1 = next(inj, Event::ExitCode(func)).0;
            let s2 = next(s1, Event::Done).0;
            let s3 = next(s2, Event::Done).0;
            next(s3, Event::Address(block)).1 == (Action::Write {
                address: block,
                payload: Payload::X86Trampoline {
                    func: func as usize,
                    affinity_byte: inj.affinity as u8,
                    base: block,
                },
            })
        }),
{
}

} // verus!
