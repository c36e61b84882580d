use anti_window_snap::injection::{
    build_payload, payload_is_buildable, Action, Event, Injection, Payload, Stage, TARGET_FUNCTION,
    TARGET_MODULE,
};
use anti_window_snap::payload::{build_x64_code, build_x86_code, build_x86_get_func_code};

fn run(inj: &mut Injection, events: &[Event]) -> Vec<Action> {
    let mut actions = vec![inj.step(Event::Done)];
    for e in events {
        actions.push(inj.step(*e));
    }
    actions
}

#[test]
fn x64_process_gets_the_64_bit_routine() {
    let mut inj = Injection::new(0xABCD, true);
    assert_eq!(inj.affinity, 0x11);
    let actions = run(
        &mut inj,
        &[
            Event::ProcessId(42),
            Event::Done,
            Event::Wow64(false),
            Event::Address(0x7FF8_0000_0000),
            Event::Address(0x7FF8_0001_2340),
            Event::Address(0x1F0_0000),
            Event::Done,
            Event::Thread(true),
            Event::Done,
            Event::Done,
            Event::Done,
            Event::Done,
        ],
    );
    let payload = Payload::X64Call { hwnd: 0xABCD, affinity: 0x11, function: 0x7FF8_0001_2340 };
    assert_eq!(
        actions,
        vec![
            Action::QueryProcessId { hwnd: 0xABCD },
            Action::OpenProcess { pid: 42 },
            Action::QueryWow64,
            Action::FindModule { pid: 42 },
            Action::ResolveFunction { module: 0x7FF8_0000_0000 },
            Action::Allocate { size: 78, reserve: true },
            Action::Write { address: 0x1F0_0000, payload },
            Action::StartThread { address: 0x1F0_0000, parameter: None },
            Action::WaitThread,
            Action::Free { address: 0x1F0_0000, size: 0, release: true },
            Action::CloseThread,
            Action::CloseProcess,
            Action::Finish { result: true },
        ]
    );
    assert_eq!(inj.stage, Stage::Finished);
    assert_eq!(build_payload(payload), build_x64_code(0xABCD, 0x11, 0x7FF8_0001_2340));
}

#[test]
fn x86_process_looks_up_the_function_then_jumps_to_it() {
    let mut inj = Injection::new(0x00AB_0CDE, true);
    let actions = run(
        &mut inj,
        &[
            Event::ProcessId(7),
            Event::Done,
            Event::Wow64(true),
            Event::Address(0x0030_0000),
            Event::Done,
            Event::Thread(true),
            Event::Done,
            Event::ExitCode(0x7560_1000),
            Event::Done,
            Event::Done,
            Event::Address(0x0031_0000),
            Event::Done,
            Event::Thread(true),
            Event::Done,
            Event::Done,
            Event::Done,
            Event::Done,
        ],
    );
    let lookup = Payload::X86Lookup { base: 0x0030_0000 };
    let trampoline = Payload::X86Trampoline { func: 0x7560_1000, affinity_byte: 0x11, base: 0x0031_0000 };
    assert_eq!(
        actions,
        vec![
            Action::QueryProcessId { hwnd: 0x00AB_0CDE },
            Action::OpenProcess { pid: 7 },
            Action::QueryWow64,
            Action::Allocate { size: 173, reserve: false },
            Action::Write { address: 0x0030_0000, payload: lookup },
            Action::StartThread { address: 0x0030_0000, parameter: None },
            Action::WaitThread,
            Action::ReadExitCode,
            Action::CloseThread,
            Action::Free { address: 0x0030_0000, size: 173, release: false },
            Action::Allocate { size: 11, reserve: false },
            Action::Write { address: 0x0031_0000, payload: trampoline },
            Action::StartThread { address: 0x0031_0000, parameter: Some(0x00AB_0CDE) },
            Action::WaitThread,
            Action::CloseThread,
            Action::Free { address: 0x0031_0000, size: 11, release: false },
            Action::CloseProcess,
            Action::Finish { result: true },
        ]
    );
    assert_eq!(build_payload(lookup), build_x86_get_func_code(0x0030_0000).to_vec());
    assert_eq!(build_payload(trampoline), build_x86_code(0x7560_1000, 0x11, 0x0031_0000).to_vec());
}

#[test]
fn showing_again_uses_affinity_none() {
    let inj = Injection::new(1, false);
    assert_eq!(inj.affinity, 0);
    assert_eq!(inj.stage, Stage::Start);
}

#[test]
fn failed_lookup_thread_skips_to_trampoline_with_no_target() {
    let mut inj = Injection::new(5, true);
    let actions = run(
        &mut inj,
        &[
            Event::ProcessId(1),
            Event::Done,
            Event::Wow64(true),
            Event::Address(0x0030_0000),
            Event::Done,
            Event::Thread(false),
        ],
    );
    assert_eq!(actions.last(), Some(&Action::Allocate { size: 11, reserve: false }));
    assert_eq!(inj.stage, Stage::AwaitTrampolineBlock { func: 0 });
    // The trampoline still jumps to address 0, backwards, as the displacement wraps.
    let payload = Payload::X86Trampoline { func: 0, affinity_byte: 0x11, base: 0x0031_0000 };
    assert_eq!(inj.step(Event::Address(0x0031_0000)), Action::Write { address: 0x0031_0000, payload });
    let code = build_payload(payload);
    let rel = u32::from_le_bytes([code[7], code[8], code[9], code[10]]);
    assert_eq!(0x0031_000Bu32.wrapping_add(rel), 0);
}

#[test]
fn lookup_block_whose_low_half_is_zero_counts_as_failed() {
    let mut inj = Injection::new(5, true);
    run(&mut inj, &[Event::ProcessId(1), Event::Done, Event::Wow64(true)]);
    assert_eq!(inj.step(Event::Address(0x1_0000_0000)), Action::Allocate { size: 11, reserve: false });
    assert_eq!(inj.stage, Stage::AwaitTrampolineBlock { func: 0 });
}

#[test]
fn failed_trampoline_thread_frees_its_block() {
    let mut inj = Injection::new(5, true);
    inj.stage = Stage::AwaitTrampolineThread { block: 0x50_0000 };
    assert_eq!(inj.step(Event::Thread(false)), Action::Free { address: 0x50_0000, size: 11, release: false });
    assert_eq!(inj.step(Event::Done), Action::CloseProcess);
    assert_eq!(inj.step(Event::Done), Action::Finish { result: true });
}

#[test]
fn unexpected_events_abort() {
    let mut inj = Injection::new(5, true);
    inj.step(Event::Done);
    assert_eq!(inj.step(Event::Wow64(true)), Action::Abort);
    assert_eq!(inj.stage, Stage::Aborted);
    assert_eq!(inj.step(Event::Done), Action::Abort);
    let mut done = Injection::new(5, true);
    done.stage = Stage::Finished;
    assert_eq!(done.step(Event::Done), Action::Abort);
}

#[test]
fn work_ends_within_forty_steps() {
    let events = [
        Event::Done, Event::ProcessId(7), Event::Done, Event::Wow64(true), Event::Address(0x0030_0000),
        Event::Done, Event::Thread(true), Event::Done, Event::ExitCode(0x7560_1000), Event::Done,
        Event::Done, Event::Address(0x0031_0000), Event::Done, Event::Thread(true), Event::Done,
        Event::Done, Event::Done, Event::Done,
    ];
    let mut inj = Injection::new(9, true);
    let mut steps = 0;
    for e in events {
        steps += 1;
        if let Action::Finish { .. } = inj.step(e) {
            break;
        }
    }
    assert!(steps <= 40);
    assert_eq!(inj.stage, Stage::Finished);
}

#[test]
fn payload_buildability() {
    assert!(payload_is_buildable(Payload::X64Call { hwnd: 1, affinity: 0x11, function: 0 }));
    assert!(payload_is_buildable(Payload::X86Lookup { base: usize::MAX - 148 }));
    assert!(!payload_is_buildable(Payload::X86Lookup { base: usize::MAX - 147 }));
    assert!(payload_is_buildable(Payload::X86Trampoline { func: 111, affinity_byte: 0, base: 100 }));
    assert!(payload_is_buildable(Payload::X86Trampoline { func: 0, affinity_byte: 0, base: usize::MAX }));
    assert_eq!(TARGET_MODULE, "User32.dll");
    assert_eq!(TARGET_FUNCTION, "SetWindowDisplayAffinity");
    assert_eq!(build_payload(Payload::X86Lookup { base: usize::MAX - 148 }).len(), 173);
}
