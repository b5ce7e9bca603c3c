use debugger::debugger::spawn::Spawned;
use debugger::debugger::subordinate::Progress;
use debugger::debugger::{DebugInfo, Registers, Subordinate, Symbol};
use debugger::error::Error;
use debugger::sys::ptrace::{Reply, Request};
use debugger::sys::{Fork, WaitStatus};
use debugger::tui::panels::{
    digit_char, disassemble, listing_line, lower_hex, registers, stack,
};
use debugger::tui::{
    digit_of, execute_command, parse_address, same_text, set_breakpoint, split_words, Config,
    Event, Key, Tui, Turn,
};

const PID: i32 = 99;

/// A controller whose child has stopped with these registers, each word of
/// the stack window being its own address.
fn stopped(registers: Registers) -> Subordinate {
    let mut making = Subordinate::spawn(vec!["/toy".to_string()]).unwrap();
    making.resume(Reply::Forked(Fork::Parent(PID)));
    let mut info = DebugInfo::empty();
    info.insert(Symbol { name: "main".to_string(), low_pc: 0x4010a0, high_pc: 0x24 });
    info.insert(Symbol { name: "beef".to_string(), low_pc: 0x401000, high_pc: 0x10 });
    let mut subordinate = match making.resume(Reply::Symbols(info)) {
        Spawned::Ready(subordinate) => subordinate,
        other => panic!("{:?}", other),
    };
    subordinate.resume(Reply::Status(WaitStatus::Stopped(PID, 5)));
    let mut progress = subordinate.resume(Reply::Regs(registers));
    while let Progress::Ask(Request::Peek(_, addr)) = progress {
        progress = subordinate.resume(Reply::Word(addr));
    }
    assert_eq!(progress, Progress::Done);
    subordinate
}

fn at_entry() -> Subordinate {
    let mut registers = Registers::default();
    registers.rip = 0x4010a0;
    registers.rsp = 0x7ffd_0000_1000;
    registers.rbp = 0x1;
    registers.rax = 0xabcdef;
    registers.rbx = 0x10;
    registers.rcx = 0xffff_ffff_ffff_ffff;
    registers.rdx = 0x9;
    registers.rdi = 0xa;
    registers.rsi = 0;
    stopped(registers)
}

#[test]
fn parse_address_reads_base_16() {
    assert_eq!(parse_address("4010a0"), Some(0x4010a0));
    assert_eq!(parse_address("0"), Some(0));
    assert_eq!(parse_address("000000000000000000000ff"), Some(0xff));
    assert_eq!(parse_address("DeadBeef"), Some(0xdeadbeef));
    assert_eq!(parse_address("+1f"), Some(0x1f));
    assert_eq!(parse_address("ffffffffffffffff"), Some(u64::MAX));
}

#[test]
fn parse_address_refuses_what_is_no_address() {
    assert_eq!(parse_address(""), None);
    assert_eq!(parse_address("+"), None);
    assert_eq!(parse_address("-1"), None);
    assert_eq!(parse_address("++1"), None);
    assert_eq!(parse_address("0x10"), None);
    assert_eq!(parse_address("main"), None);
    assert_eq!(parse_address("12 "), None);
    assert_eq!(parse_address("1_0"), None);
    assert_eq!(parse_address("10000000000000000"), None);
    assert_eq!(parse_address("fffffffffffffffff"), None);
    assert_eq!(parse_address("\u{ff11}"), None);
}

#[test]
fn digit_of_knows_both_cases() {
    assert_eq!(digit_of('0'), Some(0));
    assert_eq!(digit_of('9'), Some(9));
    assert_eq!(digit_of('a'), Some(10));
    assert_eq!(digit_of('f'), Some(15));
    assert_eq!(digit_of('A'), Some(10));
    assert_eq!(digit_of('F'), Some(15));
    assert_eq!(digit_of('g'), None);
    assert_eq!(digit_of('/'), None);
    assert_eq!(digit_of(':'), None);
    assert_eq!(digit_of('@'), None);
    assert_eq!(digit_of('`'), None);
}

#[test]
fn same_text_compares_letter_for_letter() {
    assert!(same_text("step", "step"));
    assert!(!same_text("step", "Step"));
    assert!(!same_text("s", "step"));
    assert!(same_text("", ""));
}

#[test]
fn commands_step_and_continue() {
    for (word, request) in [
        ("s", Request::SingleStep(PID)),
        ("step", Request::SingleStep(PID)),
        ("c", Request::Cont(PID)),
        ("cont", Request::Cont(PID)),
    ] {
        let mut subordinate = at_entry();
        assert_eq!(execute_command(&mut subordinate, vec![word]), Some(Progress::Ask(request)));
        assert_eq!(subordinate.request(), Some(request));
    }
}

#[test]
fn command_break_takes_an_address_or_a_symbol() {
    for (word, target, addr) in [
        ("b", "4010b0", 0x4010b0),
        ("break", "4010b0", 0x4010b0),
        ("b", "main", 0x4010a0),
        ("break", "main", 0x4010a0),
        // What reads as an address is taken as one, also where a symbol bears the name.
        ("b", "beef", 0xbeef),
    ] {
        let mut subordinate = at_entry();
        assert_eq!(
            execute_command(&mut subordinate, vec![word, target]),
            Some(Progress::Ask(Request::Peek(PID, addr)))
        );
    }
}

#[test]
fn unknown_commands_leave_the_child_alone() {
    for words in [
        vec![],
        vec!["x"],
        vec!["step", "2"],
        vec!["b"],
        vec!["b", "1", "2"],
        vec!["S"],
        vec!["continue"],
    ] {
        let mut subordinate = at_entry();
        assert_eq!(execute_command(&mut subordinate, words), None);
        assert_eq!(subordinate.request(), None);
    }
}

#[test]
fn breakpoint_on_an_unknown_target_is_a_domain_error() {
    let mut subordinate = at_entry();
    assert_eq!(
        set_breakpoint(&mut subordinate, "nowhere"),
        Progress::Failed(Error::Domain(
            "couldn't set breakpoint on `nowhere`, not a known address or symbol".to_string()
        ))
    );
    assert_eq!(subordinate.request(), None);
    assert_eq!(
        execute_command(&mut subordinate, vec!["b", "0x10"]),
        Some(Progress::Failed(Error::Domain(
            "couldn't set breakpoint on `0x10`, not a known address or symbol".to_string()
        )))
    );
}

#[test]
fn keys_edit_the_line() {
    let mut tui = Tui::new(at_entry());
    assert_eq!(tui.input(), "");
    assert!(matches!(tui.on_key(Key::Backspace), Turn::Stay));
    assert_eq!(tui.input(), "");
    for c in "b mainx".chars() {
        assert!(matches!(tui.on_key(Key::Char(c)), Turn::Stay));
    }
    assert_eq!(tui.input(), "b mainx");
    assert!(matches!(tui.on_key(Key::Backspace), Turn::Stay));
    assert!(matches!(tui.on_key(Key::Other), Turn::Stay));
    assert_eq!(tui.input(), "b main");
    assert!(matches!(tui.on_key(Key::Esc), Turn::Quit));
    assert_eq!(tui.input(), "b main");
}

#[test]
fn return_key_runs_the_line() {
    let mut tui = Tui::new(at_entry());
    for c in "  break \t main ".chars() {
        tui.on_key(Key::Char(c));
    }
    match tui.on_key(Key::Char('\n')) {
        Turn::Run(progress) => assert_eq!(progress, Progress::Ask(Request::Peek(PID, 0x4010a0))),
        other => panic!("{:?}", other),
    }
    assert_eq!(tui.input(), "");
    assert_eq!(tui.subordinate().request(), Some(Request::Peek(PID, 0x4010a0)));
    let word = 0x1122334455667788;
    assert_eq!(
        tui.resume(Reply::Word(word)),
        Progress::Ask(Request::Poke(PID, 0x4010a0, 0x11223344556677cc))
    );
    assert_eq!(tui.resume(Reply::Done), Progress::Done);
    assert_eq!(tui.subordinate().saved_word(0x4010a0), Some(word));
}

#[test]
fn return_key_hands_back_what_is_no_command() {
    let mut tui = Tui::new(at_entry());
    for c in "jump now".chars() {
        tui.on_key(Key::Char(c));
    }
    match tui.on_key(Key::Char('\n')) {
        Turn::Unknown(line) => assert_eq!(line, "jump now"),
        other => panic!("{:?}", other),
    }
    assert_eq!(tui.input(), "");
    match tui.on_key(Key::Char('\n')) {
        Turn::Unknown(line) => assert_eq!(line, ""),
        other => panic!("{:?}", other),
    }
}

#[test]
fn default_config() {
    let config = Config::default();
    assert_eq!(config.exit_key, Key::Char('q'));
    assert_eq!(config.tick_rate, 250);
    assert!(config.ends_input(Key::Char('q'), false));
    assert!(!config.ends_input(Key::Char('q'), true));
    assert!(!config.ends_input(Key::Char('x'), false));
    assert!(!config.ends_input(Key::Esc, false));
}

#[test]
fn events_carry_input() {
    let event: Event<Key> = Event::Input(Key::Esc);
    assert_eq!(event, Event::Input(Key::Esc));
    assert_ne!(event, Event::Tick);
}

#[test]
fn registers_panel() {
    assert_eq!(
        registers(&at_entry()),
        "rip: 0x4010a0\nrsp: 0x7ffd00001000\nrbp: 0x1\nrax: 0xabcdef\nrbx: 0x10\n\
         rcx: 0xffffffffffffffff\nrdx: 0x9\nrdi: 0xa\nrsi: 0x0\n"
    );
}

#[test]
fn stack_panel() {
    let text = stack(&at_entry());
    let lines: Vec<&str> = text.lines().collect();
    assert_eq!(lines.len(), 16);
    assert_eq!(lines[0], "0x7ffd00001000: 0x7ffd00001000");
    assert_eq!(lines[1], "0x7ffd00001008: 0x7ffd00001008");
    assert_eq!(lines[15], "0x7ffd00001078: 0x7ffd00001078");
    assert!(text.ends_with("0x7ffd00001078: 0x7ffd00001078\n"));
}

#[test]
fn stack_panel_before_any_stop_is_empty() {
    let mut making = Subordinate::spawn(vec!["/toy".to_string()]).unwrap();
    making.resume(Reply::Forked(Fork::Parent(PID)));
    match making.resume(Reply::Symbols(DebugInfo::empty())) {
        Spawned::Ready(subordinate) => {
            assert_eq!(stack(&subordinate), "");
            assert!(registers(&subordinate).starts_with("rip: 0x0\nrsp: 0x0\n"));
        }
        other => panic!("{:?}", other),
    }
}

#[test]
fn listing_line_lays_out_the_columns() {
    assert_eq!(
        listing_line(0x4010a0, &[0x55], "push rbp"),
        "00000000004010a0 55                   push rbp\n"
    );
    assert_eq!(
        listing_line(0xffff_ffff_ffff_fff0, &[0x0f, 0x05], "syscall"),
        "fffffffffffffff0 0f05                 syscall\n"
    );
    assert_eq!(listing_line(1, &[1, 2, 3, 4, 5, 6, 7, 8, 9, 10], "x"), "0000000000000001 0102030405060708090a x\n");
    assert_eq!(
        listing_line(1, &[1, 2, 3, 4, 5, 6, 7, 8, 9, 10, 0xab], ""),
        "0000000000000001 0102030405060708090aab \n"
    );
    assert_eq!(listing_line(0, &[], "?"), "0000000000000000                      ?\n");
}

#[test]
fn disassemble_lists_each_instruction_at_its_address() {
    let text = disassemble(&[0x55, 0x48, 0x89, 0xe5, 0x90, 0x5d, 0xc3], 0x4010a0);
    assert_eq!(
        text,
        "00000000004010a0 55                   push rbp\n\
         00000000004010a1 4889e5               mov rbp,rsp\n\
         00000000004010a4 90                   nop\n\
         00000000004010a5 5d                   pop rbp\n\
         00000000004010a6 c3                   ret\n"
    );
}

#[test]
fn disassemble_of_nothing_is_empty() {
    assert_eq!(disassemble(&[], 0x4010a0), "");
}

#[test]
fn disassemble_goes_on_after_what_is_no_instruction() {
    // A lone prefix of a longer instruction at the end of the code.
    let text = disassemble(&[0x90, 0x48], 0x10);
    let lines: Vec<&str> = text.lines().collect();
    assert_eq!(lines.len(), 2);
    assert_eq!(lines[0], "0000000000000010 90                   nop");
    assert!(lines[1].starts_with("0000000000000011 48                   "));
}

#[test]
fn disassemble_starts_at_the_base_address() {
    let text = disassemble(&[0xc3], 0xffff_ffff_ffff_ffff);
    assert_eq!(text, "ffffffffffffffff c3                   ret\n");
}

#[test]
fn split_words_cuts_at_white_space() {
    assert_eq!(split_words("b main"), vec!["b", "main"]);
    assert_eq!(split_words("  break \t 4010a0\n"), vec!["break", "4010a0"]);
    assert_eq!(split_words("step"), vec!["step"]);
    assert_eq!(split_words("a\u{3000}b\u{a0}c"), vec!["a", "b", "c"]);
    assert_eq!(split_words("gr\u{fc}\u{df}e x"), vec!["gr\u{fc}\u{df}e", "x"]);
    assert!(split_words("").is_empty());
    assert!(split_words(" \t ").is_empty());
}

#[test]
fn lower_hex_writes_digits_and_zeros() {
    assert_eq!(lower_hex(0, 0), "0");
    assert_eq!(lower_hex(0, 1), "0");
    assert_eq!(lower_hex(0, 2), "00");
    assert_eq!(lower_hex(0xa, 2), "0a");
    assert_eq!(lower_hex(0xff, 2), "ff");
    assert_eq!(lower_hex(0x100, 2), "100");
    assert_eq!(lower_hex(0x4010a0, 16), "00000000004010a0");
    assert_eq!(lower_hex(0xDEADBEEF, 0), "deadbeef");
    assert_eq!(lower_hex(u64::MAX, 0), "ffffffffffffffff");
    assert_eq!(lower_hex(u64::MAX, 20), "0000ffffffffffffffff");
    assert_eq!(lower_hex(16, 0), "10");
    assert_eq!(lower_hex(15, 0), "f");
}

#[test]
fn digit_char_is_lower_case() {
    let digits: String = (0..16).map(digit_char).collect();
    assert_eq!(digits, "0123456789abcdef");
}
