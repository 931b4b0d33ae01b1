use sal_vm::affect::{AffectState, Breach, GateReport, Remark, Verdict};
use sal_vm::decode::PrefixType;
use sal_vm::machine::{Fault, Machine, Output, RegisterPair, Status};
use sal_vm::mood::{Mood, MoodProfile};
use sal_vm::text::{line_first_ascii, parse_line_number};

fn run(m: &mut Machine, lines: &[&str]) -> Vec<Output> {
    let mut outputs = Vec::new();
    let mut next_line = 0;
    let mut steps = 0;
    while m.is_running() {
        let input = if m.wants_input() && next_line < lines.len() {
            next_line += 1;
            Some(lines[next_line - 1])
        } else {
            None
        };
        if let Some(o) = m.step(input) {
            outputs.push(o);
        }
        steps += 1;
        assert!(steps < 10_000);
    }
    outputs
}

fn bored() -> MoodProfile {
    MoodProfile::of_mood(Mood::Bored)
}

#[test]
fn polite_strong_increment_scenario() {
    let mut m = Machine::new(&[0b1100_0000], bored());
    run(&mut m, &[]);
    assert_eq!(m.affect.social_credit, -5);
    assert_eq!(m.polite.a, 1);
    assert_eq!(m.affect.irritation, 5);
    assert_eq!(m.status, Status::Completed);
}

#[test]
fn two_loop_arms_scenario_bytes() {
    // 0b10011000 and 0b10011100 decode to two Polite Loop arms.
    let mut m = Machine::new(&[0b1001_1000, 0b1001_1100], bored());
    let out = run(&mut m, &[]);
    assert!(out.is_empty());
    assert_eq!(m.demanding, RegisterPair { a: 0, b: 0 });
    assert_eq!(m.loop0.return_index, 1);
    assert_eq!(m.status, Status::Completed);
}

#[test]
fn demanding_increment_twice_then_write() {
    let mut m = Machine::new(&[0b0100_0100, 0b0100_0100, 0b0101_0110], bored());
    let out = run(&mut m, &[]);
    assert_eq!(m.demanding.b, 2);
    assert_eq!(out, vec![Output::Number(2)]);
    assert_eq!(m.affect.social_credit, -6);
}

#[test]
fn maniacal_credit_never_rises() {
    let mut m = Machine::new(&[0b1000_0000, 0b1000_0000, 0b1000_0100, 0b1100_0000], MoodProfile::of_mood(Mood::Maniacal));
    let mut last = m.affect.social_credit;
    while m.is_running() {
        m.step(None);
        assert!(m.affect.social_credit <= last);
        last = m.affect.social_credit;
    }
    assert_eq!(m.polite, RegisterPair { a: 3, b: 1 });
    assert_eq!(m.affect.social_credit, -5);
}

#[test]
fn maniacal_doubles_demanding_strong_increment() {
    let mut m = Machine::new(&[0b0000_0000], MoodProfile::of_mood(Mood::Maniacal));
    run(&mut m, &[]);
    assert_eq!(m.demanding.a, 2);
}

#[test]
fn push_then_pop_returns_value() {
    // A += 1; push A on slot 0; double A; pop slot 0 into A.
    let mut m = Machine::new(&[0b1000_0000, 0b1000_1001, 0b1000_1000, 0b1000_1011], bored());
    run(&mut m, &[]);
    assert_eq!(m.polite.a, 1);
    assert!(m.stack0.is_empty());
}

#[test]
fn pop_empty_gives_zero() {
    let mut m = Machine::new(&[0b1000_0000, 0b1000_1011], bored());
    run(&mut m, &[]);
    assert_eq!(m.polite.a, 0);
    let mut n = Machine::new(&[], bored());
    assert_eq!(n.pop_value(true), 0);
    n.push_value(true, 7);
    n.push_value(true, 9);
    assert_eq!(n.pop_value(true), 9);
    assert_eq!(n.pop_value(false), 0);
    assert_eq!(n.pop_value(true), 7);
}

#[test]
fn stacks_are_chosen_by_bit_not_tone() {
    // Polite A += 1, push slot 0; Demanding pop slot 0 into demanding A.
    let mut m = Machine::new(&[0b1000_0000, 0b1000_1001, 0b0100_1011], bored());
    run(&mut m, &[]);
    assert_eq!(m.demanding.a, 1);
}

#[test]
fn halve_and_double() {
    // A += 1 three times, double, halve, halve: 3 -> 6 -> 3 -> 1.
    let mut m = Machine::new(&[0x80, 0x80, 0x80, 0b1000_1000, 0b1000_1010, 0b1000_1010], bored());
    run(&mut m, &[]);
    assert_eq!(m.polite.a, 1);
}

#[test]
fn halve_negative_rounds_towards_zero() {
    // A -= 1 three times (s1 set), then halve.
    let mut m = Machine::new(&[0b1000_0010, 0b1000_0010, 0b1000_0010, 0b1000_1010], bored());
    run(&mut m, &[]);
    assert_eq!(m.polite.a, -1);
}

#[test]
fn increment_by_other_register() {
    // A += 1 twice; B += A twice (s0 and s2 set); then B -= A (s1 set as well).
    let mut m = Machine::new(&[0x80, 0x80, 0b1000_0101, 0b1000_0101, 0b1000_0111], bored());
    run(&mut m, &[]);
    assert_eq!(m.polite, RegisterPair { a: 2, b: 2 });
}

#[test]
fn loop_body_runs_bound_times() {
    let mut m = Machine::new(&[0x80, 0x80, 0x80, 0b1001_1000, 0b1000_0100, 0b1001_1010], bored());
    run(&mut m, &[]);
    assert_eq!(m.polite.b, 3);
    assert_eq!(m.loop0.counter, 2);
    assert_eq!(m.loop0.bound, 3);
    assert_eq!(m.status, Status::Completed);
}

#[test]
fn loop_with_bound_one_runs_once() {
    let mut m = Machine::new(&[0x80, 0b1001_1000, 0b1000_0100, 0b1001_1010], bored());
    run(&mut m, &[]);
    assert_eq!(m.polite.b, 1);
}

#[test]
fn loop_slot_one_is_separate() {
    // Arm slot 1 (s2 set) with A = 2, increment B, iterate slot 1.
    let mut m = Machine::new(&[0x80, 0x80, 0b1001_1001, 0b1000_0100, 0b1001_1011], bored());
    run(&mut m, &[]);
    assert_eq!(m.polite.b, 2);
    assert_eq!(m.loop0.bound, 0);
    assert_eq!(m.loop1.bound, 2);
}

#[test]
fn polite_skip_leaves_state() {
    let mut p = bored();
    p.starting_credit = 60;
    let mut m = Machine::new(&[0x80, 0x80], p);
    assert_eq!(m.report(), Some(GateReport { verdict: Verdict::Skip, remark: Remark::Silent, delay_ms: 0 }));
    m.step(None);
    assert_eq!(m.affect, AffectState { social_credit: 60, irritation: 0, last_was_positive: true });
    assert_eq!(m.polite, RegisterPair { a: 0, b: 0 });
    assert_eq!(m.pc, 1);
    run(&mut m, &[]);
    assert_eq!(m.status, Status::Completed);
    assert_eq!(m.polite.a, 0);
}

#[test]
fn polite_near_tolerance_is_reluctant() {
    let mut p = bored();
    p.starting_credit = -30;
    let m = Machine::new(&[0x80], p);
    assert_eq!(m.report(), Some(GateReport { verdict: Verdict::Proceed, remark: Remark::Reluctant, delay_ms: 0 }));
}

#[test]
fn polite_strong_breach_ends_run() {
    let mut p = bored();
    p.starting_credit = -100;
    let mut m = Machine::new(&[0b1100_0000, 0x80], p);
    m.step(None);
    assert_eq!(m.status, Status::Aborted(Fault::Affect(Breach::PoliteStrong)));
    assert_eq!(m.polite.a, 0);
    assert!(!m.is_running());
    assert_eq!(m.step(None), None);
    assert_eq!(m.pc, 0);
    assert_eq!(m.polite.a, 0);
}

#[test]
fn polite_strong_breach_reached_by_running() {
    // Twenty PoliteStrong increments bring credit to -100; the next one ends the run.
    let mut p = bored();
    p.irritation_change = 0;
    let mut m = Machine::new(&[0b1100_0000; 22], p);
    run(&mut m, &[]);
    assert_eq!(m.status, Status::Aborted(Fault::Affect(Breach::PoliteStrong)));
    assert_eq!(m.polite.a, 20);
    assert_eq!(m.pc, 20);
}

#[test]
fn polite_strong_close_delays() {
    let mut p = bored();
    p.starting_credit = 80;
    let m = Machine::new(&[0b1100_0000], p);
    assert_eq!(m.report(), Some(GateReport { verdict: Verdict::Proceed, remark: Remark::Silent, delay_ms: 1500 }));
}

#[test]
fn demanding_defiance_delays_then_proceeds() {
    let mut p = bored();
    p.starting_credit = 80;
    let mut m = Machine::new(&[0b0100_0000], p);
    assert_eq!(m.report(), Some(GateReport { verdict: Verdict::Proceed, remark: Remark::Defiant, delay_ms: 15500 }));
    m.step(None);
    assert_eq!(m.demanding.a, 1);
    assert_eq!(m.affect.social_credit, 78);
}

#[test]
fn demanding_strong_breach() {
    let mut p = bored();
    p.starting_credit = 75;
    let mut m = Machine::new(&[0b0000_0000], p);
    m.step(None);
    assert_eq!(m.status, Status::Aborted(Fault::Affect(Breach::DemandingStrong)));
    assert_eq!(m.demanding.a, 0);
}

#[test]
fn irritation_limit_ends_run() {
    let mut p = bored();
    p.demanding_change = 0;
    let mut m = Machine::new(&[0b0100_0000; 25], p);
    run(&mut m, &[]);
    assert_eq!(m.status, Status::Aborted(Fault::Affect(Breach::Irritation)));
    assert_eq!(m.affect.irritation, 100);
    assert_eq!(m.demanding.a, 20);
}

#[test]
fn polite_decays_irritation_to_zero() {
    let mut p = bored();
    p.irritation_decay = -7;
    // One Demanding raises irritation to 5; one Polite brings it to 0, not -2.
    let mut m = Machine::new(&[0b0100_0000, 0x80], p);
    m.step(None);
    assert_eq!(m.affect.irritation, 5);
    m.step(None);
    assert_eq!(m.affect.irritation, 0);
}

#[test]
fn social_credit_saturates() {
    let mut p = bored();
    p.starting_credit = i32::MAX - 1;
    p.small_tolerance = i32::MAX;
    p.small_tolerance_close = i32::MAX;
    p.polite_change = 5;
    let mut m = Machine::new(&[0x80], p);
    m.step(None);
    assert_eq!(m.affect.social_credit, i32::MAX);
}

#[test]
fn jump_forward_and_branch_backward() {
    // Polite Jump offset 2 from 0 lands on 2; Polite A += 1 there.
    let mut m = Machine::new(&[0b1011_1000, 0x80, 0x80], bored());
    run(&mut m, &[]);
    assert_eq!(m.polite.a, 1);
    assert_eq!(m.status, Status::Completed);
}

#[test]
fn jump_out_of_range_faults() {
    let mut m = Machine::new(&[0b1011_1000, 0x80], bored());
    run(&mut m, &[]);
    assert_eq!(m.status, Status::Aborted(Fault::OutOfRange));
    let mut d = Machine::new(&[0b0111_1000], bored());
    run(&mut d, &[]);
    assert_eq!(d.status, Status::Aborted(Fault::OutOfRange));
}

#[test]
fn branch_if_zero_backward() {
    // 0: Demanding A += 1; 1: Demanding A -= 1; 2: Demanding BranchIfZero, 2 back to 0
    // while A is zero. A goes 1, 0, then branch back: 1, 0, ... until irritation ends the run.
    let mut m = Machine::new(&[0b0100_0000, 0b0100_0010, 0b0110_1000], bored());
    run(&mut m, &[]);
    assert_eq!(m.status, Status::Aborted(Fault::Affect(Breach::Irritation)));
}

#[test]
fn branch_if_greater_and_equal() {
    // A += 1; BranchIfGreater (A > B) jumps by 2 from index 1 to index 3.
    let mut m = Machine::new(&[0x80, 0b1010_0000, 0b1000_0100, 0b1000_0100], bored());
    run(&mut m, &[]);
    assert_eq!(m.polite.b, 1);
    // A == B == 0: BranchIfEqual offset 2 from 0 lands on 2.
    let mut e = Machine::new(&[0b1011_0000, 0x80, 0b1000_0100], bored());
    run(&mut e, &[]);
    assert_eq!(e.polite, RegisterPair { a: 0, b: 1 });
}

#[test]
fn access_reads_number_and_char() {
    // Read decimal into A, read character into B, write both.
    let mut m = Machine::new(&[0b1001_0000, 0b1001_0101, 0b1001_0010, 0b1001_0111], bored());
    let out = run(&mut m, &["-42\n", "A\r\n"]);
    assert_eq!(m.polite, RegisterPair { a: -42, b: 65 });
    assert_eq!(out, vec![Output::Number(-42), Output::Char(65)]);
}

#[test]
fn access_read_mismatch_leaves_register() {
    let mut m = Machine::new(&[0x80, 0b1001_0000, 0b1001_0000, 0b1001_0001], bored());
    run(&mut m, &["abc\n", "99999999999\n", "\u{e9}\n"]);
    assert_eq!(m.polite.a, 1);
}

#[test]
fn access_write_char_only_below_256() {
    let mut p = bored();
    p.polite_change = 0;
    let mut m = Machine::new(&[0b1001_0000, 0b1001_0011], p);
    let out = run(&mut m, &["300\n"]);
    assert!(out.is_empty());
}

#[test]
fn parse_line_number_cases() {
    assert_eq!(parse_line_number("123\n"), Some(123));
    assert_eq!(parse_line_number("+7"), Some(7));
    assert_eq!(parse_line_number("-2147483648\n"), Some(i32::MIN));
    assert_eq!(parse_line_number("2147483648\n"), None);
    assert_eq!(parse_line_number("-\n"), None);
    assert_eq!(parse_line_number("\n"), None);
    assert_eq!(parse_line_number("12a"), None);
    assert_eq!(parse_line_number(" 1"), None);
}

#[test]
fn line_first_ascii_cases() {
    assert_eq!(line_first_ascii("a\n"), Some(97));
    assert_eq!(line_first_ascii(""), None);
    assert_eq!(line_first_ascii("\u{e9}"), None);
}

#[test]
fn empty_program_completes() {
    let m = Machine::new(&[], bored());
    assert_eq!(m.status, Status::Completed);
    assert!(!m.is_running());
    assert_eq!(m.report(), None);
}

#[test]
fn tone_family() {
    assert!(PrefixType::Polite.is_polite_family());
    assert!(PrefixType::PoliteStrong.is_polite_family());
    assert!(!PrefixType::Demanding.is_polite_family());
    assert!(!PrefixType::DemandingStrong.is_polite_family());
}
