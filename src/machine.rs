//! The virtual machine: registers, stacks, loop slots and the program
//! counter, advanced one instruction at a time by `Machine::step`.
//!
//! Every quantity is an `i32`; arithmetic on registers saturates at the ends
//! of its range, as social credit does.
//!
//! A branch, jump or loop repetition sets the program counter to its target
//! and nothing more; a target outside the program ends the run with a fault.
//! Every other executed or skipped instruction moves it on by one.

use vstd::prelude::*;
use crate::affect::{reached, saturate, AffectState, Breach};
use crate::decode::{is_polite, Instruction, OperationType, PrefixType};
use crate::affect::{gate_affect, gate_report, has_reached, saturate_i64, GateReport, Verdict};
use crate::decode::decode_program;
use crate::decode::decoded;
use crate::mood::MoodProfile;
use crate::text::{first_ascii, line_first_ascii, parse_line_number, parsed_i32, without_terminator};

verus! {

/// Two registers, `a` and `b`. The polite tones share one pair, the
/// demanding tones the other.
#[derive(Clone, Copy, Debug, PartialEq, Eq, Structural)]
pub struct RegisterPair {
    pub a: i32,
    pub b: i32,
}

/// The bookkeeping of one loop: where it was armed, how many passes it
/// makes, and how many repetitions it has made.
#[derive(Clone, Copy, Debug, PartialEq, Eq, Structural)]
pub struct LoopSlot {
    pub return_index: usize,
    pub bound: i32,
    pub counter: i32,
}

/// A fault that ends a run.
#[derive(Clone, Copy, Debug, PartialEq, Eq, Structural)]
pub enum Fault {
    /// The affect check ended the run.
    Affect(Breach),
    /// A branch, jump or loop would have moved the program counter outside the
    /// program.
    OutOfRange,
}

#[derive(Clone, Copy, Debug, PartialEq, Eq, Structural)]
pub enum Status {
    Running,
    Completed,
    Aborted(Fault),
}

/// What an Access instruction writes.
#[derive(Clone, Copy, Debug, PartialEq, Eq, Structural)]
pub enum Output {
    /// One byte, shown as a character.
    Char(u8),
    /// A decimal integer.
    Number(i32),
}

/// Where the program counter goes after an operation.
pub enum Flow {
    /// On to the next instruction.
    Next,
    /// To this index, if it lies in the program.
    Goto(int),
}

pub struct Machine {
    pub program: Vec<Instruction>,
    pub pc: usize,
    pub polite: RegisterPair,
    pub demanding: RegisterPair,
    pub stack0: Vec<i32>,
    pub stack1: Vec<i32>,
    pub loop0: LoopSlot,
    pub loop1: LoopSlot,
    pub affect: AffectState,
    pub profile: MoodProfile,
    pub status: Status,
}

/// The machine as a mathematical value.
pub struct MachineModel {
    pub program: Seq<Instruction>,
    pub pc: usize,
    pub polite: RegisterPair,
    pub demanding: RegisterPair,
    pub stack0: Seq<i32>,
    pub stack1: Seq<i32>,
    pub loop0: LoopSlot,
    pub loop1: LoopSlot,
    pub affect: AffectState,
    pub profile: MoodProfile,
    pub status: Status,
}

impl View for Machine {
    type V = MachineModel;

    open spec fn view(&self) -> MachineModel {
        MachineModel {
            program: self.program@,
            pc: self.pc,
            polite: self.polite,
            demanding: self.demanding,
            stack0: self.stack0@,
            stack1: self.stack1@,
            loop0: self.loop0,
            loop1: self.loop1,
            affect: self.affect,
            profile: self.profile,
            status: self.status,
        }
    }
}

/// The register pair of a tone.
pub open spec fn pair_of(m: MachineModel, tone: PrefixType) -> RegisterPair {
    if is_polite(tone) { m.polite } else { m.demanding }
}

pub open spec fn with_pair(m: MachineModel, tone: PrefixType, p: RegisterPair) -> MachineModel {
    if is_polite(tone) {
        MachineModel { polite: p, ..m }
    } else {
        MachineModel { demanding: p, ..m }
    }
}

/// The register that a flag selects: `a` when it is clear, `b` when set.
pub open spec fn selected(p: RegisterPair, flag: bool) -> i32 {
    if flag { p.b } else { p.a }
}

/// The register that a flag does not select.
pub open spec fn other(p: RegisterPair, flag: bool) -> i32 {
    if flag { p.a } else { p.b }
}

pub open spec fn with_selected(p: RegisterPair, flag: bool, v: i32) -> RegisterPair {
    if flag {
        RegisterPair { b: v, ..p }
    } else {
        RegisterPair { a: v, ..p }
    }
}

/// The stack of a slot.
pub open spec fn stack_of(m: MachineModel, slot: bool) -> Seq<i32> {
    if slot { m.stack1 } else { m.stack0 }
}

pub open spec fn with_stack(m: MachineModel, slot: bool, s: Seq<i32>) -> MachineModel {
    if slot {
        MachineModel { stack1: s, ..m }
    } else {
        MachineModel { stack0: s, ..m }
    }
}

/// The value that a pop yields: the top, or 0 on an empty stack.
pub open spec fn top_or_zero(s: Seq<i32>) -> i32 {
    if s.len() == 0 { 0 } else { s.last() }
}

/// The stack after a pop; an empty one stays empty.
pub open spec fn popped(s: Seq<i32>) -> Seq<i32> {
    if s.len() == 0 { s } else { s.drop_last() }
}

pub open spec fn loop_of(m: MachineModel, slot: bool) -> LoopSlot {
    if slot { m.loop1 } else { m.loop0 }
}

pub open spec fn with_loop(m: MachineModel, slot: bool, l: LoopSlot) -> MachineModel {
    if slot {
        MachineModel { loop1: l, ..m }
    } else {
        MachineModel { loop0: l, ..m }
    }
}

/// Whether the instruction's amounts and offsets are doubled: a
/// DemandingStrong tone with social credit at the medium close tolerance.
pub open spec fn doubles(m: MachineModel, tone: PrefixType) -> bool {
    tone == PrefixType::DemandingStrong && reached(m.affect.social_credit, m.profile.medium_tolerance_close)
}

/// Halving with the quotient rounded towards zero.
pub open spec fn halve(v: int) -> int {
    if v >= 0 { v / 2 } else { -((-v) / 2) }
}

pub open spec fn increment_model(m: MachineModel, ins: Instruction) -> MachineModel {
    let p = pair_of(m, ins.tone);
    let base: int = if ins.s2 { other(p, ins.s0) as int } else { 1 };
    let amount = if doubles(m, ins.tone) { 2 * base } else { base };
    let v = selected(p, ins.s0) as int;
    let nv = saturate(if ins.s1 { v - amount } else { v + amount });
    with_pair(m, ins.tone, with_selected(p, ins.s0, nv as i32))
}

/// The To operation: double, push, halve or pop, by flags `s1` and `s2`.
pub open spec fn to_model(m: MachineModel, ins: Instruction) -> MachineModel {
    let p = pair_of(m, ins.tone);
    let v = selected(p, ins.s0);
    let st = stack_of(m, ins.s0);
    if !ins.s1 && !ins.s2 {
        with_pair(m, ins.tone, with_selected(p, ins.s0, saturate(2 * v) as i32))
    } else if !ins.s1 && ins.s2 {
        with_stack(m, ins.s0, st.push(v))
    } else if ins.s1 && !ins.s2 {
        with_pair(m, ins.tone, with_selected(p, ins.s0, halve(v as int) as i32))
    } else {
        with_stack(with_pair(m, ins.tone, with_selected(p, ins.s0, top_or_zero(st))), ins.s0, popped(st))
    }
}

/// A freshly armed loop slot.
pub open spec fn armed(return_index: usize, bound: i32) -> LoopSlot {
    LoopSlot { return_index, bound, counter: 0 }
}

/// Whether an iterate goes back for another pass.
pub open spec fn loop_continues(l: LoopSlot) -> bool {
    l.counter < l.bound - 1
}

/// The slot after an iterate.
pub open spec fn iterated(l: LoopSlot) -> LoopSlot {
    if loop_continues(l) {
        LoopSlot { counter: (l.counter + 1) as i32, ..l }
    } else {
        l
    }
}

/// The Loop operation: `s2` picks the slot, `s1` clear arms it with the
/// register that `s0` selects, `s1` set iterates. A repetition resumes at the
/// first instruction after the arming one.
pub open spec fn loop_model(m: MachineModel, ins: Instruction) -> (MachineModel, Flow) {
    let l = loop_of(m, ins.s2);
    if !ins.s1 {
        (with_loop(m, ins.s2, armed(m.pc, selected(pair_of(m, ins.tone), ins.s0))), Flow::Next)
    } else if loop_continues(l) {
        (with_loop(m, ins.s2, iterated(l)), Flow::Goto(l.return_index + 1))
    } else {
        (m, Flow::Next)
    }
}

/// The offset of BranchIfGreater and BranchIfZero.
pub open spec fn short_offset(ins: Instruction) -> int {
    2 + (if ins.s1 { 2int } else { 0 }) + (if ins.s2 { 1int } else { 0 })
}

/// The offset of BranchIfEqual and Jump.
pub open spec fn long_offset(ins: Instruction) -> int {
    2 + (if ins.s0 { 4int } else { 0 }) + (if ins.s1 { 2int } else { 0 }) + (if ins.s2 { 1int } else { 0 })
}

/// The target of a branch: forward for the polite tones, backward for the
/// demanding ones, by the offset doubled where `doubles` holds.
pub open spec fn branch_target(m: MachineModel, tone: PrefixType, offset: int) -> int {
    let o = if doubles(m, tone) { 2 * offset } else { offset };
    if is_polite(tone) { m.pc + o } else { m.pc - o }
}

pub open spec fn branch_flow(m: MachineModel, ins: Instruction) -> Flow {
    let p = pair_of(m, ins.tone);
    let taken = match ins.operation {
        OperationType::BranchIfGreater => selected(p, ins.s0) > other(p, ins.s0),
        OperationType::BranchIfZero => selected(p, ins.s0) == 0,
        OperationType::BranchIfEqual => p.a == p.b,
        _ => true,
    };
    let offset = match ins.operation {
        OperationType::BranchIfGreater => short_offset(ins),
        OperationType::BranchIfZero => short_offset(ins),
        _ => long_offset(ins),
    };
    if taken {
        Flow::Goto(branch_target(m, ins.tone, offset))
    } else {
        Flow::Next
    }
}

/// The lines of an input as character sequences.
pub open spec fn line_view(input: Option<&str>) -> Option<Seq<char>> {
    match input {
        Some(s) => Some(s@),
        None => None,
    }
}

/// The register value after a read: the code of the line's first character
/// in character mode, or the number it writes in decimal mode; the old value
/// when there is no line or it does not fit the mode.
pub open spec fn read_value(input: Option<Seq<char>>, char_mode: bool, v: i32) -> i32 {
    match input {
        None => v,
        Some(line) => {
            let r = if char_mode {
                first_ascii(line)
            } else {
                parsed_i32(without_terminator(line))
            };
            match r {
                Some(n) => n,
                None => v,
            }
        },
    }
}

/// What a write puts out: a byte below 256 in character mode (nothing
/// otherwise), the decimal value in decimal mode.
pub open spec fn written(v: i32, char_mode: bool) -> Option<Output> {
    if char_mode {
        if v < 256 {
            Some(Output::Char(v as u8))
        } else {
            None
        }
    } else {
        Some(Output::Number(v))
    }
}

/// The Access operation: `s1` clear reads into the selected register, `s1`
/// set writes it; `s2` picks character mode.
pub open spec fn access_model(m: MachineModel, ins: Instruction, input: Option<Seq<char>>) -> (
    MachineModel,
    Option<Output>,
) {
    let p = pair_of(m, ins.tone);
    let v = selected(p, ins.s0);
    if ins.s1 {
        (m, written(v, ins.s2))
    } else {
        (with_pair(m, ins.tone, with_selected(p, ins.s0, read_value(input, ins.s2, v))), None)
    }
}

/// Moves the program counter: on by one (the run completes past the last
/// instruction), or to a target, which must lie in the program.
pub open spec fn settle(m: MachineModel, flow: Flow) -> MachineModel {
    match flow {
        Flow::Next => MachineModel {
            pc: (m.pc + 1) as usize,
            status: if m.pc + 1 >= m.program.len() {
                Status::Completed
            } else {
                m.status
            },
            ..m
        },
        Flow::Goto(t) => if 0 <= t < m.program.len() {
            MachineModel { pc: t as usize, ..m }
        } else {
            MachineModel { status: Status::Aborted(Fault::OutOfRange), ..m }
        },
    }
}

/// An instruction's operation followed by the move of the program counter.
pub open spec fn operate(m: MachineModel, ins: Instruction, input: Option<Seq<char>>) -> (
    MachineModel,
    Option<Output>,
) {
    match ins.operation {
        OperationType::Increment => (settle(increment_model(m, ins), Flow::Next), None),
        OperationType::To => (settle(to_model(m, ins), Flow::Next), None),
        OperationType::Access => (settle(access_model(m, ins, input).0, Flow::Next), access_model(m, ins, input).1),
        OperationType::Loop => (settle(loop_model(m, ins).0, loop_model(m, ins).1), None),
        _ => (settle(m, branch_flow(m, ins)), None),
    }
}

/// Whether the machine has an instruction to run.
pub open spec fn running(m: MachineModel) -> bool {
    m.status == Status::Running && m.pc < m.program.len()
}

/// The instruction at the program counter.
pub open spec fn current(m: MachineModel) -> Instruction {
    m.program[m.pc as int]
}

/// One cycle of the machine: the affect check, then the operation unless the affect check
/// skipped it or ended the run. A machine that is not running stays as it is.
pub open spec fn step_model(m: MachineModel, input: Option<Seq<char>>) -> (MachineModel, Option<Output>) {
    if !running(m) {
        (m, None)
    } else {
        let ins = current(m);
        match gate_report(m.affect, ins.tone, m.profile).verdict {
            Verdict::Fatal(b) => (MachineModel { status: Status::Aborted(Fault::Affect(b)), ..m }, None),
            Verdict::Skip => (settle(m, Flow::Next), None),
            Verdict::Proceed => operate(
                MachineModel { affect: gate_affect(m.affect, ins.tone, m.profile), ..m },
                ins,
                input,
            ),
        }
    }
}

impl RegisterPair {
    pub fn get(self, flag: bool) -> (r: i32)
        ensures
            r == selected(self, flag),
    {
        if flag { self.b } else { self.a }
    }

    pub fn get_other(self, flag: bool) -> (r: i32)
        ensures
            r == other(self, flag),
    {
        if flag { self.a } else { self.b }
    }

    pub fn with(self, flag: bool, v: i32) -> (r: RegisterPair)
        ensures
            r == with_selected(self, flag, v),
    {
        if flag { RegisterPair { b: v, ..self } } else { RegisterPair { a: v, ..self } }
    }
}

impl Machine {
    /// A machine at the start of a run of the program that `bytes` encode.
    pub fn new(bytes: &[u8], profile: MoodProfile) -> (r: Machine)
        ensures
            r@.program.len() == bytes@.len(),
            forall|i: int| 0 <= i < bytes@.len() ==> r@.program[i] == decoded(#[trigger] bytes@[i]),
            r@.pc == 0,
            r@.polite == (RegisterPair { a: 0, b: 0 }),
            r@.demanding == (RegisterPair { a: 0, b: 0 }),
            r@.stack0.len() == 0,
            r@.stack1.len() == 0,
            r@.loop0 == armed(0, 0),
            r@.loop1 == armed(0, 0),
            r@.affect == (AffectState { social_credit: profile.starting_credit, irritation: 0, last_was_positive: true }),
            r@.profile == profile,
            r@.status == (if bytes@.len() == 0 { Status::Completed } else { Status::Running }),
    {
        let program = decode_program(bytes);
        let status = if bytes.len() == 0 { Status::Completed } else { Status::Running };
        Machine {
            program,
            pc: 0,
            polite: RegisterPair { a: 0, b: 0 },
            demanding: RegisterPair { a: 0, b: 0 },
            stack0: Vec::new(),
            stack1: Vec::new(),
            loop0: LoopSlot { return_index: 0, bound: 0, counter: 0 },
            loop1: LoopSlot { return_index: 0, bound: 0, counter: 0 },
            affect: AffectState::new(&profile),
            profile,
            status,
        }
    }

    /// Whether an instruction remains to be run.
    pub fn is_running(&self) -> (r: bool)
        ensures
            r == running(self@),
    {
        self.status == Status::Running && self.pc < self.program.len()
    }

    fn pair(&self, tone: PrefixType) -> (r: RegisterPair)
        ensures
            r == pair_of(self@, tone),
    {
        if tone.is_polite_family() { self.polite } else { self.demanding }
    }

    fn set_pair(&mut self, tone: PrefixType, p: RegisterPair)
        ensures
            final(self)@ == with_pair(old(self)@, tone, p),
    {
        if tone.is_polite_family() {
            self.polite = p;
        } else {
            self.demanding = p;
        }
    }

    fn doubling(&self, tone: PrefixType) -> (r: bool)
        ensures
            r == doubles(self@, tone),
    {
        tone == PrefixType::DemandingStrong && has_reached(self.affect.social_credit, self.profile.medium_tolerance_close)
    }

    fn increment(&mut self, ins: Instruction)
        ensures
            final(self)@ == increment_model(old(self)@, ins),
    {
        let p = self.pair(ins.tone);
        let base: i64 = if ins.s2 { p.get_other(ins.s0) as i64 } else { 1 };
        let amount: i64 = if self.doubling(ins.tone) { 2 * base } else { base };
        let v = p.get(ins.s0) as i64;
        let nv = saturate_i64(if ins.s1 { v - amount } else { v + amount });
        self.set_pair(ins.tone, p.with(ins.s0, nv));
    }

    /// Pushes a value onto a stack slot.
    pub fn push_value(&mut self, slot: bool, v: i32)
        ensures
            final(self)@ == with_stack(old(self)@, slot, stack_of(old(self)@, slot).push(v)),
    {
        if slot {
            self.stack1.push(v);
        } else {
            self.stack0.push(v);
        }
    }

    /// Pops a stack slot; an empty stack yields 0.
    pub fn pop_value(&mut self, slot: bool) -> (r: i32)
        ensures
            r == top_or_zero(stack_of(old(self)@, slot)),
            final(self)@ == with_stack(old(self)@, slot, popped(stack_of(old(self)@, slot))),
    {
        let top = if slot { self.stack1.pop() } else { self.stack0.pop() };
        match top {
            Some(v) => v,
            None => 0,
        }
    }

    fn transfer(&mut self, ins: Instruction)
        ensures
            final(self)@ == to_model(old(self)@, ins),
    {
        let p = self.pair(ins.tone);
        let v = p.get(ins.s0);
        if !ins.s1 && !ins.s2 {
            self.set_pair(ins.tone, p.with(ins.s0, saturate_i64(2 * v as i64)));
        } else if !ins.s1 && ins.s2 {
            self.push_value(ins.s0, v);
        } else if ins.s1 && !ins.s2 {
            let h: i32 = if v >= 0 { v / 2 } else { -((-(v as i64)) / 2) as i32 };
            self.set_pair(ins.tone, p.with(ins.s0, h));
        } else {
            let ghost before = self@;
            let top = self.pop_value(ins.s0);
            self.set_pair(ins.tone, p.with(ins.s0, top));
            assert(self@ == with_stack(with_pair(before, ins.tone, with_selected(p, ins.s0, top)), ins.s0, popped(stack_of(before, ins.s0))));
        }
    }

    fn access(&mut self, ins: Instruction, input: Option<&str>) -> (r: Option<Output>)
        ensures
            (final(self)@, r) == access_model(old(self)@, ins, line_view(input)),
    {
        let p = self.pair(ins.tone);
        let v = p.get(ins.s0);
        if ins.s1 {
            if ins.s2 {
                if v < 256 {
                    Some(Output::Char(v as u8))
                } else {
                    None
                }
            } else {
                Some(Output::Number(v))
            }
        } else {
            let nv = match input {
                None => v,
                Some(line) => {
                    let got = if ins.s2 { line_first_ascii(line) } else { parse_line_number(line) };
                    match got {
                        Some(n) => n,
                        None => v,
                    }
                },
            };
            self.set_pair(ins.tone, p.with(ins.s0, nv));
            None
        }
    }

    fn advance(&mut self)
        requires
            old(self).pc < old(self).program@.len(),
        ensures
            final(self)@ == settle(old(self)@, Flow::Next),
    {
        let n = self.program.len();
        self.pc = self.pc + 1;
        if self.pc >= n {
            self.status = Status::Completed;
        }
    }

    fn go_forward(&mut self, base: usize, offset: usize)
        ensures
            final(self)@ == settle(old(self)@, Flow::Goto(base + offset)),
    {
        if base < self.program.len() && offset < self.program.len() - base {
            self.pc = base + offset;
        } else {
            self.status = Status::Aborted(Fault::OutOfRange);
        }
    }

    fn go_backward(&mut self, base: usize, offset: usize)
        ensures
            final(self)@ == settle(old(self)@, Flow::Goto(base - offset)),
    {
        if offset <= base && base - offset < self.program.len() {
            self.pc = base - offset;
        } else {
            self.status = Status::Aborted(Fault::OutOfRange);
        }
    }

    fn repeat(&mut self, ins: Instruction)
        requires
            old(self).pc < old(self).program@.len(),
        ensures
            final(self)@ == settle(loop_model(old(self)@, ins).0, loop_model(old(self)@, ins).1),
    {
        let l = if ins.s2 { self.loop1 } else { self.loop0 };
        if !ins.s1 {
            let armed_slot = LoopSlot { return_index: self.pc, bound: self.pair(ins.tone).get(ins.s0), counter: 0 };
            if ins.s2 {
                self.loop1 = armed_slot;
            } else {
                self.loop0 = armed_slot;
            }
            self.advance();
        } else if (l.counter as i64) < (l.bound as i64) - 1 {
            let next = LoopSlot { counter: l.counter + 1, ..l };
            if ins.s2 {
                self.loop1 = next;
            } else {
                self.loop0 = next;
            }
            self.go_forward(l.return_index, 1);
        } else {
            self.advance();
        }
    }

    fn branch(&mut self, ins: Instruction)
        requires
            old(self).pc < old(self).program@.len(),
            ins.operation != OperationType::Increment,
            ins.operation != OperationType::To,
            ins.operation != OperationType::Access,
            ins.operation != OperationType::Loop,
        ensures
            final(self)@ == settle(old(self)@, branch_flow(old(self)@, ins)),
    {
        let p = self.pair(ins.tone);
        let taken = match ins.operation {
            OperationType::BranchIfGreater => p.get(ins.s0) > p.get_other(ins.s0),
            OperationType::BranchIfZero => p.get(ins.s0) == 0,
            OperationType::BranchIfEqual => p.a == p.b,
            _ => true,
        };
        if !taken {
            self.advance();
            return;
        }
        let long = ins.operation == OperationType::BranchIfEqual || ins.operation == OperationType::Jump;
        let mut offset: usize = 2;
        if long && ins.s0 {
            offset = offset + 4;
        }
        if ins.s1 {
            offset = offset + 2;
        }
        if ins.s2 {
            offset = offset + 1;
        }
        if self.doubling(ins.tone) {
            offset = offset * 2;
        }
        if ins.tone.is_polite_family() {
            self.go_forward(self.pc, offset);
        } else {
            self.go_backward(self.pc, offset);
        }
    }

    /// What the affect check decides for the current instruction, if one remains;
    /// nothing changes.
    pub fn report(&self) -> (r: Option<GateReport>)
        ensures
            r == (if running(self@) {
                Some(gate_report(self@.affect, current(self@).tone, self@.profile))
            } else {
                None
            }),
    {
        if !self.is_running() {
            return None;
        }
        let ins = self.program[self.pc];
        Some(self.affect.report(ins.tone, &self.profile))
    }

    /// Whether the next step reads a line: the current instruction is an
    /// Access read that the affect check lets through.
    pub fn wants_input(&self) -> (r: bool)
        ensures
            r == (running(self@) && current(self@).operation == OperationType::Access && !current(self@).s1
                && gate_report(self@.affect, current(self@).tone, self@.profile).verdict == Verdict::Proceed),
    {
        match self.report() {
            None => false,
            Some(rep) => {
                let ins = self.program[self.pc];
                ins.operation == OperationType::Access && !ins.s1 && rep.verdict == Verdict::Proceed
            },
        }
    }

    /// Runs one cycle: the affect check, then the operation. `input` is the line
    /// that an Access read takes, if one could be read. Returns what an
    /// Access write puts out.
    pub fn step(&mut self, input: Option<&str>) -> (r: Option<Output>)
        ensures
            (final(self)@, r) == step_model(old(self)@, line_view(input)),
    {
        if !self.is_running() {
            return None;
        }
        let ins = self.program[self.pc];
        let rep = self.affect.gate(ins.tone, &self.profile);
        match rep.verdict {
            Verdict::Fatal(b) => {
                self.status = Status::Aborted(Fault::Affect(b));
                None
            },
            Verdict::Skip => {
                self.advance();
                None
            },
            Verdict::Proceed => {
                match ins.operation {
                    OperationType::Increment => {
                        self.increment(ins);
                        self.advance();
                        None
                    },
                    OperationType::To => {
                        self.transfer(ins);
                        self.advance();
                        None
                    },
                    OperationType::Access => {
                        let out = self.access(ins, input);
                        self.advance();
                        out
                    },
                    OperationType::Loop => {
                        self.repeat(ins);
                        None
                    },
                    _ => {
                        self.branch(ins);
                        None
                    },
                }
            },
        }
    }
}

} // verus!
