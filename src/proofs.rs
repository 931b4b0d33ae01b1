//! Facts about the machine that relate several operations or hold across a
//! whole run.

use vstd::prelude::*;
use crate::affect::{gate_affect, gate_report, reached, Breach, Verdict};
use crate::decode::{decoded, Instruction, OperationType, PrefixType};
use crate::machine::{
    armed, current, iterated, loop_continues, loop_model, loop_of, operate, pair_of, settle, with_loop, Flow, running, selected, stack_of, step_model,
    to_model, Fault, LoopSlot, MachineModel, Output, Status,
};
use crate::mood::{mood_profile, Mood};

verus! {

/// The To instruction that pushes the register selected by `slot` onto the
/// stack of `slot`.
pub open spec fn push_instruction(tone: PrefixType, slot: bool) -> Instruction {
    Instruction { tone, operation: OperationType::To, s0: slot, s1: false, s2: true }
}

/// The To instruction that pops the stack of `slot` into the register
/// selected by `slot`.
pub open spec fn pop_instruction(tone: PrefixType, slot: bool) -> Instruction {
    Instruction { tone, operation: OperationType::To, s0: slot, s1: true, s2: true }
}

/// A push followed at once by a pop on the same slot hands the pushed value
/// to the popping register and leaves the stack as it was.
pub proof fn lemma_push_then_pop(m: MachineModel, push_tone: PrefixType, pop_tone: PrefixType, slot: bool)
    ensures
        selected(
            pair_of(to_model(to_model(m, push_instruction(push_tone, slot)), pop_instruction(pop_tone, slot)), pop_tone),
            slot,
        ) == selected(pair_of(m, push_tone), slot),
        stack_of(to_model(to_model(m, push_instruction(push_tone, slot)), pop_instruction(pop_tone, slot)), slot)
            == stack_of(m, slot),
{
    let v = selected(pair_of(m, push_tone), slot);
    assert(stack_of(m, slot).push(v).drop_last() =~= stack_of(m, slot));
}

/// A pop on an empty stack sets the register to 0 and leaves the stack empty.
pub proof fn lemma_pop_empty(m: MachineModel, tone: PrefixType, slot: bool)
    requires
        stack_of(m, slot).len() == 0,
    ensures
        selected(pair_of(to_model(m, pop_instruction(tone, slot)), tone), slot) == 0,
        stack_of(to_model(m, pop_instruction(tone, slot)), slot).len() == 0,
{
}

/// A loop slot after `k` iterates.
pub open spec fn iterate_times(l: LoopSlot, k: nat) -> LoopSlot
    decreases k,
{
    if k == 0 {
        l
    } else {
        iterated(iterate_times(l, (k - 1) as nat))
    }
}

proof fn lemma_iterate_counts(return_index: usize, n: i32, k: nat)
    requires
        n >= 1,
        k <= n - 1,
    ensures
        iterate_times(armed(return_index, n), k) == (LoopSlot { return_index, bound: n, counter: k as i32 }),
    decreases k,
{
    if k > 0 {
        lemma_iterate_counts(return_index, n, (k - 1) as nat);
    }
}

/// A loop armed with a bound `n` of at least one goes back on each of its
/// first `n - 1` iterates and falls through on the `n`-th: the body runs
/// exactly `n` times.
pub proof fn lemma_loop_runs_bound_times(return_index: usize, n: i32)
    requires
        n >= 1,
    ensures
        forall|k: nat| k < n - 1 ==> loop_continues(#[trigger] iterate_times(armed(return_index, n), k)),
        !loop_continues(iterate_times(armed(return_index, n), (n - 1) as nat)),
{
    assert forall|k: nat| k < n - 1 implies loop_continues(#[trigger] iterate_times(armed(return_index, n), k)) by {
        lemma_iterate_counts(return_index, n, k);
    }
    lemma_iterate_counts(return_index, n, (n - 1) as nat);
}

/// A Polite instruction that meets social credit at the small tolerance
/// changes neither social credit, irritation nor any register, and puts out
/// nothing; unless irritation ends the run, the machine moves on to the next
/// instruction.
pub proof fn lemma_polite_skip(m: MachineModel, input: Option<Seq<char>>)
    requires
        running(m),
        current(m).tone == PrefixType::Polite,
        reached(m.affect.social_credit, m.profile.small_tolerance),
    ensures
        step_model(m, input).0.affect == m.affect,
        step_model(m, input).0.polite == m.polite,
        step_model(m, input).0.demanding == m.demanding,
        step_model(m, input).1 == None::<Output>,
        m.affect.irritation < 100 ==> step_model(m, input).0.pc == (m.pc + 1) as usize,
{
}

/// The machine after one step for each of the inputs in turn.
pub open spec fn run_model(m: MachineModel, inputs: Seq<Option<Seq<char>>>) -> MachineModel
    decreases inputs.len(),
{
    if inputs.len() == 0 {
        m
    } else {
        run_model(step_model(m, inputs[0]).0, inputs.drop_first())
    }
}

/// A machine that is no longer running stays exactly as it is, however many
/// steps follow.
pub proof fn lemma_halted_stays(m: MachineModel, inputs: Seq<Option<Seq<char>>>)
    requires
        !running(m),
    ensures
        run_model(m, inputs) == m,
    decreases inputs.len(),
{
    if inputs.len() > 0 {
        lemma_halted_stays(m, inputs.drop_first());
    }
}

/// A PoliteStrong instruction that meets social credit at the large
/// tolerance ends the run, with nothing else changed, and no instruction runs
/// after it.
pub proof fn lemma_polite_strong_breach(m: MachineModel, input: Option<Seq<char>>, later: Seq<Option<Seq<char>>>)
    requires
        running(m),
        current(m).tone == PrefixType::PoliteStrong,
        reached(m.affect.social_credit, m.profile.large_tolerance),
    ensures
        step_model(m, input).0 == (MachineModel {
            status: Status::Aborted(
                Fault::Affect(if m.affect.irritation >= 100 { Breach::Irritation } else { Breach::PoliteStrong }),
            ),
            ..m
        }),
        run_model(step_model(m, input).0, later) == step_model(m, input).0,
{
    lemma_halted_stays(step_model(m, input).0, later);
}

/// Under the Maniacal mood one step never raises social credit.
pub proof fn lemma_maniacal_step(m: MachineModel, input: Option<Seq<char>>)
    requires
        m.profile == mood_profile(Mood::Maniacal),
    ensures
        step_model(m, input).0.affect.social_credit <= m.affect.social_credit,
        step_model(m, input).0.profile == m.profile,
{
}

/// Under the Maniacal mood social credit never rises, over any run.
pub proof fn lemma_maniacal_credit_never_rises(m: MachineModel, inputs: Seq<Option<Seq<char>>>)
    requires
        m.profile == mood_profile(Mood::Maniacal),
    ensures
        run_model(m, inputs).affect.social_credit <= m.affect.social_credit,
    decreases inputs.len(),
{
    if inputs.len() > 0 {
        lemma_maniacal_step(m, inputs[0]);
        lemma_maniacal_credit_never_rises(step_model(m, inputs[0]).0, inputs.drop_first());
    }
}

/// A step never changes the program.
pub proof fn lemma_step_keeps_program(m: MachineModel, input: Option<Seq<char>>)
    ensures
        step_model(m, input).0.program == m.program,
{
}

/// A run may be cut anywhere: running the whole is running the first part,
/// then the rest from where it left off.
pub proof fn lemma_run_split(m: MachineModel, inputs: Seq<Option<Seq<char>>>, i: int)
    requires
        0 <= i <= inputs.len(),
    ensures
        run_model(m, inputs) == run_model(run_model(m, inputs.take(i)), inputs.skip(i)),
    decreases i,
{
    if i == 0 {
        assert(inputs.take(0).len() == 0);
        assert(inputs.skip(0) =~= inputs);
    } else {
        let m1 = step_model(m, inputs[0]).0;
        let rest = inputs.drop_first();
        lemma_run_split(m1, rest, i - 1);
        assert(inputs.take(i)[0] == inputs[0]);
        assert(inputs.take(i).drop_first() =~= rest.take(i - 1));
        assert(rest.skip(i - 1) =~= inputs.skip(i));
    }
}

/// In every state that satisfies `inv`, each instruction strictly between
/// `arm` and `iterate` moves on to the next one, keeps the machine running,
/// leaves loop slot `slot` alone, and keeps `inv`.
pub open spec fn body_runs_straight(
    program: Seq<Instruction>,
    arm: int,
    iterate: int,
    slot: bool,
    inv: spec_fn(MachineModel) -> bool,
) -> bool {
    forall|s: MachineModel, input: Option<Seq<char>>|
        running(s) && s.program == program && arm < s.pc < iterate && inv(s) ==> {
            let t = #[trigger] step_model(s, input).0;
            t.pc == s.pc + 1 && running(t) && loop_of(t, slot) == loop_of(s, slot) && inv(t)
        }
}

/// In every state that satisfies `inv`, the instruction at `iterate` gets
/// past the affect check, and its step keeps `inv`.
pub open spec fn iterate_proceeds(program: Seq<Instruction>, iterate: int, inv: spec_fn(MachineModel) -> bool) -> bool {
    forall|s: MachineModel, input: Option<Seq<char>>|
        running(s) && s.program == program && s.pc == iterate && inv(s) ==> gate_report(
            s.affect,
            program[iterate].tone,
            s.profile,
        ).verdict == Verdict::Proceed && inv(#[trigger] step_model(s, input).0)
}

/// The loop shape: an arm of `slot` at `arm`, an iterate of `slot` at
/// `iterate` after it, and a body between them that runs straight through,
/// in the states that satisfy `inv`.
pub open spec fn loop_shape(
    program: Seq<Instruction>,
    arm: int,
    iterate: int,
    slot: bool,
    inv: spec_fn(MachineModel) -> bool,
) -> bool {
    &&& 0 <= arm < iterate < program.len() <= usize::MAX
    &&& program[arm].operation == OperationType::Loop
    &&& !program[arm].s1
    &&& program[arm].s2 == slot
    &&& program[iterate].operation == OperationType::Loop
    &&& program[iterate].s1
    &&& program[iterate].s2 == slot
    &&& body_runs_straight(program, arm, iterate, slot, inv)
    &&& iterate_proceeds(program, iterate, inv)
}

proof fn lemma_body(
    m: MachineModel,
    inputs: Seq<Option<Seq<char>>>,
    arm: int,
    iterate: int,
    slot: bool,
    inv: spec_fn(MachineModel) -> bool,
)
    requires
        loop_shape(m.program, arm, iterate, slot, inv),
        inv(m),
        running(m),
        arm < m.pc <= iterate,
        inputs.len() == iterate - m.pc,
    ensures
        run_model(m, inputs).pc == iterate,
        running(run_model(m, inputs)),
        run_model(m, inputs).program == m.program,
        loop_of(run_model(m, inputs), slot) == loop_of(m, slot),
        inv(run_model(m, inputs)),
    decreases inputs.len(),
{
    if inputs.len() > 0 {
        let t = step_model(m, inputs[0]).0;
        lemma_step_keeps_program(m, inputs[0]);
        assert(t.pc == m.pc + 1 && running(t) && loop_of(t, slot) == loop_of(m, slot) && inv(t));
        lemma_body(t, inputs.drop_first(), arm, iterate, slot, inv);
    }
}

/// One pass of a loop: from the first body instruction through the iterate.
proof fn lemma_pass(
    m: MachineModel,
    inputs: Seq<Option<Seq<char>>>,
    arm: int,
    iterate: int,
    slot: bool,
    n: i32,
    p: i32,
    inv: spec_fn(MachineModel) -> bool,
)
    requires
        loop_shape(m.program, arm, iterate, slot, inv),
        inv(m),
        running(m),
        m.pc == arm + 1,
        0 <= p <= n - 1,
        loop_of(m, slot) == (LoopSlot { return_index: arm as usize, bound: n, counter: p }),
        inputs.len() == iterate - arm,
    ensures
        run_model(m, inputs).program == m.program,
        inv(run_model(m, inputs)),
        p < n - 1 ==> run_model(m, inputs).pc == arm + 1 && running(run_model(m, inputs))
            && loop_of(run_model(m, inputs), slot) == (LoopSlot {
            return_index: arm as usize,
            bound: n,
            counter: (p + 1) as i32,
        }),
        p == n - 1 ==> run_model(m, inputs).pc == iterate + 1 && run_model(m, inputs).status == (if iterate + 1
            == m.program.len() {
            Status::Completed
        } else {
            Status::Running
        }),
{
    let k = iterate - arm - 1;
    lemma_run_split(m, inputs, k);
    lemma_body(m, inputs.take(k), arm, iterate, slot, inv);
    let s = run_model(m, inputs.take(k));
    let last = inputs.skip(k);
    assert(last.len() == 1);
    assert(last.drop_first().len() == 0);
    assert(run_model(step_model(s, last[0]).0, last.drop_first()) == step_model(s, last[0]).0);
    assert(run_model(s, last) == step_model(s, last[0]).0);
    assert(inv(step_model(s, last[0]).0));
    assert(gate_report(s.affect, s.program[iterate].tone, s.profile).verdict == Verdict::Proceed);
    let ins = m.program[iterate];
    assert(current(s) == ins);
    let s1 = MachineModel { affect: gate_affect(s.affect, ins.tone, s.profile), ..s };
    assert(step_model(s, last[0]) == operate(s1, ins, last[0]));
    assert(operate(s1, ins, last[0]).0 == settle(loop_model(s1, ins).0, loop_model(s1, ins).1));
    assert(loop_of(s1, slot) == loop_of(m, slot));
    if p < n - 1 {
        assert(loop_continues(loop_of(s1, slot)));
        assert(loop_model(s1, ins).1 == Flow::Goto(arm + 1));
    } else {
        assert(!loop_continues(loop_of(s1, slot)));
        assert(loop_model(s1, ins) == (s1, Flow::Next));
    }
}

/// The first `p` passes of a loop, each from the first body instruction
/// through the iterate, each going back.
proof fn lemma_passes(
    m: MachineModel,
    inputs: Seq<Option<Seq<char>>>,
    arm: int,
    iterate: int,
    slot: bool,
    n: i32,
    p: int,
    inv: spec_fn(MachineModel) -> bool,
)
    requires
        loop_shape(m.program, arm, iterate, slot, inv),
        inv(m),
        running(m),
        m.pc == arm + 1,
        loop_of(m, slot) == armed(arm as usize, n),
        0 <= p <= n - 1,
        inputs.len() == p * (iterate - arm),
    ensures
        run_model(m, inputs).pc == arm + 1,
        running(run_model(m, inputs)),
        run_model(m, inputs).program == m.program,
        loop_of(run_model(m, inputs), slot) == (LoopSlot { return_index: arm as usize, bound: n, counter: p as i32 }),
        inv(run_model(m, inputs)),
    decreases p,
{
    let l = iterate - arm;
    if p > 0 {
        let c = (p - 1) * l;
        assert(c + l == p * l && 0 <= c) by (nonlinear_arith)
            requires
                c == (p - 1) * l,
                p > 0,
                l > 0,
        ;
        lemma_run_split(m, inputs, c);
        assert(inputs.take(c).len() == (p - 1) * l);
        lemma_passes(m, inputs.take(c), arm, iterate, slot, n, p - 1, inv);
        lemma_pass(run_model(m, inputs.take(c)), inputs.skip(c), arm, iterate, slot, n, (p - 1) as i32, inv);
    } else {
        assert(p * l == 0) by (nonlinear_arith)
            requires
                p == 0,
        ;
    }
}

/// A loop armed with a register value `n` of at least one runs its body
/// exactly `n` times. The run starts at the arm; the body between arm and
/// iterate runs straight through and leaves the loop slot alone, and the
/// iterate gets past the affect check. Then after the arm and `p` passes, for
/// each `p` below `n`, the machine stands at the first body instruction with
/// the slot's counter at `p`; after the arm and `n` passes it stands just past
/// the iterate, completed if that is the end of the program.
pub proof fn lemma_loop_runs_body_n_times(
    m: MachineModel,
    inputs: Seq<Option<Seq<char>>>,
    arm: int,
    iterate: int,
    slot: bool,
    n: i32,
    inv: spec_fn(MachineModel) -> bool,
)
    requires
        loop_shape(m.program, arm, iterate, slot, inv),
        inv(step_model(m, inputs[0]).0),
        running(m),
        m.pc == arm,
        gate_report(m.affect, m.program[arm].tone, m.profile).verdict == Verdict::Proceed,
        selected(pair_of(m, m.program[arm].tone), m.program[arm].s0) == n,
        n >= 1,
        inputs.len() == 1 + n * (iterate - arm),
    ensures
        forall|p: int|
            0 <= p < n ==> (#[trigger] run_model(m, inputs.take(1 + p * (iterate - arm)))).pc == arm + 1
                && loop_of(run_model(m, inputs.take(1 + p * (iterate - arm))), slot).counter == p,
        run_model(m, inputs).pc == iterate + 1,
        run_model(m, inputs).status == (if iterate + 1 == m.program.len() {
            Status::Completed
        } else {
            Status::Running
        }),
{
    let l = iterate - arm;
    let ins = m.program[arm];
    let s1 = MachineModel { affect: gate_affect(m.affect, ins.tone, m.profile), ..m };
    let m0 = step_model(m, inputs[0]).0;
    assert(current(m) == ins);
    assert(step_model(m, inputs[0]) == operate(s1, ins, inputs[0]));
    assert(pair_of(s1, ins.tone) == pair_of(m, ins.tone));
    assert(loop_model(s1, ins).0 == with_loop(s1, slot, armed(arm as usize, n)));
    assert(m0 == settle(with_loop(s1, slot, armed(arm as usize, n)), Flow::Next));
    assert(m0.pc == arm + 1 && running(m0) && m0.program == m.program);
    assert(loop_of(m0, slot) == armed(arm as usize, n));
    let rest = inputs.drop_first();
    assert(run_model(m, inputs) == run_model(m0, rest));
    assert forall|p: int|
        0 <= p < n implies (#[trigger] run_model(m, inputs.take(1 + p * l))).pc == arm + 1
            && loop_of(run_model(m, inputs.take(1 + p * l)), slot).counter == p by {
        assert(0 <= p * l <= n * l) by (nonlinear_arith)
            requires
                0 <= p < n,
                l > 0,
        ;
        let part = inputs.take(1 + p * l);
        assert(part[0] == inputs[0]);
        assert(part.drop_first() =~= rest.take(p * l));
        assert(run_model(m, part) == run_model(m0, part.drop_first()));
        lemma_passes(m0, rest.take(p * l), arm, iterate, slot, n, p, inv);
    }
    let c = (n - 1) * l;
    assert(c + l == n * l && 0 <= c) by (nonlinear_arith)
        requires
            c == (n - 1) * l,
            n >= 1,
            l > 0,
    ;
    lemma_run_split(m0, rest, c);
    lemma_passes(m0, rest.take(c), arm, iterate, slot, n, (n - 1) as int, inv);
    lemma_pass(run_model(m0, rest.take(c)), rest.skip(c), arm, iterate, slot, n, (n - 1) as i32, inv);
}

/// States in the Maniacal mood whose irritation is below its limit and whose
/// social credit is below the small tolerance in magnitude.
pub open spec fn calm_maniacal(s: MachineModel) -> bool {
    &&& s.profile == mood_profile(Mood::Maniacal)
    &&& s.affect.irritation < 100
    &&& s.affect.last_was_positive
    &&& !reached(s.affect.social_credit, s.profile.small_tolerance)
}

/// The loop law's conditions can all hold: a Polite arm of slot 0 followed by
/// a Polite iterate of slot 0, in a calm Maniacal state, goes round `n` times
/// and completes the program.
pub proof fn lemma_loop_law_applies(m: MachineModel, inputs: Seq<Option<Seq<char>>>, n: i32)
    requires
        m.program == seq![decoded(0x98u8), decoded(0x9Au8)],
        running(m),
        m.pc == 0,
        calm_maniacal(m),
        m.polite.a == n,
        n >= 1,
        inputs.len() == 1 + n,
    ensures
        run_model(m, inputs).pc == 2,
        run_model(m, inputs).status == Status::Completed,
{
    let inv = |s: MachineModel| calm_maniacal(s);
    let prog = m.program;
    assert(prog[0].tone == PrefixType::Polite && prog[0].operation == OperationType::Loop && !prog[0].s0
        && !prog[0].s1 && !prog[0].s2);
    assert(prog[1].tone == PrefixType::Polite && prog[1].operation == OperationType::Loop && prog[1].s1
        && !prog[1].s2);
    assert forall|s: MachineModel, input: Option<Seq<char>>|
        running(s) && s.program == prog && s.pc == 1 && inv(s) implies gate_report(
            s.affect,
            prog[1].tone,
            s.profile,
        ).verdict == Verdict::Proceed && inv(#[trigger] step_model(s, input).0) by {
        assert(current(s) == prog[1]);
    }
    assert(iterate_proceeds(prog, 1, inv));
    assert(body_runs_straight(prog, 0, 1, false, inv));
    assert(loop_shape(prog, 0, 1, false, inv));
    assert(current(m) == prog[0]);
    assert(inv(step_model(m, inputs[0]).0));
    assert(1 + n * (1 - 0) == 1 + n);
    lemma_loop_runs_body_n_times(m, inputs, 0, 1, false, n, inv);
}

} // verus!
