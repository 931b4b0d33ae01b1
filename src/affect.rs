//! The affect check that every instruction passes before its
//! operation runs, and the social-credit and irritation state it keeps.

use vstd::prelude::*;
use crate::decode::PrefixType;
use crate::mood::MoodProfile;

verus! {

/// Irritation at or above this level ends the run.
pub const IRRITATION_LIMIT: i32 = 100;

/// The value of an integer clamped to the range of `i32`.
pub open spec fn saturate(x: int) -> int {
    if x > i32::MAX as int {
        i32::MAX as int
    } else if x < i32::MIN as int {
        i32::MIN as int
    } else {
        x
    }
}

pub open spec fn abs(x: int) -> int {
    if x < 0 { -x } else { x }
}

/// Whether the magnitude of the social credit has reached a tolerance.
pub open spec fn reached(credit: i32, tolerance: i32) -> bool {
    abs(credit as int) >= tolerance as int
}

/// Clamps a wide integer into the range of `i32`.
pub fn saturate_i64(x: i64) -> (r: i32)
    ensures
        r as int == saturate(x as int),
{
    if x > i32::MAX as i64 {
        i32::MAX
    } else if x < i32::MIN as i64 {
        i32::MIN
    } else {
        x as i32
    }
}

/// Whether `|credit| >= tolerance`, computed without overflow.
pub fn has_reached(credit: i32, tolerance: i32) -> (r: bool)
    ensures
        r == reached(credit, tolerance),
{
    let c = credit as i64;
    let magnitude: i64 = if c < 0 { -c } else { c };
    magnitude >= tolerance as i64
}

/// The reason a run ends in a fatal fault of the affect check.
#[derive(Clone, Copy, Debug, PartialEq, Eq, Structural)]
pub enum Breach {
    /// Irritation reached its limit.
    Irritation,
    /// A PoliteStrong instruction met social credit at the large tolerance.
    PoliteStrong,
    /// A DemandingStrong instruction met social credit at the medium tolerance.
    DemandingStrong,
}

/// What the affect check decides for one instruction.
#[derive(Clone, Copy, Debug, PartialEq, Eq, Structural)]
pub enum Verdict {
    Proceed,
    Skip,
    Fatal(Breach),
}

/// A message that accompanies an instruction that goes ahead.
#[derive(Clone, Copy, Debug, PartialEq, Eq, Structural)]
pub enum Remark {
    Silent,
    /// A Polite instruction near the small tolerance.
    Reluctant,
    /// A Demanding instruction at the medium tolerance: it waits in protest.
    Defiant,
}

/// The affect check's decision, with the message and the blocking delay that come
/// with it.
#[derive(Clone, Copy, Debug, PartialEq, Eq, Structural)]
pub struct GateReport {
    pub verdict: Verdict,
    pub remark: Remark,
    pub delay_ms: u32,
}

/// The social state threaded through a run.
#[derive(Clone, Copy, Debug, PartialEq, Eq, Structural)]
pub struct AffectState {
    pub social_credit: i32,
    pub irritation: i32,
    /// Whether the previous change was positive. Nothing in a run changes it.
    pub last_was_positive: bool,
}

pub open spec fn credit_change(p: MoodProfile, tone: PrefixType) -> i32 {
    match tone {
        PrefixType::Polite => p.polite_change,
        PrefixType::PoliteStrong => p.polite_strong_change,
        PrefixType::Demanding => p.demanding_change,
        PrefixType::DemandingStrong => p.demanding_strong_change,
    }
}

/// Whether irritation rises for this tone: for Polite when the previous change
/// was not positive, for the other tones when it was.
pub open spec fn irritation_rises(tone: PrefixType, last_was_positive: bool) -> bool {
    if tone == PrefixType::Polite {
        !last_was_positive
    } else {
        last_was_positive
    }
}

/// The irritation after an instruction that goes ahead: it rises by the
/// change, or decays towards zero without going below it.
pub open spec fn next_irritation(a: AffectState, tone: PrefixType, p: MoodProfile) -> int {
    if irritation_rises(tone, a.last_was_positive) {
        saturate(a.irritation + p.irritation_change)
    } else if a.irritation > 0 {
        let d = saturate(a.irritation + p.irritation_decay);
        if d < 0 { 0 } else { d }
    } else {
        a.irritation as int
    }
}

/// The affect check's decision for an instruction of the given tone.
pub open spec fn gate_report(a: AffectState, tone: PrefixType, p: MoodProfile) -> GateReport {
    let c = a.social_credit;
    if a.irritation >= IRRITATION_LIMIT {
        GateReport { verdict: Verdict::Fatal(Breach::Irritation), remark: Remark::Silent, delay_ms: 500 }
    } else {
        match tone {
            PrefixType::Polite => if reached(c, p.small_tolerance) {
                GateReport { verdict: Verdict::Skip, remark: Remark::Silent, delay_ms: 0 }
            } else {
                GateReport {
                    verdict: Verdict::Proceed,
                    remark: if reached(c, p.small_tolerance_close) {
                        Remark::Reluctant
                    } else {
                        Remark::Silent
                    },
                    delay_ms: 0,
                }
            },
            PrefixType::PoliteStrong => if reached(c, p.large_tolerance) {
                GateReport {
                    verdict: Verdict::Fatal(Breach::PoliteStrong),
                    remark: Remark::Silent,
                    delay_ms: 500,
                }
            } else {
                GateReport {
                    verdict: Verdict::Proceed,
                    remark: Remark::Silent,
                    delay_ms: if reached(c, p.large_tolerance_close) { 1500 } else { 0 },
                }
            },
            PrefixType::Demanding => GateReport {
                verdict: Verdict::Proceed,
                remark: if reached(c, p.medium_tolerance) { Remark::Defiant } else { Remark::Silent },
                delay_ms: ((if reached(c, p.medium_tolerance) { 15000int } else { 0int }) + (if reached(
                    c,
                    p.medium_tolerance_close,
                ) {
                    500int
                } else {
                    0int
                })) as u32,
            },
            PrefixType::DemandingStrong => if reached(c, p.medium_tolerance) {
                GateReport {
                    verdict: Verdict::Fatal(Breach::DemandingStrong),
                    remark: Remark::Silent,
                    delay_ms: 1000,
                }
            } else {
                GateReport { verdict: Verdict::Proceed, remark: Remark::Silent, delay_ms: 0 }
            },
        }
    }
}

/// The state after the affect check: changed only when the instruction goes ahead,
/// by the tone's credit change (saturating) and the irritation update.
pub open spec fn gate_affect(a: AffectState, tone: PrefixType, p: MoodProfile) -> AffectState {
    if gate_report(a, tone, p).verdict == Verdict::Proceed {
        AffectState {
            social_credit: saturate(a.social_credit + credit_change(p, tone)) as i32,
            irritation: next_irritation(a, tone, p) as i32,
            last_was_positive: a.last_was_positive,
        }
    } else {
        a
    }
}

impl AffectState {
    /// The state at the start of a run.
    pub fn new(p: &MoodProfile) -> (r: AffectState)
        ensures
            r.social_credit == p.starting_credit,
            r.irritation == 0,
            r.last_was_positive,
    {
        AffectState { social_credit: p.starting_credit, irritation: 0, last_was_positive: true }
    }

    /// What the affect check decides for an instruction of the given tone, without
    /// changing anything.
    pub fn report(&self, tone: PrefixType, p: &MoodProfile) -> (r: GateReport)
        ensures
            r == gate_report(*self, tone, *p),
    {
        let c = self.social_credit;
        if self.irritation >= IRRITATION_LIMIT {
            return GateReport { verdict: Verdict::Fatal(Breach::Irritation), remark: Remark::Silent, delay_ms: 500 };
        }
        match tone {
            PrefixType::Polite => {
                if has_reached(c, p.small_tolerance) {
                    GateReport { verdict: Verdict::Skip, remark: Remark::Silent, delay_ms: 0 }
                } else if has_reached(c, p.small_tolerance_close) {
                    GateReport { verdict: Verdict::Proceed, remark: Remark::Reluctant, delay_ms: 0 }
                } else {
                    GateReport { verdict: Verdict::Proceed, remark: Remark::Silent, delay_ms: 0 }
                }
            },
            PrefixType::PoliteStrong => {
                if has_reached(c, p.large_tolerance) {
                    GateReport { verdict: Verdict::Fatal(Breach::PoliteStrong), remark: Remark::Silent, delay_ms: 500 }
                } else if has_reached(c, p.large_tolerance_close) {
                    GateReport { verdict: Verdict::Proceed, remark: Remark::Silent, delay_ms: 1500 }
                } else {
                    GateReport { verdict: Verdict::Proceed, remark: Remark::Silent, delay_ms: 0 }
                }
            },
            PrefixType::Demanding => {
                let refuses = has_reached(c, p.medium_tolerance);
                let wait: u32 = if refuses { 15000 } else { 0 };
                let extra: u32 = if has_reached(c, p.medium_tolerance_close) { 500 } else { 0 };
                GateReport {
                    verdict: Verdict::Proceed,
                    remark: if refuses { Remark::Defiant } else { Remark::Silent },
                    delay_ms: wait + extra,
                }
            },
            PrefixType::DemandingStrong => {
                if has_reached(c, p.medium_tolerance) {
                    GateReport { verdict: Verdict::Fatal(Breach::DemandingStrong), remark: Remark::Silent, delay_ms: 1000 }
                } else {
                    GateReport { verdict: Verdict::Proceed, remark: Remark::Silent, delay_ms: 0 }
                }
            },
        }
    }

    /// Runs the affect check for an instruction of the given tone: decides, and when
    /// the instruction goes ahead updates irritation and social credit.
    pub fn gate(&mut self, tone: PrefixType, p: &MoodProfile) -> (r: GateReport)
        ensures
            r == gate_report(*old(self), tone, *p),
            *final(self) == gate_affect(*old(self), tone, *p),
    {
        let r = self.report(tone, p);
        if r.verdict == Verdict::Proceed {
            let rises = if tone == PrefixType::Polite {
                !self.last_was_positive
            } else {
                self.last_was_positive
            };
            if rises {
                self.irritation = saturate_i64(self.irritation as i64 + p.irritation_change as i64);
            } else if self.irritation > 0 {
                let d = saturate_i64(self.irritation as i64 + p.irritation_decay as i64);
                self.irritation = if d < 0 { 0 } else { d };
            }
            let change: i32 = match tone {
                PrefixType::Polite => p.polite_change,
                PrefixType::PoliteStrong => p.polite_strong_change,
                PrefixType::Demanding => p.demanding_change,
                PrefixType::DemandingStrong => p.demanding_strong_change,
            };
            self.social_credit = saturate_i64(self.social_credit as i64 + change as i64);
        }
        r
    }
}

} // verus!
