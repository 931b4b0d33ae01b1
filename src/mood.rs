//! Mood profiles: the numeric parameters that the affect check reads, and the
//! choice of a mood from a time of day.

use vstd::prelude::*;
use rand::Rng;
use rand::SeedableRng;

verus! {

/// The eight named moods.
#[derive(Clone, Copy, Debug, PartialEq, Eq, Structural)]
pub enum Mood {
    /// The default parameters, unchanged.
    Bored,
    /// Social credit starts high; higher tolerances.
    Happy,
    /// Social credit starts low, tolerances are low, irritation never decays.
    Sick,
    /// Social credit can never rise.
    Maniacal,
    /// Social credit falls faster; the large tolerance is lower.
    Angry,
    /// Irritation rises faster.
    Annoyed,
    /// Social credit rises faster; all tolerances are high.
    Lovestruck,
    /// The usual directions of social credit are turned around.
    Confused,
}

/// The parameters that the affect check reads for a whole run.
#[derive(Clone, Copy, Debug, PartialEq, Eq, Structural)]
pub struct MoodProfile {
    pub small_tolerance: i32,
    pub small_tolerance_close: i32,
    pub medium_tolerance: i32,
    pub medium_tolerance_close: i32,
    pub large_tolerance: i32,
    pub large_tolerance_close: i32,
    pub polite_change: i32,
    pub polite_strong_change: i32,
    pub demanding_change: i32,
    pub demanding_strong_change: i32,
    pub irritation_change: i32,
    pub irritation_decay: i32,
    pub starting_credit: i32,
}

/// The parameters of the Bored mood, from which every other mood departs.
pub open spec fn base_profile() -> MoodProfile {
    MoodProfile {
        small_tolerance: 50,
        small_tolerance_close: 25,
        medium_tolerance: 75,
        medium_tolerance_close: 50,
        large_tolerance: 100,
        large_tolerance_close: 75,
        polite_change: 2,
        polite_strong_change: -5i32,
        demanding_change: -2i32,
        demanding_strong_change: -5i32,
        irritation_change: 5,
        irritation_decay: -1i32,
        starting_credit: 0,
    }
}

/// The parameters of each mood.
pub open spec fn mood_profile(m: Mood) -> MoodProfile {
    let b = base_profile();
    match m {
        Mood::Bored => b,
        Mood::Happy => MoodProfile {
            starting_credit: 50,
            small_tolerance: 75,
            medium_tolerance: 100,
            large_tolerance: 125,
            small_tolerance_close: 50,
            medium_tolerance_close: 75,
            large_tolerance_close: 100,
            ..b
        },
        Mood::Sick => MoodProfile {
            starting_credit: -25i32,
            polite_strong_change: -7i32,
            demanding_change: -4i32,
            irritation_decay: 0,
            ..b
        },
        Mood::Maniacal => MoodProfile { polite_change: 0, medium_tolerance_close: 0, ..b },
        Mood::Angry => MoodProfile {
            demanding_change: -4i32,
            demanding_strong_change: -8i32,
            polite_strong_change: -4i32,
            large_tolerance: 75,
            large_tolerance_close: 50,
            ..b
        },
        Mood::Annoyed => MoodProfile { irritation_change: 8, ..b },
        Mood::Lovestruck => MoodProfile {
            polite_change: 5,
            polite_strong_change: -2i32,
            starting_credit: 25,
            small_tolerance: 100,
            medium_tolerance: 125,
            large_tolerance: 150,
            small_tolerance_close: 50,
            medium_tolerance_close: 75,
            large_tolerance_close: 100,
            irritation_decay: -2i32,
            ..b
        },
        Mood::Confused => MoodProfile {
            polite_change: -2i32,
            polite_strong_change: -4i32,
            demanding_change: 2,
            demanding_strong_change: 5,
            ..b
        },
    }
}

/// The mood that a number drawn at random stands for.
pub open spec fn mood_of_index(n: int) -> Mood {
    if n == 0 {
        Mood::Bored
    } else if n == 1 {
        Mood::Happy
    } else if n == 2 {
        Mood::Sick
    } else if n == 3 {
        Mood::Maniacal
    } else if n == 4 {
        Mood::Angry
    } else if n == 5 {
        Mood::Annoyed
    } else if n == 6 {
        Mood::Lovestruck
    } else {
        Mood::Confused
    }
}

impl MoodProfile {
    /// The parameters of a mood.
    pub fn of_mood(m: Mood) -> (r: MoodProfile)
        ensures
            r == mood_profile(m),
    {
        let b = MoodProfile {
            small_tolerance: 50,
            small_tolerance_close: 25,
            medium_tolerance: 75,
            medium_tolerance_close: 50,
            large_tolerance: 100,
            large_tolerance_close: 75,
            polite_change: 2,
            polite_strong_change: -5,
            demanding_change: -2,
            demanding_strong_change: -5,
            irritation_change: 5,
            irritation_decay: -1,
            starting_credit: 0,
        };
        match m {
            Mood::Bored => b,
            Mood::Happy => MoodProfile {
                starting_credit: 50,
                small_tolerance: 75,
                medium_tolerance: 100,
                large_tolerance: 125,
                small_tolerance_close: 50,
                medium_tolerance_close: 75,
                large_tolerance_close: 100,
                ..b
            },
            Mood::Sick => MoodProfile {
                starting_credit: -25,
                polite_strong_change: -7,
                demanding_change: -4,
                irritation_decay: 0,
                ..b
            },
            Mood::Maniacal => MoodProfile { polite_change: 0, medium_tolerance_close: 0, ..b },
            Mood::Angry => MoodProfile {
                demanding_change: -4,
                demanding_strong_change: -8,
                polite_strong_change: -4,
                large_tolerance: 75,
                large_tolerance_close: 50,
                ..b
            },
            Mood::Annoyed => MoodProfile { irritation_change: 8, ..b },
            Mood::Lovestruck => MoodProfile {
                polite_change: 5,
                polite_strong_change: -2,
                starting_credit: 25,
                small_tolerance: 100,
                medium_tolerance: 125,
                large_tolerance: 150,
                small_tolerance_close: 50,
                medium_tolerance_close: 75,
                large_tolerance_close: 100,
                irritation_decay: -2,
                ..b
            },
            Mood::Confused => MoodProfile {
                polite_change: -2,
                polite_strong_change: -4,
                demanding_change: 2,
                demanding_strong_change: 5,
                ..b
            },
        }
    }
}

/// Picks the mood of a drawn number: its remainder modulo eight indexes the
/// moods in the order in which they are declared.
pub fn select_mood(draw: u64) -> (r: Mood)
    ensures
        r == mood_of_index(draw as int % 8),
{
    let n: u64 = draw % 8;
    if n == 0 {
        Mood::Bored
    } else if n == 1 {
        Mood::Happy
    } else if n == 2 {
        Mood::Sick
    } else if n == 3 {
        Mood::Maniacal
    } else if n == 4 {
        Mood::Angry
    } else if n == 5 {
        Mood::Annoyed
    } else if n == 6 {
        Mood::Lovestruck
    } else {
        Mood::Confused
    }
}

/// The seed of the mood generator: the hour of the day times the day of the
/// year.
pub fn mood_seed(hour: u32, day_of_year: u32) -> (r: u64)
    ensures
        r as int == hour as int * day_of_year as int,
{
    proof {
        assert(hour as int * day_of_year as int <= u32::MAX as int * u32::MAX as int) by (nonlinear_arith);
    }
    (hour as u64) * (day_of_year as u64)
}

/// rand's standard generator, carried through without looking inside.
#[verifier::external_type_specification]
#[verifier::external_body]
pub struct ExStdRng(rand::rngs::StdRng);

/// Relies on rand's `SeedableRng::seed_from_u64`: the standard generator
/// started from a seed.
#[verifier::external_body]
fn seeded_rng(seed: u64) -> (r: rand::rngs::StdRng) {
    rand::rngs::StdRng::seed_from_u64(seed)
}

/// Relies on rand's `Rng::gen::<u64>`: the next number of the generator.
/// Nothing is known of its value.
#[verifier::external_body]
fn draw_u64(rng: &mut rand::rngs::StdRng) -> (r: u64) {
    rng.gen::<u64>()
}

/// Chooses the mood of a time of day: the standard generator, seeded with
/// the hour times the day of the year, draws a number, and `select_mood`
/// maps it to a mood.
pub fn mood_of_time(hour: u32, day_of_year: u32) -> (r: Mood) {
    let seed = mood_seed(hour, day_of_year);
    let mut rng = seeded_rng(seed);
    select_mood(draw_u64(&mut rng))
}

} // verus!
