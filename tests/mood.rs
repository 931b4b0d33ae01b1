use sal_vm::mood::{mood_of_time, mood_seed, select_mood, Mood, MoodProfile};

#[test]
fn bored_profile_is_the_default() {
    let p = MoodProfile::of_mood(Mood::Bored);
    assert_eq!(p.small_tolerance, 50);
    assert_eq!(p.small_tolerance_close, 25);
    assert_eq!(p.medium_tolerance, 75);
    assert_eq!(p.medium_tolerance_close, 50);
    assert_eq!(p.large_tolerance, 100);
    assert_eq!(p.large_tolerance_close, 75);
    assert_eq!(p.polite_change, 2);
    assert_eq!(p.polite_strong_change, -5);
    assert_eq!(p.demanding_change, -2);
    assert_eq!(p.demanding_strong_change, -5);
    assert_eq!(p.irritation_change, 5);
    assert_eq!(p.irritation_decay, -1);
    assert_eq!(p.starting_credit, 0);
}

#[test]
fn maniacal_never_gains_credit() {
    let p = MoodProfile::of_mood(Mood::Maniacal);
    assert_eq!(p.polite_change, 0);
    assert_eq!(p.medium_tolerance_close, 0);
    assert!(p.polite_strong_change <= 0 && p.demanding_change <= 0 && p.demanding_strong_change <= 0);
}

#[test]
fn other_profiles() {
    let h = MoodProfile::of_mood(Mood::Happy);
    assert_eq!((h.starting_credit, h.small_tolerance, h.large_tolerance_close), (50, 75, 100));
    let s = MoodProfile::of_mood(Mood::Sick);
    assert_eq!((s.starting_credit, s.polite_strong_change, s.irritation_decay), (-25, -7, 0));
    let a = MoodProfile::of_mood(Mood::Angry);
    assert_eq!((a.demanding_strong_change, a.large_tolerance, a.large_tolerance_close), (-8, 75, 50));
    assert_eq!(MoodProfile::of_mood(Mood::Annoyed).irritation_change, 8);
    let l = MoodProfile::of_mood(Mood::Lovestruck);
    assert_eq!((l.polite_change, l.starting_credit, l.large_tolerance, l.irritation_decay), (5, 25, 150, -2));
    let c = MoodProfile::of_mood(Mood::Confused);
    assert_eq!((c.polite_change, c.demanding_change, c.demanding_strong_change), (-2, 2, 5));
}

#[test]
fn select_mood_by_remainder() {
    assert_eq!(select_mood(0), Mood::Bored);
    assert_eq!(select_mood(3), Mood::Maniacal);
    assert_eq!(select_mood(15), Mood::Confused);
    assert_eq!(select_mood(17), Mood::Happy);
    assert_eq!(select_mood(u64::MAX), Mood::Confused);
}

#[test]
fn seed_is_hour_times_day() {
    assert_eq!(mood_seed(13, 200), 2600);
    assert_eq!(mood_seed(0, 366), 0);
}

#[test]
fn mood_of_time_is_a_fixed_mood() {
    let m = mood_of_time(13, 200);
    assert_eq!(mood_of_time(13, 200), m);
    let all = [
        Mood::Bored,
        Mood::Happy,
        Mood::Sick,
        Mood::Maniacal,
        Mood::Angry,
        Mood::Annoyed,
        Mood::Lovestruck,
        Mood::Confused,
    ];
    assert!(all.contains(&m));
}
