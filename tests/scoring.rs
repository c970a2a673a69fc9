use esoscorepreview::trials::{create_trial_structs, Hardmode, Trial};

fn trial_named(name: &str) -> Trial {
    create_trial_structs()
        .into_iter()
        .find(|t| t.get_raw_name() == name)
        .unwrap()
}

#[test]
fn catalog_order_and_size() {
    let trials = create_trial_structs();
    assert_eq!(trials.len(), 18);
    assert_eq!(trials[0].get_raw_name(), "Aetherian Archive");
    assert_eq!(trials[6].get_raw_name(), "Cloudrest");
    assert_eq!(trials[17].get_raw_name(), "Vateshran Hollows");
}

#[test]
fn reference_time_gives_clear_score_plus_vitality() {
    let expected: [(&str, u32); 18] = [
        ("Aetherian Archive", 84300 + 40000 + 24000),
        ("Hel Ra Citadel", 93100 + 40000 + 24000),
        ("Sanctum Ophidia", 102700 + 40000 + 24000),
        ("Maw of Lorkhaj", 68150 + 40000 + 36000),
        ("Halls of Fabrication", 120100 + 40000 + 36000),
        ("Asylum Sanctorium", 15000 + 55000 + 36000),
        ("Cloudrest", 18000 + 70000 + 36000),
        ("Sunspire", 87250 + 120000 + 36000),
        ("Kyne's Aegis", 85950 + 120000 + 36000),
        ("Rockgrove", 112200 + 120000 + 36000),
        ("Dreadsail Reef", 145850 + 120000 + 36000),
        ("Sanity's Edge", 85200 + 120000 + 36000),
        ("Lucent Citadel", 72850 + 120000 + 36000),
        ("Ossein Cage", 108550 + 120000 + 36000),
        ("Dragonstar Arena", 20000 + 24000),
        ("Maelstrom Arena", 426000 + 15000),
        ("Blackrose Prison", 75000 + 24000),
        ("Vateshran Hollows", 205550 + 15000),
    ];
    let trials = create_trial_structs();
    for (trial, (name, score)) in trials.iter().zip(expected.iter()) {
        assert_eq!(trial.get_raw_name(), *name);
        let factor = trial.get_score_factor() as u32;
        assert_eq!(trial.calculate_score(factor), *score);
        assert_eq!(
            trial.calculate_score_with_vitality(factor, trial.get_maximum_vitality()),
            *score
        );
    }
}

#[test]
fn hardmode_bonus_sums_all_tiers() {
    assert_eq!(trial_named("Cloudrest").get_hardmode_bonus(), 70000);
    assert_eq!(trial_named("Asylum Sanctorium").get_hardmode_bonus(), 55000);
    assert_eq!(trial_named("Maelstrom Arena").get_hardmode_bonus(), 0);
}

#[test]
fn score_decreases_with_time() {
    let trial = trial_named("Aetherian Archive");
    let mut previous = trial.calculate_score_with_vitality(0, 24);
    let mut time: u32 = 0;
    while time < 10_800_000 {
        time += 100_000;
        let score = trial.calculate_score_with_vitality(time, 24);
        assert!(score < previous);
        previous = score;
    }
    assert!(trial.calculate_score(1_000) < trial.calculate_score(0));
    assert!(trial.calculate_score(1) <= trial.calculate_score(0));
}

#[test]
fn score_exact_values() {
    let trial = trial_named("Aetherian Archive");
    assert_eq!(trial.calculate_score_with_vitality(0, 24), 161647);
    assert_eq!(trial.calculate_score_with_vitality(1, 24), 161646);
    assert_eq!(trial.calculate_score_with_vitality(1_000_000, 24), 146817);
}

#[test]
fn end_to_end_aetherian_archive() {
    let trial = trial_named("Aetherian Archive");
    assert_eq!(trial.get_score_factor(), 900_000);
    assert_eq!(trial.calculate_score_with_vitality(900_000, 24), 148300);
    assert!(trial.calculate_score_with_vitality(0, 24) > 148300);
}

#[test]
fn very_long_run_scores_zero() {
    let trial = trial_named("Aetherian Archive");
    assert_eq!(trial.calculate_score_with_vitality(u32::MAX, 24), 0);
    assert_eq!(trial.calculate_score_with_vitality(10_900_000, 24), 0);
}

#[test]
fn vitality_bonus_is_linear() {
    let trial = trial_named("Aetherian Archive");
    assert_eq!(trial.get_vitality_bonus_with_vitality(0), 0);
    assert_eq!(trial.get_vitality_bonus_with_vitality(24), 24000);
    assert_eq!(trial.get_vitality_bonus_with_vitality(255), 255000);
    assert_eq!(trial.get_vitality_bonus(), 24000);
    assert_eq!(trial_named("Maelstrom Arena").get_vitality_bonus(), 15000);
    assert_eq!(trial_named("Maelstrom Arena").get_maximum_vitality(), 15);
}

#[test]
fn round_trip_within_one_millisecond() {
    let trial = trial_named("Aetherian Archive");
    for time in [0u32, 900_000, 1_000_000] {
        let score = trial.calculate_score_with_vitality(time, 24);
        let back = trial.calculate_time_from_score(score, 24).unwrap();
        assert!(back >= time && back <= time + 1);
    }
    let arena = trial_named("Maelstrom Arena");
    for time in [0u32, 2_000_000, 5_400_000] {
        let score = arena.calculate_score_with_vitality(time, 15);
        assert_eq!(arena.calculate_time_from_score(score, 15), Some(time));
    }
}

#[test]
fn round_trip_loses_truncated_fraction() {
    let trial = trial_named("Aetherian Archive");
    let score = trial.calculate_score_with_vitality(1, 24);
    assert_eq!(score, 161646);
    assert_eq!(trial.calculate_time_from_score(score, 24), Some(67));
    let score = trial.calculate_score_with_vitality(123_456, 24);
    assert_eq!(trial.calculate_time_from_score(score, 24), Some(123_465));
}

#[test]
fn time_from_score_floors_at_zero() {
    let trial = trial_named("Aetherian Archive");
    assert_eq!(trial.calculate_time_from_score(1_000_000_000, 24), Some(0));
    assert_eq!(trial.calculate_time_from_score(161_648, 24), Some(0));
    assert_eq!(trial.calculate_time_from_score(148_300, 24), Some(900_000));
    assert_eq!(trial.calculate_time_from_score(0, 24), Some(10_900_000));
}

#[test]
fn time_from_score_without_points_is_undefined() {
    let trial = Trial::new("Empty".to_string(), 0, 0, 60, Vec::new());
    assert_eq!(trial.calculate_time_from_score(100, 0), None);
    assert_eq!(trial.calculate_time_from_score(100, 1), Some(10_060_000 - 1_000_000));
}

#[test]
fn custom_trial_from_parts() {
    let trial = Trial::new(
        "Custom".to_string(),
        84300,
        24,
        900,
        vec![Hardmode::new("HM".to_string(), 40000)],
    );
    assert_eq!(trial.calculate_score_with_vitality(900_000, 24), 148300);
    assert_eq!(trial.get_name(), "Custom (VETERAN)");
    let copy = trial.clone();
    assert!(copy == trial);
}

#[test]
fn display_names() {
    assert_eq!(trial_named("Aetherian Archive").get_name(), "Aetherian Archive");
    assert_eq!(trial_named("Hel Ra Citadel").get_name(), "Hel Ra Citadel");
    assert_eq!(trial_named("Sanctum Ophidia").get_name(), "Sanctum Ophidia");
    assert_eq!(trial_named("Maw of Lorkhaj").get_name(), "Maw of Lorkhaj (VETERAN)");
    assert_eq!(trial_named("Cloudrest").get_raw_name(), "Cloudrest");
}
