use hardkick::dsp::{OsFactor, Shaper};
use hardkick::switch::{active_position, click_selection, Choice};

const SHAPERS: [(Shaper, &str); 3] = [
    (Shaper::Tube, "TUBE"),
    (Shaper::Hard, "HARD"),
    (Shaper::Fold, "FOLD"),
];

#[test]
fn choice_same_matches_equality() {
    assert!(Shaper::Fold.same(&Shaper::Fold));
    assert!(!Shaper::Fold.same(&Shaper::Tube));
    assert!(OsFactor::X4.same(&OsFactor::X4));
    assert!(!OsFactor::Off.same(&OsFactor::X2));
}

#[test]
fn active_position_is_position_of_current() {
    assert_eq!(active_position(&SHAPERS, Shaper::Tube), 0);
    assert_eq!(active_position(&SHAPERS, Shaper::Hard), 1);
    assert_eq!(active_position(&SHAPERS, Shaper::Fold), 2);
}

#[test]
fn active_position_defaults_to_top_and_takes_first_match() {
    let partial = [(OsFactor::X2, "2x"), (OsFactor::X4, "4x")];
    assert_eq!(active_position(&partial, OsFactor::Off), 0);
    let doubled = [(OsFactor::Off, "a"), (OsFactor::X4, "b"), (OsFactor::X4, "c")];
    assert_eq!(active_position(&doubled, OsFactor::X4), 1);
}

#[test]
fn click_on_active_position_commits_nothing() {
    assert_eq!(click_selection(&SHAPERS, Shaper::Hard, 1), None);
}

#[test]
fn click_on_other_position_commits_its_choice() {
    assert_eq!(click_selection(&SHAPERS, Shaper::Hard, 0), Some(Shaper::Tube));
    assert_eq!(click_selection(&SHAPERS, Shaper::Hard, 2), Some(Shaper::Fold));
}
