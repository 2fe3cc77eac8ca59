use vehicle_node::button::ButtonState;

fn run(levels: &[bool]) -> Vec<bool> {
    let mut button = ButtonState::new();
    levels.iter().map(|level| button.sample(*level)).collect()
}

#[test]
fn new_button_is_released() {
    assert!(ButtonState::new().last_level);
}

#[test]
fn press_fires_on_high_to_low_only() {
    assert_eq!(
        run(&[true, false, false, true, false, true, true, false]),
        vec![false, true, false, false, true, false, false, true]
    );
}

#[test]
fn first_sample_low_is_a_press() {
    assert_eq!(run(&[false]), vec![true]);
}

#[test]
fn held_button_fires_once() {
    assert_eq!(run(&[false, false, false, false]), vec![true, false, false, false]);
}

#[test]
fn released_button_never_fires() {
    assert_eq!(run(&[true, true, true]), vec![false, false, false]);
}

#[test]
fn release_is_no_press() {
    let mut button = ButtonState { last_level: false };
    assert!(!button.sample(true));
    assert!(button.last_level);
}

#[test]
fn state_follows_every_sample() {
    let mut button = ButtonState::new();
    button.sample(false);
    assert!(!button.last_level);
    button.sample(false);
    assert!(!button.last_level);
    button.sample(true);
    assert!(button.last_level);
}

#[test]
fn edges_match_transitions_on_all_short_runs() {
    for bits in 0u32..64 {
        let levels: Vec<bool> = (0..6).map(|i| bits & (1 << i) != 0).collect();
        let edges = run(&levels);
        for i in 0..6 {
            let before = if i == 0 { true } else { levels[i - 1] };
            assert_eq!(edges[i], before && !levels[i]);
        }
    }
}
