use board_leds::gpio::Parts;
use board_leds::led::{LedColor, LedState, Leds};

fn dark_board() -> Leds {
    Leds::new(Parts::new(false, false, false, false))
}

#[test]
fn on_off_readback_at_every_position() {
    let mut leds = dark_board();
    for p in 0..4 {
        leds.at_mut(p).on();
        assert!(leds.at(p).is_lit());
        leds.at_mut(p).off();
        assert!(!leds.at(p).is_lit());
    }
}

#[test]
fn on_and_off_are_idempotent() {
    let mut leds = dark_board();
    leds.at_mut(2).on();
    leds.at_mut(2).on();
    assert!(leds.at(2).is_lit());
    leds.at_mut(2).off();
    leds.at_mut(2).off();
    assert!(!leds.at(2).is_lit());
}

#[test]
fn toggle_flips_and_twice_restores() {
    let mut leds = dark_board();
    assert!(!leds.at(0).is_lit());
    leds.at_mut(0).toggle();
    assert!(leds.at(0).is_lit());
    leds.at_mut(0).toggle();
    assert!(!leds.at(0).is_lit());

    leds.at_mut(3).on();
    leds.at_mut(3).toggle();
    assert!(!leds.at(3).is_lit());
    leds.at_mut(3).toggle();
    assert!(leds.at(3).is_lit());
}

#[test]
fn color_and_position_reach_the_same_handle() {
    let mut leds = dark_board();

    leds.at_color_mut(LedColor::Green).on();
    assert!(leds.at(0).is_lit());
    assert!(leds.at_color(LedColor::Green).is_lit());

    leds.at_color_mut(LedColor::Red).on();
    assert!(leds.at(1).is_lit());

    // The skewed mapping: Blue's ordinal is 2, so it lands on right-green.
    leds.at_color_mut(LedColor::Blue).on();
    assert!(leds.at(2).is_lit());

    // No color reaches right-red, so it is still dark.
    assert!(!leds.at(3).is_lit());
}

#[test]
fn toggling_one_position_leaves_the_others_alone() {
    let mut leds = dark_board();
    leds.at_mut(2).on();

    leds.at_mut(0).toggle();
    assert!(leds.at(0).is_lit());
    assert!(!leds.at(1).is_lit());
    assert!(leds.at(2).is_lit());
    assert!(!leds.at(3).is_lit());

    leds.at_mut(0).toggle();
    assert!(!leds.at(0).is_lit());
    assert!(!leds.at(1).is_lit());
    assert!(leds.at(2).is_lit());
    assert!(!leds.at(3).is_lit());
}

#[test]
fn four_dark_mock_pins_end_to_end() {
    let mut leds = dark_board();

    // Turning everything off over the whole sequence changes nothing.
    for p in 0..leds.len() {
        leds.at_mut(p).off();
    }
    for p in 0..4 {
        assert_eq!(leds.at(p).read_state(), LedState::Unlit);
    }

    leds.at_mut(1).on();
    let expected = [LedState::Unlit, LedState::Lit, LedState::Unlit, LedState::Unlit];
    for p in 0..4 {
        assert_eq!(leds.at(p).read_state(), expected[p]);
    }

    leds.at_mut(1).toggle();
    for p in 0..4 {
        assert_eq!(leds.at(p).read_state(), LedState::Unlit);
    }
}

#[test]
fn construction_keeps_levels_and_swaps_the_left_pair() {
    // Lines 0 and 3 arrive high: line 0 is the left-red LED at
    // position 1, line 3 the right-red LED at position 3.
    let leds = Leds::new(Parts::new(true, false, false, true));
    assert!(!leds.at(0).is_lit());
    assert!(leds.at(1).is_lit());
    assert!(!leds.at(2).is_lit());
    assert!(leds.at(3).is_lit());
}

#[test]
fn length_and_slice_agree_with_positions() {
    let mut leds = dark_board();
    leds.at_mut(1).on();
    assert_eq!(leds.len(), 4);

    let slice = leds.as_slice();
    assert_eq!(slice.len(), 4);
    for (p, led) in slice.iter().enumerate() {
        assert_eq!(led.is_lit(), p == 1);
        assert_eq!(leds.at(p).is_lit(), p == 1);
    }
}

#[test]
fn color_positions_are_the_ordinals() {
    assert_eq!(LedColor::Green.position(), 0);
    assert_eq!(LedColor::Red.position(), 1);
    assert_eq!(LedColor::Blue.position(), 2);
}
