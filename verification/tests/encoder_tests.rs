use tiliqua_ui::encoder::Encoder;

#[test]
fn two_counts_make_one_tick() {
    // One raw count per poll: the first poll leaves an odd remainder and
    // no tick; the second completes the detent.
    let mut e = Encoder::new(false);
    e.update(1, false);
    assert_eq!(e.pending_ticks, 0);
    assert_eq!(e.rot - e.lrot, 1);
    e.update(1, false);
    assert_eq!(e.pending_ticks, 1);
    assert_eq!(e.rot, e.lrot);
    assert_eq!(e.poke_ticks(), 1);
    assert_eq!(e.poke_ticks(), 0);
}

#[test]
fn single_count_alone_yields_no_tick() {
    let mut e = Encoder::new(false);
    e.update(1, false);
    assert_eq!(e.poke_ticks(), 0);
    // the odd count is retained, not dropped
    assert_eq!(e.rot - e.lrot, 1);
}

#[test]
fn negative_counts_tick_down() {
    let mut e = Encoder::new(false);
    e.update(-2, false);
    assert_eq!(e.poke_ticks(), -1);
    e.update(-1, false);
    e.update(-1, false);
    assert_eq!(e.poke_ticks(), -1);
}

#[test]
fn batched_counts_become_batched_ticks() {
    let mut e = Encoder::new(false);
    e.update(7, false);
    assert_eq!(e.pending_ticks, 3);
    assert_eq!(e.rot - e.lrot, 1);
    e.update(1, false);
    assert_eq!(e.poke_ticks(), 4);
    assert_eq!(e.rot, e.lrot);
}

#[test]
fn click_needs_press_and_release() {
    let mut e = Encoder::new(false);
    e.update(0, true); // press edge
    assert!(!e.poke_btn());
    e.update(0, true); // held: no new edge
    assert!(!e.poke_btn());
    e.update(0, false); // release edge
    assert!(e.poke_btn());
    assert!(!e.poke_btn()); // the pair is consumed together
}

#[test]
fn button_held_at_startup_gives_no_click() {
    let mut e = Encoder::new(true);
    e.update(0, true);
    assert!(!e.poke_btn());
    e.update(0, false); // release alone is not a click
    assert!(!e.poke_btn());
    e.update(0, true); // now a press completes a new pair
    assert!(e.poke_btn());
}

#[test]
fn pending_ticks_saturate_at_the_counter_edge() {
    let mut e = Encoder::new(false);
    for _ in 0..10 {
        e.update(127, false);
        assert!(e.pending_ticks <= 127);
    }
    assert_eq!(e.pending_ticks, 127);
    assert_eq!(e.poke_ticks(), 127);
}

#[test]
fn rotation_and_button_are_independent() {
    let mut e = Encoder::new(false);
    e.update(2, true);
    e.update(2, false);
    assert_eq!(e.poke_ticks(), 2);
    assert!(e.poke_btn());
}
