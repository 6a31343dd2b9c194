use penflow::button::Button;
use penflow::shapes::Rect;
use penflow::timer::Timer;

#[test]
fn deadlines_advance_by_whole_periods_without_drift() {
    // 60 ticks per second, as the render loop paces itself.
    let period = 1_000_000_000u64 / 60;
    let mut timer = Timer::new(5_000, period);
    assert_eq!(timer.next_deadline(1), 5_000 + period);
    assert_eq!(timer.next_deadline(1), 5_000 + 2 * period);
    // Catching up after missed ticks: several periods at once.
    assert_eq!(timer.next_deadline(3), 5_000 + 5 * period);
    assert_eq!(timer.period, period);
}

#[test]
fn button_press_cycle() {
    let mut button = Button::new(Rect { x1: 10, y1: 10, x2: 50, y2: 30 });
    assert!(!button.is_pressed());

    // Down outside the bound: not armed, an up completes nothing.
    button.pen_down(100, 100);
    button.pen_up(20, 20);
    assert!(!button.is_pressed());

    // Down inside, up anywhere: pressed until reset.
    button.pen_down(20, 20);
    assert!(!button.is_pressed());
    button.pen_up(500, 500);
    assert!(button.is_pressed());
    button.reset();
    assert!(!button.is_pressed());
}

#[test]
fn button_bound_can_be_relaid_out() {
    let mut button = Button::new(Rect { x1: 0, y1: 0, x2: 10, y2: 10 });
    button.set_bound(Rect { x1: 100, y1: 100, x2: 200, y2: 200 });
    button.pen_down(5, 5);
    button.pen_up(5, 5);
    assert!(!button.is_pressed());
    button.pen_down(150, 150);
    button.pen_up(150, 150);
    assert!(button.is_pressed());
}
