use f3_demo::button::{button_step, ButtonEvent, ButtonStep, LoopAction};
use f3_demo::exti::{pending_clear_word, with_line, with_source, LineRouting};
use f3_demo::pwm::duty_for_percent;
use f3_demo::tick::{plan_tick, TickPlan};
use f3_demo::timing::cycles_for_ms;

#[test]
fn duty_half_and_fifth_of_resolution() {
    assert_eq!(duty_for_percent(1280, 50), 640);
    assert_eq!(duty_for_percent(1280, 20), 256);
}

#[test]
fn duty_rounds_down() {
    assert_eq!(duty_for_percent(1279, 50), 639);
    assert_eq!(duty_for_percent(1279, 20), 255);
    assert_eq!(duty_for_percent(7, 33), 2);
}

#[test]
fn duty_bounds() {
    assert_eq!(duty_for_percent(u16::MAX, 100), u16::MAX);
    assert_eq!(duty_for_percent(u16::MAX, 0), 0);
    assert_eq!(duty_for_percent(0, 100), 0);
    assert_eq!(duty_for_percent(u16::MAX, 50), 32767);
}

#[test]
fn cycles_one_second_at_eight_megahertz() {
    assert_eq!(cycles_for_ms(8_000_000, 1000), Some(8_000_000));
    assert_eq!(cycles_for_ms(72_000_000, 1), Some(72_000));
    assert_eq!(cycles_for_ms(999, 1), Some(0));
}

#[test]
fn cycles_too_long_for_counter() {
    assert_eq!(cycles_for_ms(72_000_000, 60_000), None);
    assert_eq!(cycles_for_ms(u32::MAX, u32::MAX), None);
    assert_eq!(cycles_for_ms(u32::MAX, 1000), Some(u32::MAX));
    assert_eq!(cycles_for_ms(u32::MAX, 1001), None);
}

#[test]
fn line_bit_set_keeps_others() {
    assert_eq!(with_line(0, 0), 1);
    assert_eq!(with_line(0x1f80_0000, 0), 0x1f80_0001);
    assert_eq!(with_line(0x1f80_0001, 0), 0x1f80_0001);
    assert_eq!(with_line(0, 31), 0x8000_0000);
    assert_eq!(with_line(0xffff_fff0, 2), 0xffff_fff4);
}

#[test]
fn pending_clear_touches_one_line() {
    assert_eq!(pending_clear_word(0), 1);
    assert_eq!(pending_clear_word(5), 0x20);
    assert_eq!(pending_clear_word(31), 0x8000_0000);
}

#[test]
fn source_field_replaced() {
    assert_eq!(with_source(0, 0, 0), 0);
    assert_eq!(with_source(0x0000_1234, 0, 0), 0x0000_1230);
    assert_eq!(with_source(0x0000_1234, 2, 0xa), 0x0000_1a34);
    assert_eq!(with_source(0xffff_0000, 3, 5), 0xffff_5000);
    assert_eq!(with_source(0x0000_ffff, 1, 0), 0x0000_ff0f);
}

#[test]
fn route_button_line_rising() {
    let mut r = LineRouting { imr: 0x1f80_0000, rtsr: 0, exticr: 0x0000_0003 };
    r.route_rising(0, 0);
    assert_eq!(r.imr, 0x1f80_0001);
    assert_eq!(r.rtsr, 1);
    assert_eq!(r.exticr, 0);
}

#[test]
fn route_upper_line_uses_slot() {
    let mut r = LineRouting { imr: 0, rtsr: 0x10, exticr: 0x0000_1111 };
    r.route_rising(6, 4);
    assert_eq!(r.imr, 0x40);
    assert_eq!(r.rtsr, 0x50);
    assert_eq!(r.exticr, 0x0000_1411);
}

#[test]
fn edge_raises_flag() {
    assert_eq!(
        button_step(false, ButtonEvent::Edge),
        ButtonStep { pressed: true, action: LoopAction::Idle }
    );
    assert_eq!(
        button_step(true, ButtonEvent::Edge),
        ButtonStep { pressed: true, action: LoopAction::Idle }
    );
}

#[test]
fn poll_reports_and_lowers_flag() {
    assert_eq!(
        button_step(true, ButtonEvent::Poll),
        ButtonStep { pressed: false, action: LoopAction::ReportPress }
    );
    assert_eq!(
        button_step(false, ButtonEvent::Poll),
        ButtonStep { pressed: false, action: LoopAction::Idle }
    );
}

#[test]
fn two_edges_one_report() {
    let mut pressed = false;
    pressed = button_step(pressed, ButtonEvent::Edge).pressed;
    pressed = button_step(pressed, ButtonEvent::Edge).pressed;
    let first = button_step(pressed, ButtonEvent::Poll);
    assert_eq!(first.action, LoopAction::ReportPress);
    let second = button_step(first.pressed, ButtonEvent::Poll);
    assert_eq!(second.action, LoopAction::Idle);
}

#[test]
fn tick_acts_on_what_is_installed() {
    assert_eq!(plan_tick(true, true), TickPlan { clear_update_flag: true, toggle_led: true });
    assert_eq!(plan_tick(true, false), TickPlan { clear_update_flag: true, toggle_led: false });
    assert_eq!(plan_tick(false, true), TickPlan { clear_update_flag: false, toggle_led: true });
    assert_eq!(plan_tick(false, false), TickPlan { clear_update_flag: false, toggle_led: false });
}
