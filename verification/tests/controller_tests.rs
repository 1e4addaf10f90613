use nes_emu::controller::Controller;

#[test]
fn new_controller_has_nothing_pressed() {
    let c = Controller::new();
    assert!(!c.a && !c.b && !c.select && !c.start && !c.up && !c.down && !c.left && !c.right);
    assert_eq!(c.output, 0);
    assert!(!c.latch);
}

#[test]
fn strobe_high_reports_button_a() {
    let mut c = Controller::new();
    c.a = true;
    c.write(1);
    assert_eq!(c.read(), 1);
    assert_eq!(c.read(), 1);
    c.a = false;
    assert_eq!(c.read(), 0);
}

#[test]
fn reads_follow_the_serial_order() {
    let mut c = Controller::new();
    c.b = true;
    c.up = true;
    c.right = true;
    c.write(1);
    c.write(0);
    let reads: Vec<u8> = (0..8).map(|_| c.read()).collect();
    assert_eq!(reads, vec![0, 1, 0, 0, 1, 0, 0, 1]);
    assert_eq!(c.read(), 0);
}

#[test]
fn report_is_taken_when_the_strobe_rises() {
    let mut c = Controller::new();
    c.write(1);
    assert_eq!(c.output, 0);
    c.select = true;
    c.write(1);
    assert_eq!(c.output, 0);
    c.write(0);
    c.write(1);
    assert_eq!(c.output, 0b0010_0000);
}

#[test]
fn all_buttons_then_zeros_after_a_strobe() {
    let mut c = Controller::new();
    c.a = true;
    c.b = true;
    c.select = true;
    c.start = true;
    c.up = true;
    c.down = true;
    c.left = true;
    c.right = true;
    c.write(1);
    c.write(0);
    for _ in 0..8 {
        assert_eq!(c.read(), 1);
    }
    for _ in 0..20 {
        assert_eq!(c.read(), 0);
    }
}
