use clock_rs::position::Position;

#[test]
fn start_is_one_cell_in_whatever_the_lengths() {
    assert_eq!(Position::Start.calculate(80, 25), 1);
    assert_eq!(Position::Start.calculate(0, 0), 1);
    assert_eq!(Position::Start.calculate(3, 40_000), 1);
}

#[test]
fn center_puts_the_middle_on_the_middle() {
    assert_eq!(Position::Center.calculate(80, 25), 15);
    assert_eq!(Position::Center.calculate(81, 25), 15);
    assert_eq!(Position::Center.calculate(50, 25), 0);
    assert_eq!(Position::Center.calculate(24, 3), 9);
}

#[test]
fn center_saturates_at_zero() {
    assert_eq!(Position::Center.calculate(10, 25), 0);
    assert_eq!(Position::Center.calculate(0, 1), 0);
    assert_eq!(Position::Center.calculate(u16::MAX, u16::MAX), 0);
}

#[test]
fn end_leaves_a_margin_of_two() {
    assert_eq!(Position::End.calculate(80, 25), 28);
    assert_eq!(Position::End.calculate(52, 25), 0);
    assert_eq!(Position::End.calculate(53, 25), 1);
    assert_eq!(Position::End.calculate(24, 3), 16);
}

#[test]
fn end_saturates_at_zero() {
    assert_eq!(Position::End.calculate(51, 25), 0);
    assert_eq!(Position::End.calculate(10, 25), 0);
    assert_eq!(Position::End.calculate(0, 0), 0);
}

#[test]
fn end_does_not_overflow_on_the_largest_half() {
    assert_eq!(Position::End.calculate(u16::MAX, u16::MAX), 0);
    assert_eq!(Position::End.calculate(u16::MAX, 32_767), 0);
    assert_eq!(Position::End.calculate(u16::MAX, 32_766), 1);
}

#[test]
fn no_offset_exceeds_the_length_but_that_of_start() {
    for len in [0u16, 1, 2, 7, 8, 52, 53, 80, 1000, u16::MAX] {
        for half in [0u16, 1, 3, 16, 25, 26, 500, u16::MAX] {
            assert!(Position::Center.calculate(len, half) <= len);
            assert!(Position::End.calculate(len, half) <= len);
            assert_eq!(Position::Start.calculate(len, half), 1);
        }
    }
}

#[test]
fn default_position_is_center() {
    assert_eq!(Position::default(), Position::Center);
}
