use toolbox::{
    action_from_key, action_from_token, display_name, mount_calculator, Action, CalculatorState,
    Evaluation, Operator, TOOL_NAME,
};

fn no_numbers() -> Evaluation<f64> {
    Evaluation { current: None, outcome: None }
}

fn numbers(current: f64, outcome: Option<(f64, &str)>) -> Evaluation<f64> {
    Evaluation { current: Some(current), outcome: outcome.map(|(value, text)| (value, text.to_owned())) }
}

fn press(state: &mut CalculatorState<f64>, actions: &[Action]) {
    for action in actions {
        state.apply(*action, no_numbers());
    }
}

#[test]
fn lib_exposes_tool_identity() {
    assert_eq!(TOOL_NAME, "calculator");
    assert_eq!(display_name(), "Calculator");
    assert_eq!(mount_calculator(), "Calculator");
}

#[test]
fn maps_keyboard_input() {
    assert_eq!(action_from_key("7"), Some(Action::Digit(7)));
    assert_eq!(action_from_key("+"), Some(Action::Operator(Operator::Add)));
    assert_eq!(action_from_key("Enter"), Some(Action::Equals));
}

#[test]
fn maps_keyboard_shortcuts() {
    assert_eq!(action_from_key("*"), Some(Action::Operator(Operator::Multiply)));
    assert_eq!(action_from_key("Backspace"), Some(Action::Backspace));
    assert_eq!(action_from_key("Escape"), Some(Action::Clear));
}

#[test]
fn maps_every_key_and_rejects_others() {
    for digit in 0..=9u8 {
        assert_eq!(action_from_key(&digit.to_string()), Some(Action::Digit(digit)));
        assert_eq!(action_from_token(&format!("digit-{digit}")), Some(Action::Digit(digit)));
    }
    assert_eq!(action_from_key(","), Some(Action::DecimalPoint));
    assert_eq!(action_from_key("."), Some(Action::DecimalPoint));
    assert_eq!(action_from_key("x"), Some(Action::Operator(Operator::Multiply)));
    assert_eq!(action_from_key("X"), Some(Action::Operator(Operator::Multiply)));
    assert_eq!(action_from_key("-"), Some(Action::Operator(Operator::Subtract)));
    assert_eq!(action_from_key("/"), Some(Action::Operator(Operator::Divide)));
    assert_eq!(action_from_key("="), Some(Action::Equals));
    assert_eq!(action_from_key("Delete"), Some(Action::Clear));
    assert_eq!(action_from_key("enter"), None);
    assert_eq!(action_from_key("10"), None);
    assert_eq!(action_from_key(""), None);
}

#[test]
fn maps_button_tokens() {
    assert_eq!(action_from_token("decimal"), Some(Action::DecimalPoint));
    assert_eq!(action_from_token("add"), Some(Action::Operator(Operator::Add)));
    assert_eq!(action_from_token("subtract"), Some(Action::Operator(Operator::Subtract)));
    assert_eq!(action_from_token("multiply"), Some(Action::Operator(Operator::Multiply)));
    assert_eq!(action_from_token("divide"), Some(Action::Operator(Operator::Divide)));
    assert_eq!(action_from_token("equals"), Some(Action::Equals));
    assert_eq!(action_from_token("clear"), Some(Action::Clear));
    assert_eq!(action_from_token("backspace"), Some(Action::Backspace));
    assert_eq!(action_from_token("digit-10"), None);
    assert_eq!(action_from_token("Add"), None);
}

#[test]
fn performs_basic_addition() {
    let mut state = CalculatorState::new();

    press(&mut state, &[Action::Digit(1), Action::Digit(2)]);
    state.apply(Action::Operator(Operator::Add), numbers(12.0, None));
    state.apply(Action::Digit(3), no_numbers());
    state.apply(Action::Equals, numbers(3.0, Some((15.0, "15"))));

    assert_eq!(state.display(), "15");
    assert_eq!(state.stored(), Some(&15.0));
    assert_eq!(state.pending_operator(), None);
}

#[test]
fn formats_decimal_results_without_trailing_zeroes() {
    let mut state = CalculatorState::new();

    state.apply(Action::Digit(7), no_numbers());
    state.apply(Action::Operator(Operator::Divide), numbers(7.0, None));
    state.apply(Action::Digit(2), no_numbers());
    state.apply(Action::Equals, numbers(2.0, Some((3.5, "3.5"))));

    assert_eq!(state.display(), "3.5");
}

#[test]
fn chains_operators_through_the_supplied_outcome() {
    let mut state = CalculatorState::new();
    press(&mut state, &[Action::Digit(2)]);
    state.apply(Action::Operator(Operator::Add), numbers(2.0, None));
    assert_eq!(state.stored(), Some(&2.0));
    assert_eq!(state.pending_operator(), Some(Operator::Add));
    // a second operator right away only replaces the pending one
    state.apply(Action::Operator(Operator::Multiply), numbers(2.0, Some((4.0, "4"))));
    assert_eq!(state.display(), "2");
    assert_eq!(state.pending_operator(), Some(Operator::Multiply));
    press(&mut state, &[Action::Digit(5)]);
    state.apply(Action::Operator(Operator::Subtract), numbers(5.0, Some((10.0, "10"))));
    assert_eq!(state.display(), "10");
    assert_eq!(state.stored(), Some(&10.0));
    assert_eq!(state.clear_label(), "C");
}

#[test]
fn equals_without_pending_operator_changes_nothing() {
    let mut state = CalculatorState::new();
    press(&mut state, &[Action::Digit(4)]);
    state.apply(Action::Equals, numbers(4.0, Some((99.0, "99"))));
    assert_eq!(state.display(), "4");
}

#[test]
fn division_by_zero_shows_error_until_a_digit_or_clear() {
    let mut state = CalculatorState::new();
    press(&mut state, &[Action::Digit(8)]);
    state.apply(Action::Operator(Operator::Divide), numbers(8.0, None));
    press(&mut state, &[Action::Digit(0)]);
    state.apply(Action::Equals, numbers(0.0, None));
    assert_eq!(state.display(), "Error");
    assert_eq!(state.clear_label(), "C");
    state.apply(Action::Operator(Operator::Add), numbers(1.0, Some((1.0, "1"))));
    state.apply(Action::Equals, numbers(1.0, Some((1.0, "1"))));
    assert_eq!(state.display(), "Error");
    press(&mut state, &[Action::Digit(6)]);
    assert_eq!(state.display(), "6");
    assert_eq!(state.stored(), None);
}

#[test]
fn unreadable_display_becomes_error() {
    let mut state = CalculatorState::new();
    state.apply(Action::Operator(Operator::Add), no_numbers());
    assert_eq!(state.display(), "Error");
    press(&mut state, &[Action::Clear]);
    assert_eq!(state.display(), "0");
    assert_eq!(state.clear_label(), "AC");
}

#[test]
fn toggles_clear_label_between_ac_and_c() {
    let mut state = CalculatorState::new();

    assert_eq!(state.clear_label(), "AC");
    state.apply(Action::Digit(9), no_numbers());
    assert_eq!(state.clear_label(), "C");
    state.apply(Action::Clear, no_numbers());
    assert_eq!(state.display(), "0");
    assert_eq!(state.clear_label(), "AC");
}

#[test]
fn clear_keeps_pending_operation_and_is_idempotent() {
    let mut state = CalculatorState::new();
    press(&mut state, &[Action::Digit(5)]);
    state.apply(Action::Operator(Operator::Add), numbers(5.0, None));
    press(&mut state, &[Action::Digit(3), Action::Clear]);
    assert_eq!(state.display(), "0");
    assert_eq!(state.clear_label(), "C");
    assert_eq!(state.pending_operator(), Some(Operator::Add));
    press(&mut state, &[Action::Clear]);
    assert_eq!(state.display(), "0");
    assert_eq!(state.pending_operator(), Some(Operator::Add));
}

#[test]
fn supports_backspace() {
    let mut state = CalculatorState::new();

    state.apply(Action::Digit(4), no_numbers());
    state.apply(Action::Digit(2), no_numbers());
    state.apply(Action::Backspace, no_numbers());

    assert_eq!(state.display(), "4");
}

#[test]
fn backspace_edge_cases() {
    let mut state = CalculatorState::new();
    press(&mut state, &[Action::Digit(7), Action::Backspace]);
    assert_eq!(state.display(), "0");
    press(&mut state, &[Action::Backspace]);
    assert_eq!(state.display(), "0");
    assert_eq!(state.clear_label(), "AC");
    press(&mut state, &[Action::Digit(1), Action::DecimalPoint, Action::Backspace, Action::Digit(2)]);
    assert_eq!(state.display(), "12");
    // after a result, backspace clears the display
    state.apply(Action::Operator(Operator::Subtract), numbers(12.0, None));
    press(&mut state, &[Action::Digit(9)]);
    state.apply(Action::Equals, numbers(9.0, Some((-3.0, "-3"))));
    assert_eq!(state.display(), "-3");
    press(&mut state, &[Action::Backspace]);
    assert_eq!(state.display(), "0");
}

#[test]
fn decimal_point_rules() {
    let mut state = CalculatorState::new();
    press(&mut state, &[Action::DecimalPoint, Action::DecimalPoint, Action::Digit(5)]);
    assert_eq!(state.display(), "0.5");
    state.apply(Action::Operator(Operator::Add), numbers(0.5, None));
    press(&mut state, &[Action::DecimalPoint]);
    assert_eq!(state.display(), "0.");
    press(&mut state, &[Action::Digit(0), Action::Digit(0)]);
    assert_eq!(state.display(), "0.00");
}

#[test]
fn digits_above_nine_are_ignored() {
    let mut state = CalculatorState::new();
    press(&mut state, &[Action::Digit(3), Action::Digit(10), Action::Digit(255)]);
    assert_eq!(state.display(), "3");
}

#[test]
fn default_calculator_is_fresh() {
    let state: CalculatorState<f64> = CalculatorState::default();
    assert_eq!(state.display(), "0");
    assert_eq!(state.clear_label(), "AC");
    assert_eq!(state.stored(), None);
    assert_eq!(state.pending_operator(), None);
}
