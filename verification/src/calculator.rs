//! The four-function calculator tool: its actions, the keyboard and button
//! mappings, and the state machine behind the display.
//!
//! The calculator computes in floating point. The state machine is generic in
//! the number type `N` and never computes with numbers itself: for an
//! operator or `=` the host supplies an [`Evaluation`] of the current state,
//! and the machine decides what happens with it.
use vstd::prelude::*;
use vstd::string::*;

use crate::text::{chars_of, push_char, str_eq, string_from_chars};

verus! {

/// Slug of the calculator tool.
pub const TOOL_NAME: &'static str = "calculator";

/// The calculator's display name.
pub fn display_name() -> (r: &'static str)
    ensures
        r@ == "Calculator"@,
{
    "Calculator"
}

/// The calculator's exported entry point in the legacy stub crate: it answers
/// with the display name.
pub fn mount_calculator() -> (r: String)
    ensures
        r@ == "Calculator"@,
{
    display_name().to_owned()
}

/// A binary arithmetic operator.
#[derive(Clone, Copy, Debug, PartialEq, Eq, Structural)]
pub enum Operator {
    Add,
    Subtract,
    Multiply,
    Divide,
}

/// One input to the calculator.
#[derive(Clone, Copy, Debug, PartialEq, Eq, Structural)]
pub enum Action {
    Digit(u8),
    DecimalPoint,
    Operator(Operator),
    Equals,
    Clear,
    Backspace,
}

/// The action bound to a keyboard key.
pub open spec fn key_action(key: Seq<char>) -> Option<Action> {
    if key == "0"@ {
        Some(Action::Digit(0))
    } else if key == "1"@ {
        Some(Action::Digit(1))
    } else if key == "2"@ {
        Some(Action::Digit(2))
    } else if key == "3"@ {
        Some(Action::Digit(3))
    } else if key == "4"@ {
        Some(Action::Digit(4))
    } else if key == "5"@ {
        Some(Action::Digit(5))
    } else if key == "6"@ {
        Some(Action::Digit(6))
    } else if key == "7"@ {
        Some(Action::Digit(7))
    } else if key == "8"@ {
        Some(Action::Digit(8))
    } else if key == "9"@ {
        Some(Action::Digit(9))
    } else if key == "."@ || key == ","@ {
        Some(Action::DecimalPoint)
    } else if key == "+"@ {
        Some(Action::Operator(Operator::Add))
    } else if key == "-"@ {
        Some(Action::Operator(Operator::Subtract))
    } else if key == "*"@ || key == "x"@ || key == "X"@ {
        Some(Action::Operator(Operator::Multiply))
    } else if key == "/"@ {
        Some(Action::Operator(Operator::Divide))
    } else if key == "Enter"@ || key == "="@ {
        Some(Action::Equals)
    } else if key == "Escape"@ || key == "Delete"@ {
        Some(Action::Clear)
    } else if key == "Backspace"@ {
        Some(Action::Backspace)
    } else {
        None
    }
}

/// The action bound to a button's `data-input` token.
pub open spec fn token_action(token: Seq<char>) -> Option<Action> {
    if token == "digit-0"@ {
        Some(Action::Digit(0))
    } else if token == "digit-1"@ {
        Some(Action::Digit(1))
    } else if token == "digit-2"@ {
        Some(Action::Digit(2))
    } else if token == "digit-3"@ {
        Some(Action::Digit(3))
    } else if token == "digit-4"@ {
        Some(Action::Digit(4))
    } else if token == "digit-5"@ {
        Some(Action::Digit(5))
    } else if token == "digit-6"@ {
        Some(Action::Digit(6))
    } else if token == "digit-7"@ {
        Some(Action::Digit(7))
    } else if token == "digit-8"@ {
        Some(Action::Digit(8))
    } else if token == "digit-9"@ {
        Some(Action::Digit(9))
    } else if token == "decimal"@ {
        Some(Action::DecimalPoint)
    } else if token == "add"@ {
        Some(Action::Operator(Operator::Add))
    } else if token == "subtract"@ {
        Some(Action::Operator(Operator::Subtract))
    } else if token == "multiply"@ {
        Some(Action::Operator(Operator::Multiply))
    } else if token == "divide"@ {
        Some(Action::Operator(Operator::Divide))
    } else if token == "equals"@ {
        Some(Action::Equals)
    } else if token == "clear"@ {
        Some(Action::Clear)
    } else if token == "backspace"@ {
        Some(Action::Backspace)
    } else {
        None
    }
}

/// Maps a `KeyboardEvent::key` value to a calculator action.
pub fn action_from_key(key: &str) -> (r: Option<Action>)
    ensures
        r == key_action(key@),
{
    if str_eq(key, "0") {
        Some(Action::Digit(0))
    } else if str_eq(key, "1") {
        Some(Action::Digit(1))
    } else if str_eq(key, "2") {
        Some(Action::Digit(2))
    } else if str_eq(key, "3") {
        Some(Action::Digit(3))
    } else if str_eq(key, "4") {
        Some(Action::Digit(4))
    } else if str_eq(key, "5") {
        Some(Action::Digit(5))
    } else if str_eq(key, "6") {
        Some(Action::Digit(6))
    } else if str_eq(key, "7") {
        Some(Action::Digit(7))
    } else if str_eq(key, "8") {
        Some(Action::Digit(8))
    } else if str_eq(key, "9") {
        Some(Action::Digit(9))
    } else if str_eq(key, ".") || str_eq(key, ",") {
        Some(Action::DecimalPoint)
    } else if str_eq(key, "+") {
        Some(Action::Operator(Operator::Add))
    } else if str_eq(key, "-") {
        Some(Action::Operator(Operator::Subtract))
    } else if str_eq(key, "*") || str_eq(key, "x") || str_eq(key, "X") {
        Some(Action::Operator(Operator::Multiply))
    } else if str_eq(key, "/") {
        Some(Action::Operator(Operator::Divide))
    } else if str_eq(key, "Enter") || str_eq(key, "=") {
        Some(Action::Equals)
    } else if str_eq(key, "Escape") || str_eq(key, "Delete") {
        Some(Action::Clear)
    } else if str_eq(key, "Backspace") {
        Some(Action::Backspace)
    } else {
        None
    }
}

/// Maps a button's `data-input` token to a calculator action.
pub fn action_from_token(token: &str) -> (r: Option<Action>)
    ensures
        r == token_action(token@),
{
    if str_eq(token, "digit-0") {
        Some(Action::Digit(0))
    } else if str_eq(token, "digit-1") {
        Some(Action::Digit(1))
    } else if str_eq(token, "digit-2") {
        Some(Action::Digit(2))
    } else if str_eq(token, "digit-3") {
        Some(Action::Digit(3))
    } else if str_eq(token, "digit-4") {
        Some(Action::Digit(4))
    } else if str_eq(token, "digit-5") {
        Some(Action::Digit(5))
    } else if str_eq(token, "digit-6") {
        Some(Action::Digit(6))
    } else if str_eq(token, "digit-7") {
        Some(Action::Digit(7))
    } else if str_eq(token, "digit-8") {
        Some(Action::Digit(8))
    } else if str_eq(token, "digit-9") {
        Some(Action::Digit(9))
    } else if str_eq(token, "decimal") {
        Some(Action::DecimalPoint)
    } else if str_eq(token, "add") {
        Some(Action::Operator(Operator::Add))
    } else if str_eq(token, "subtract") {
        Some(Action::Operator(Operator::Subtract))
    } else if str_eq(token, "multiply") {
        Some(Action::Operator(Operator::Multiply))
    } else if str_eq(token, "divide") {
        Some(Action::Operator(Operator::Divide))
    } else if str_eq(token, "equals") {
        Some(Action::Equals)
    } else if str_eq(token, "clear") {
        Some(Action::Clear)
    } else if str_eq(token, "backspace") {
        Some(Action::Backspace)
    } else {
        None
    }
}

/// The numbers the host worked out for the current state before an operator
/// or `=` is applied.
///
/// `current` is the display read as a number (`None` when it is not one).
/// `outcome` is the pending operator applied to the stored value (or, when
/// there is none, the current value) and the current value, together with its
/// display text; it is `None` when that application fails (division by zero).
/// Both are ignored by the other actions.
pub struct Evaluation<N> {
    pub current: Option<N>,
    pub outcome: Option<(N, String)>,
}

/// The mathematical content of an [`Evaluation`].
pub struct EvaluationView<N> {
    pub current: Option<N>,
    pub outcome: Option<(N, Seq<char>)>,
}

impl<N> View for Evaluation<N> {
    type V = EvaluationView<N>;

    open spec fn view(&self) -> EvaluationView<N> {
        EvaluationView {
            current: self.current,
            outcome: match self.outcome {
                Some((v, t)) => Some((v, t@)),
                None => None,
            },
        }
    }
}

/// The calculator's state: the text on the display, the stored left operand,
/// the operator waiting for its right operand, whether the next digit starts
/// a new entry, and whether the display shows an error.
pub struct CalculatorState<N> {
    current: String,
    stored: Option<N>,
    pending_operator: Option<Operator>,
    replace_current: bool,
    error: bool,
}

/// The mathematical content of a [`CalculatorState`].
pub struct CalculatorView<N> {
    pub current: Seq<char>,
    pub stored: Option<N>,
    pub pending: Option<Operator>,
    pub replace: bool,
    pub error: bool,
}

impl<N> View for CalculatorState<N> {
    type V = CalculatorView<N>;

    closed spec fn view(&self) -> CalculatorView<N> {
        CalculatorView {
            current: self.current@,
            stored: self.stored,
            pending: self.pending_operator,
            replace: self.replace_current,
            error: self.error,
        }
    }
}

/// The state of a freshly opened calculator: `0`, nothing stored or pending.
pub open spec fn initial_view<N>() -> CalculatorView<N> {
    CalculatorView { current: "0"@, stored: None, pending: None, replace: false, error: false }
}

/// The state after a failed calculation.
pub open spec fn error_view<N>() -> CalculatorView<N> {
    CalculatorView { current: "Error"@, stored: None, pending: None, replace: true, error: true }
}

/// Nothing to clear: the clear button reads `AC` exactly then.
pub open spec fn is_all_clear<N>(s: CalculatorView<N>) -> bool {
    &&& !s.error
    &&& s.current == "0"@
    &&& s.stored is None
    &&& s.pending is None
    &&& !s.replace
}

/// The character of a decimal digit.
pub open spec fn digit_to_char(d: u8) -> char {
    (('0' as u32) + (d as u32)) as char
}

/// The display contains a decimal point.
pub open spec fn has_point(s: Seq<char>) -> bool {
    exists|i: int| 0 <= i < s.len() && s[i] == '.'
}

pub open spec fn after_digit<N>(s: CalculatorView<N>, d: u8) -> CalculatorView<N> {
    let s1 = if s.error { initial_view() } else { s };
    if s1.replace || s1.current == "0"@ {
        CalculatorView { current: seq![digit_to_char(d)], replace: false, ..s1 }
    } else {
        CalculatorView { current: s1.current.push(digit_to_char(d)), ..s1 }
    }
}

pub open spec fn after_decimal_point<N>(s: CalculatorView<N>) -> CalculatorView<N> {
    let s1 = if s.error { initial_view() } else { s };
    if s1.replace {
        CalculatorView { current: "0."@, replace: false, ..s1 }
    } else if !has_point(s1.current) {
        CalculatorView { current: s1.current.push('.'), ..s1 }
    } else {
        s1
    }
}

pub open spec fn after_operator<N>(
    s: CalculatorView<N>,
    op: Operator,
    ev: EvaluationView<N>,
) -> CalculatorView<N> {
    if s.error {
        s
    } else if ev.current is None {
        error_view()
    } else if s.pending is Some && !s.replace {
        match ev.outcome {
            Some((v, t)) => CalculatorView {
                current: t,
                stored: Some(v),
                pending: Some(op),
                replace: true,
                ..s
            },
            None => error_view(),
        }
    } else if s.pending is Some {
        CalculatorView { pending: Some(op), replace: true, ..s }
    } else {
        CalculatorView { stored: ev.current, pending: Some(op), replace: true, ..s }
    }
}

pub open spec fn after_equals<N>(s: CalculatorView<N>, ev: EvaluationView<N>) -> CalculatorView<N> {
    if s.error || s.pending is None {
        s
    } else if ev.current is None {
        error_view()
    } else {
        match ev.outcome {
            Some((v, t)) => CalculatorView {
                current: t,
                stored: Some(v),
                pending: None,
                replace: true,
                ..s
            },
            None => error_view(),
        }
    }
}

pub open spec fn after_clear<N>(s: CalculatorView<N>) -> CalculatorView<N> {
    if is_all_clear(s) || s.error {
        initial_view()
    } else {
        CalculatorView { current: "0"@, replace: false, ..s }
    }
}

pub open spec fn after_backspace<N>(s: CalculatorView<N>) -> CalculatorView<N> {
    if s.error {
        initial_view()
    } else if s.replace {
        CalculatorView { current: "0"@, replace: false, ..s }
    } else if s.current.len() <= 1 {
        CalculatorView { current: "0"@, ..s }
    } else {
        let popped = s.current.drop_last();
        if popped == "-"@ || popped.len() == 0 {
            CalculatorView { current: "0"@, ..s }
        } else {
            CalculatorView { current: popped, ..s }
        }
    }
}

/// The state after one action. Digits above 9 are ignored.
pub open spec fn step<N>(s: CalculatorView<N>, a: Action, ev: EvaluationView<N>) -> CalculatorView<N> {
    match a {
        Action::Digit(d) => if d <= 9 {
            after_digit(s, d)
        } else {
            s
        },
        Action::DecimalPoint => after_decimal_point(s),
        Action::Operator(op) => after_operator(s, op, ev),
        Action::Equals => after_equals(s, ev),
        Action::Clear => after_clear(s),
        Action::Backspace => after_backspace(s),
    }
}

/// The clear button's label for a state.
pub open spec fn clear_label_text<N>(s: CalculatorView<N>) -> Seq<char> {
    if is_all_clear(s) {
        "AC"@
    } else {
        "C"@
    }
}

/// Whether the display contains a decimal point.
fn contains_point(s: &String) -> (r: bool)
    ensures
        r == has_point(s@),
{
    let v = chars_of(s.as_str());
    let mut i: usize = 0;
    while i < v.len()
        invariant
            v@ == s@,
            i <= v@.len(),
            forall|j: int| 0 <= j < i ==> v@[j] != '.',
        decreases v.len() - i,
    {
        if v[i] == '.' {
            return true;
        }
        i = i + 1;
    }
    false
}

impl<N> Default for CalculatorState<N> {
    fn default() -> (s: CalculatorState<N>)
        ensures
            s@ == initial_view::<N>(),
    {
        CalculatorState::new()
    }
}

impl<N> CalculatorState<N> {
    /// A freshly opened calculator.
    pub fn new() -> (s: CalculatorState<N>)
        ensures
            s@ == initial_view::<N>(),
    {
        CalculatorState {
            current: String::from_str("0"),
            stored: None,
            pending_operator: None,
            replace_current: false,
            error: false,
        }
    }

    /// The text on the display.
    pub fn display(&self) -> (r: &str)
        ensures
            r@ == self@.current,
    {
        self.current.as_str()
    }

    /// The stored left operand.
    pub fn stored(&self) -> (r: Option<&N>)
        ensures
            match r {
                Some(v) => self@.stored == Some(*v),
                None => self@.stored is None,
            },
    {
        match &self.stored {
            Some(v) => Some(v),
            None => None,
        }
    }

    /// The operator waiting for its right operand.
    pub fn pending_operator(&self) -> (r: Option<Operator>)
        ensures
            r == self@.pending,
    {
        self.pending_operator
    }

    /// `AC` when there is nothing to clear, `C` otherwise.
    pub fn clear_label(&self) -> (r: &'static str)
        ensures
            r@ == clear_label_text(self@),
    {
        if self.is_all_clear_state() {
            "AC"
        } else {
            "C"
        }
    }

    fn is_all_clear_state(&self) -> (r: bool)
        ensures
            r == is_all_clear(self@),
    {
        !self.error && str_eq(self.current.as_str(), "0") && self.stored.is_none()
            && self.pending_operator.is_none() && !self.replace_current
    }

    fn reset_all(&mut self)
        ensures
            final(self)@ == initial_view::<N>(),
    {
        *self = CalculatorState::new();
    }

    fn set_error(&mut self)
        ensures
            final(self)@ == error_view::<N>(),
    {
        self.current = String::from_str("Error");
        self.stored = None;
        self.pending_operator = None;
        self.replace_current = true;
        self.error = true;
    }

    /// Applies one action; `evaluation` is consulted only by operators and `=`.
    pub fn apply(&mut self, action: Action, evaluation: Evaluation<N>)
        ensures
            final(self)@ == step(old(self)@, action, evaluation@),
    {
        match action {
            Action::Digit(digit) => {
                if digit <= 9 {
                    self.apply_digit(digit);
                }
            },
            Action::DecimalPoint => self.apply_decimal_point(),
            Action::Operator(operator) => self.apply_operator(operator, evaluation),
            Action::Equals => self.apply_equals(evaluation),
            Action::Clear => self.apply_clear(),
            Action::Backspace => self.apply_backspace(),
        }
    }

    fn apply_digit(&mut self, digit: u8)
        requires
            digit <= 9,
        ensures
            final(self)@ == after_digit(old(self)@, digit),
    {
        if self.error {
            self.reset_all();
        }
        let c: char = (48u8 + digit) as char;
        assert(c == digit_to_char(digit));
        if self.replace_current || str_eq(self.current.as_str(), "0") {
            let mut s = String::new();
            push_char(&mut s, c);
            assert(s@ =~= seq![digit_to_char(digit)]);
            self.current = s;
            self.replace_current = false;
            return;
        }
        push_char(&mut self.current, c);
    }

    fn apply_decimal_point(&mut self)
        ensures
            final(self)@ == after_decimal_point(old(self)@),
    {
        if self.error {
            self.reset_all();
        }
        if self.replace_current {
            self.current = String::from_str("0.");
            self.replace_current = false;
            return;
        }
        if !contains_point(&self.current) {
            push_char(&mut self.current, '.');
        }
    }

    fn apply_operator(&mut self, operator: Operator, evaluation: Evaluation<N>)
        ensures
            final(self)@ == after_operator(old(self)@, operator, evaluation@),
    {
        if self.error {
            return;
        }
        if evaluation.current.is_none() {
            self.set_error();
            return;
        }
        match self.pending_operator {
            Some(_) => {
                if !self.replace_current {
                    match evaluation.outcome {
                        Some((value, text)) => {
                            self.current = text;
                            self.stored = Some(value);
                        },
                        None => {
                            self.set_error();
                            return;
                        },
                    }
                }
            },
            None => {
                self.stored = evaluation.current;
            },
        }
        self.pending_operator = Some(operator);
        self.replace_current = true;
    }

    fn apply_equals(&mut self, evaluation: Evaluation<N>)
        ensures
            final(self)@ == after_equals(old(self)@, evaluation@),
    {
        if self.error || self.pending_operator.is_none() {
            return;
        }
        if evaluation.current.is_none() {
            self.set_error();
            return;
        }
        match evaluation.outcome {
            Some((value, text)) => {
                self.current = text;
                self.stored = Some(value);
                self.pending_operator = None;
                self.replace_current = true;
            },
            None => self.set_error(),
        }
    }

    fn apply_clear(&mut self)
        ensures
            final(self)@ == after_clear(old(self)@),
    {
        if self.is_all_clear_state() || self.error {
            self.reset_all();
            return;
        }
        self.current = String::from_str("0");
        self.replace_current = false;
    }

    fn apply_backspace(&mut self)
        ensures
            final(self)@ == after_backspace(old(self)@),
    {
        if self.error {
            self.reset_all();
            return;
        }
        if self.replace_current {
            self.current = String::from_str("0");
            self.replace_current = false;
            return;
        }
        let mut v = chars_of(self.current.as_str());
        if v.len() <= 1 {
            self.current = String::from_str("0");
            return;
        }
        v.pop();
        assert(v@ =~= old(self)@.current.drop_last());
        let popped = string_from_chars(&v);
        if str_eq(popped.as_str(), "-") || v.len() == 0 {
            self.current = String::from_str("0");
        } else {
            self.current = popped;
        }
    }
}

} // verus!
