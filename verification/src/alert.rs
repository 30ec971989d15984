//! Alerts and action sheets: their buttons, options and answers.
use crate::button::ButtonFill;
use crate::color::Color;
use crate::field::InputType;
use vstd::prelude::*;

verus! {

/// What an alert button does, which decides its look and position.
#[derive(Clone, Copy, Debug, PartialEq, Eq, Structural, Hash)]
pub enum AlertButtonRole {
    /// An ordinary choice.
    Default,
    /// Dismisses without acting. Also chosen by Escape.
    Cancel,
    /// A destructive choice, drawn in the danger color.
    Destructive,
}

impl Default for AlertButtonRole {
    fn default() -> (role: Self)
        ensures
            role == AlertButtonRole::Default,
    {
        AlertButtonRole::Default
    }
}

/// One button of an alert.
#[derive(Clone, Debug, PartialEq)]
pub struct AlertButton {
    /// Button text.
    pub label: String,
    /// What it does.
    pub role: AlertButtonRole,
}

impl AlertButton {
    /// An ordinary button.
    pub fn new(label: &str) -> (button: Self)
        ensures
            button.label@ == label@,
            button.role == AlertButtonRole::Default,
    {
        AlertButton { label: label.to_owned(), role: AlertButtonRole::Default }
    }

    /// A cancel button.
    pub fn cancel(label: &str) -> (button: Self)
        ensures
            button.label@ == label@,
            button.role == AlertButtonRole::Cancel,
    {
        AlertButton { label: label.to_owned(), role: AlertButtonRole::Cancel }
    }

    /// A destructive button.
    pub fn destructive(label: &str) -> (button: Self)
        ensures
            button.label@ == label@,
            button.role == AlertButtonRole::Destructive,
    {
        AlertButton { label: label.to_owned(), role: AlertButtonRole::Destructive }
    }
}

/// A text field inside an alert, for a prompt.
#[derive(Clone, Debug, PartialEq)]
pub struct AlertInput {
    /// Field label.
    pub label: String,
    /// Hint shown while empty.
    pub placeholder: Option<String>,
    /// Starting text.
    pub value: String,
    /// Kind of value.
    pub input_type: InputType,
}

impl Default for AlertInput {
    fn default() -> (input: Self)
        ensures
            input.label@.len() == 0,
            input.placeholder is None,
            input.value@.len() == 0,
            input.input_type == InputType::Text,
    {
        AlertInput {
            label: String::new(),
            placeholder: None,
            value: String::new(),
            input_type: InputType::Text,
        }
    }
}

/// What the user did with an alert.
#[derive(Clone, Debug, PartialEq)]
pub struct AlertResult {
    /// Index of the pressed button, or `None` when dismissed with Escape or a
    /// tap outside.
    pub button: Option<usize>,
    /// The text entered, for an alert with an input.
    pub value: Option<String>,
}

/// Whether pressing button `pressed` of `buttons` confirms: it is one of the
/// buttons, and not a cancel button.
pub open spec fn confirms(pressed: Option<usize>, buttons: Seq<AlertButton>) -> bool {
    pressed matches Some(i) && i < buttons.len() && buttons[i as int].role
        != AlertButtonRole::Cancel
}

impl AlertResult {
    /// Whether the user pressed a button that is not a cancel button.
    pub fn confirmed(&self, buttons: &[AlertButton]) -> (yes: bool)
        ensures
            yes == confirms(self.button, buttons@),
    {
        match self.button {
            Some(index) => index < buttons.len() && buttons[index].role != AlertButtonRole::Cancel,
            None => false,
        }
    }
}

/// An alert to show from code.
#[derive(Clone, Debug, PartialEq)]
pub struct AlertOptions {
    /// The question or headline.
    pub title: String,
    /// Supporting text.
    pub message: Option<String>,
    /// The buttons.
    pub buttons: Vec<AlertButton>,
    /// A text field, for prompts.
    pub input: Option<AlertInput>,
}

/// The buttons of a question: cancel, then confirm, with the given labels.
pub fn question_buttons(cancel: &str, confirm: &str) -> (buttons: Vec<AlertButton>)
    ensures
        buttons.len() == 2,
        buttons@[0].role == AlertButtonRole::Cancel,
        buttons@[0].label@ == cancel@,
        buttons@[1].role == AlertButtonRole::Default,
        buttons@[1].label@ == confirm@,
{
    let mut buttons = Vec::new();
    buttons.push(AlertButton::cancel(cancel));
    buttons.push(AlertButton::new(confirm));
    buttons
}

/// The answer to a prompt: the text entered when the user confirmed, and
/// `None` when the user cancelled.
pub fn prompt_answer(result: AlertResult, buttons: &[AlertButton]) -> (answer: Option<String>)
    ensures
        answer == (if confirms(result.button, buttons@) {
            result.value
        } else {
            None
        }),
{
    if result.confirmed(buttons) {
        result.value
    } else {
        None
    }
}

/// With the buttons of a question, the answer confirms exactly when the
/// second button was pressed.
pub proof fn lemma_question_confirms(buttons: Seq<AlertButton>, pressed: Option<usize>)
    requires
        buttons.len() == 2,
        buttons[0].role == AlertButtonRole::Cancel,
        buttons[1].role == AlertButtonRole::Default,
    ensures
        confirms(pressed, buttons) <==> pressed == Some(1usize),
{
}

/// One choice in an action sheet.
#[derive(Clone, Debug, PartialEq)]
pub struct ActionSheetButton {
    /// Button text.
    pub label: String,
    /// Colour. [`Color::Danger`] marks a destructive choice.
    pub color: Option<Color>,
    /// Whether it can be chosen.
    pub disabled: bool,
}

impl ActionSheetButton {
    /// An ordinary choice.
    pub fn new(label: &str) -> (button: Self)
        ensures
            button.label@ == label@,
            button.color is None,
            !button.disabled,
    {
        ActionSheetButton { label: label.to_owned(), color: None, disabled: false }
    }

    /// A destructive choice.
    pub fn destructive(label: &str) -> (button: Self)
        ensures
            button.label@ == label@,
            button.color == Some(Color::Danger),
            !button.disabled,
    {
        ActionSheetButton { color: Some(Color::Danger), ..Self::new(label) }
    }

    /// Make the choice unavailable.
    pub fn disabled(self) -> (button: Self)
        ensures
            button.label == self.label,
            button.color == self.color,
            button.disabled,
    {
        ActionSheetButton { disabled: true, ..self }
    }
}

/// An action sheet to show from code.
#[derive(Clone, Debug, PartialEq)]
pub struct ActionSheetOptions {
    /// Heading.
    pub title: Option<String>,
    /// Supporting text.
    pub message: Option<String>,
    /// The choices.
    pub buttons: Vec<ActionSheetButton>,
}

/// The indices, in order, of the first `n` buttons whose role is cancel
/// (`cancel`) or is not (`!cancel`).
pub open spec fn role_indices(buttons: Seq<AlertButton>, n: int, cancel: bool) -> Seq<int>
    decreases n,
{
    if n <= 0 {
        Seq::empty()
    } else {
        let before = role_indices(buttons, n - 1, cancel);
        if (buttons[n - 1].role == AlertButtonRole::Cancel) == cancel {
            before.push(n - 1)
        } else {
            before
        }
    }
}

/// The order in which an alert lays out its buttons, as indices: cancel
/// buttons first, then the others, each group in the order given.
pub open spec fn button_order_of(buttons: Seq<AlertButton>) -> Seq<int> {
    role_indices(buttons, buttons.len() as int, true) + role_indices(
        buttons,
        buttons.len() as int,
        false,
    )
}

/// The indices of the buttons of one role, cancel or not.
fn indices_with_role(buttons: &[AlertButton], cancel: bool) -> (indices: Vec<usize>)
    ensures
        indices@.map_values(|i: usize| i as int) == role_indices(buttons@, buttons@.len() as int, cancel),
{
    let mut indices: Vec<usize> = Vec::new();
    let mut i: usize = 0;
    while i < buttons.len()
        invariant
            i <= buttons.len(),
            indices@.map_values(|k: usize| k as int) == role_indices(buttons@, i as int, cancel),
        decreases buttons.len() - i,
    {
        let is_cancel = buttons[i].role == AlertButtonRole::Cancel;
        if is_cancel == cancel {
            let ghost before = indices@;
            indices.push(i);
            proof {
                assert(indices@.map_values(|k: usize| k as int) =~= before.map_values(
                    |k: usize| k as int,
                ).push(i as int));
            }
        }
        i = i + 1;
    }
    indices
}

/// The order in which an alert lays out its buttons: cancel buttons first,
/// then the others, each group keeping the order given. Each entry is the
/// index of a button in `buttons`, which is what its press reports.
pub fn button_order(buttons: &[AlertButton]) -> (order: Vec<usize>)
    ensures
        order@.map_values(|i: usize| i as int) == button_order_of(buttons@),
{
    let mut order = indices_with_role(buttons, true);
    let mut rest = indices_with_role(buttons, false);
    let ghost first = order@;
    let ghost second = rest@;
    order.append(&mut rest);
    proof {
        assert(order@ == first + second);
        assert(order@.map_values(|i: usize| i as int) =~= first.map_values(|i: usize| i as int)
            + second.map_values(|i: usize| i as int));
    }
    order
}

/// The fill of an alert button: outlined for cancel, solid otherwise.
pub fn role_fill(role: AlertButtonRole) -> (fill: ButtonFill)
    ensures
        fill == (if role == AlertButtonRole::Cancel {
            ButtonFill::Outline
        } else {
            ButtonFill::Solid
        }),
{
    match role {
        AlertButtonRole::Cancel => ButtonFill::Outline,
        _ => ButtonFill::Solid,
    }
}

/// The color of an alert button: neutral for cancel, danger for a
/// destructive choice, the accent otherwise.
pub fn role_color(role: AlertButtonRole) -> (color: Color)
    ensures
        color == (match role {
            AlertButtonRole::Cancel => Color::Neutral,
            AlertButtonRole::Destructive => Color::Danger,
            AlertButtonRole::Default => Color::Accent,
        }),
{
    match role {
        AlertButtonRole::Cancel => Color::Neutral,
        AlertButtonRole::Destructive => Color::Danger,
        AlertButtonRole::Default => Color::Accent,
    }
}

/// The indices of one role among the first `n` buttons increase, lie
/// below `n`, are exactly the indices of that role, and the two roles
/// together count `n`.
proof fn lemma_role_indices(buttons: Seq<AlertButton>, n: int, cancel: bool)
    requires
        0 <= n <= buttons.len(),
    ensures
        forall|a: int, b: int|
            0 <= a < b < role_indices(buttons, n, cancel).len() ==> role_indices(buttons, n, cancel)[a]
                < role_indices(buttons, n, cancel)[b],
        forall|k: int|
            0 <= k < role_indices(buttons, n, cancel).len() ==> 0 <= #[trigger] role_indices(
                buttons,
                n,
                cancel,
            )[k] < n && (buttons[role_indices(buttons, n, cancel)[k]].role == AlertButtonRole::Cancel)
                == cancel,
        forall|i: int|
            0 <= i < n && (buttons[i].role == AlertButtonRole::Cancel) == cancel ==> role_indices(
                buttons,
                n,
                cancel,
            ).contains(i),
        role_indices(buttons, n, true).len() + role_indices(buttons, n, false).len() == n,
    decreases n,
{
    if n > 0 {
        lemma_role_indices(buttons, n - 1, cancel);
        lemma_role_indices(buttons, n - 1, !cancel);
        let before = role_indices(buttons, n - 1, cancel);
        let now = role_indices(buttons, n, cancel);
        assert forall|i: int|
            0 <= i < n && (buttons[i].role == AlertButtonRole::Cancel) == cancel implies now.contains(
            i,
        ) by {
            if i < n - 1 {
                assert(before.contains(i));
                let k = choose|k: int| 0 <= k < before.len() && before[k] == i;
                if now != before {
                    assert(now[k] == before[k]);
                }
            } else {
                assert(now[now.len() - 1] == i);
            }
        }
    }
}

/// An alert shows every button exactly once, cancel buttons first: the
/// order is a rearrangement of all the indices, with every cancel button
/// before every other.
pub proof fn lemma_every_button_once(buttons: Seq<AlertButton>)
    ensures
        button_order_of(buttons).len() == buttons.len(),
        forall|i: int| 0 <= i < buttons.len() ==> button_order_of(buttons).contains(i),
        forall|a: int, b: int|
            0 <= a < b < button_order_of(buttons).len() ==> button_order_of(buttons)[a]
                != button_order_of(buttons)[b],
        forall|a: int, b: int|
            0 <= a < b < button_order_of(buttons).len() && buttons[button_order_of(buttons)[b]].role
                == AlertButtonRole::Cancel ==> buttons[button_order_of(buttons)[a]].role
                == AlertButtonRole::Cancel,
{
    let n = buttons.len() as int;
    lemma_role_indices(buttons, n, true);
    lemma_role_indices(buttons, n, false);
    let c = role_indices(buttons, n, true);
    let o = role_indices(buttons, n, false);
    let all = button_order_of(buttons);
    assert(all == c + o);
    assert forall|i: int| 0 <= i < n implies all.contains(i) by {
        if buttons[i].role == AlertButtonRole::Cancel {
            assert(c.contains(i));
            let k = choose|k: int| 0 <= k < c.len() && c[k] == i;
            assert(all[k] == i);
        } else {
            assert(o.contains(i));
            let k = choose|k: int| 0 <= k < o.len() && o[k] == i;
            assert(all[c.len() + k] == i);
        }
    }
    assert forall|a: int, b: int| 0 <= a < b < all.len() implies all[a] != all[b] by {
        if b < c.len() {
            assert(c[a] < c[b]);
        } else if a >= c.len() {
            assert(o[a - c.len()] < o[b - c.len()]);
        } else {
            assert(c[a] == #[trigger] c[a]);
            assert(o[b - c.len()] == #[trigger] o[b - c.len()]);
        }
    }
    assert forall|a: int, b: int|
        0 <= a < b < all.len() && buttons[all[b]].role == AlertButtonRole::Cancel implies buttons[all[a]].role
        == AlertButtonRole::Cancel by {
        if b >= c.len() {
            assert(o[b - c.len()] == #[trigger] o[b - c.len()]);
        } else {
            assert(c[a] == #[trigger] c[a]);
        }
    }
}

/// Whether an action sheet button is drawn as a destructive choice: its
/// color is set to danger.
pub fn sheet_button_is_danger(color: Option<Color>) -> (danger: bool)
    ensures
        danger == (color == Some(Color::Danger)),
{
    match color {
        Some(Color::Danger) => true,
        _ => false,
    }
}

/// The color of a confirmation's confirm button: danger for a destructive
/// action, the accent otherwise.
pub fn confirm_color(destructive: bool) -> (color: Color)
    ensures
        color == (if destructive {
            Color::Danger
        } else {
            Color::Accent
        }),
{
    if destructive {
        Color::Danger
    } else {
        Color::Accent
    }
}

/// Which presses confirm: a pressed ordinary or destructive button does,
/// a pressed cancel button does not, and neither does a dismissal or an
/// index past the buttons.
pub proof fn lemma_which_presses_confirm(buttons: Seq<AlertButton>, i: usize)
    ensures
        i < buttons.len() && buttons[i as int].role == AlertButtonRole::Default ==> confirms(
            Some(i),
            buttons,
        ),
        i < buttons.len() && buttons[i as int].role == AlertButtonRole::Destructive ==> confirms(
            Some(i),
            buttons,
        ),
        i < buttons.len() && buttons[i as int].role == AlertButtonRole::Cancel ==> !confirms(
            Some(i),
            buttons,
        ),
        i >= buttons.len() ==> !confirms(Some(i), buttons),
        !confirms(None, buttons),
{
}

} // verus!
