//! The roles and widths of modals.
use vstd::prelude::*;

verus! {

/// The ARIA role of a `Modal`.
#[derive(Clone, Copy, Debug, PartialEq, Eq, Structural, Hash)]
pub enum ModalRole {
    /// A general dialog.
    Dialog,
    /// A dialog that interrupts to ask for a response, such as a confirmation. Screen readers announce it immediately.
    AlertDialog,
}

impl Default for ModalRole {
    fn default() -> (value: Self)
        ensures
            value == ModalRole::Dialog,
    {
        ModalRole::Dialog
    }
}

/// The ARIA role of `value`.
pub open spec fn role_name(value: ModalRole) -> Seq<char> {
    match value {
        ModalRole::Dialog => "dialog"@,
        ModalRole::AlertDialog => "alertdialog"@,
    }
}

impl ModalRole {
    /// The ARIA role.
    pub fn as_str(self) -> (text: &'static str)
        ensures
            text@ == role_name(self),
    {
        match self {
            ModalRole::Dialog => "dialog",
            ModalRole::AlertDialog => "alertdialog",
        }
    }
}

/// Width of a `Modal`.
#[derive(Clone, Copy, Debug, PartialEq, Eq, Structural, Hash)]
pub enum ModalSize {
    /// Alert width, for short messages and confirmations.
    Compact,
    /// Wider, for forms and longer content.
    Wide,
}

impl Default for ModalSize {
    fn default() -> (value: Self)
        ensures
            value == ModalSize::Compact,
    {
        ModalSize::Compact
    }
}

/// The width class for `value`; none for `Compact`.
pub open spec fn modal_size_class(value: ModalSize) -> Seq<char> {
    match value {
        ModalSize::Compact => ""@,
        ModalSize::Wide => "g3-modal-wide"@,
    }
}

impl ModalSize {
    /// The width class; empty for `Compact`.
    pub fn class(self) -> (text: &'static str)
        ensures
            text@ == modal_size_class(self),
    {
        match self {
            ModalSize::Compact => "",
            ModalSize::Wide => "g3-modal-wide",
        }
    }
}

} // verus!
