//! What a dashboard reports and asks.

use vstd::prelude::*;
use vstd::string::StringExecFns;

verus! {

/// What went wrong on a dashboard.
#[derive(Debug)]
pub enum DashboardError {
    Fetch(String),
    PaneSet(String),
    Unknown(String),
}

impl DashboardError {
    /// What the error says.
    pub open spec fn spec_message(&self) -> Seq<char> {
        match self {
            DashboardError::Fetch(e) => "Fetch error: "@ + e@,
            DashboardError::PaneSet(e) => "Pane set error: "@ + e@,
            DashboardError::Unknown(e) => "Unknown error: "@ + e@,
        }
    }

    /// What the error says.
    pub fn message(&self) -> (r: String)
        ensures
            r@ == self.spec_message(),
    {
        match self {
            DashboardError::Fetch(e) => String::from_str("Fetch error: ").concat(e.as_str()),
            DashboardError::PaneSet(e) => String::from_str("Pane set error: ").concat(e.as_str()),
            DashboardError::Unknown(e) => String::from_str("Unknown error: ").concat(e.as_str()),
        }
    }
}

/// A question to the user that is answered by confirming: the message that
/// is sent on confirmation, and what the button says where it does not say
/// the usual.
#[derive(Debug)]
pub struct ConfirmDialog<M> {
    pub message: String,
    pub on_confirm: Box<M>,
    pub on_confirm_btn_text: Option<String>,
}

impl<M> ConfirmDialog<M> {
    /// A dialog with the usual text on its button.
    pub fn new(message: String, on_confirm: Box<M>) -> (r: Self)
        ensures
            r.message == message,
            r.on_confirm == on_confirm,
            r.on_confirm_btn_text is None,
    {
        ConfirmDialog { message, on_confirm, on_confirm_btn_text: None }
    }

    /// The dialog with a text of its own on its button.
    pub fn with_confirm_btn_text(self, on_confirm_btn_text: String) -> (r: Self)
        ensures
            r.message == self.message,
            r.on_confirm == self.on_confirm,
            r.on_confirm_btn_text == Some(on_confirm_btn_text),
    {
        let mut dialog = self;
        dialog.on_confirm_btn_text = Some(on_confirm_btn_text);
        dialog
    }
}

} // verus!
