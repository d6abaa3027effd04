//! Short notices that are shown for a while.

use vstd::prelude::*;
use vstd::string::StringExecFns;

verus! {

/// How long a notice is shown, in seconds.
pub const DEFAULT_TIMEOUT: u64 = 8;

/// What a notice is about, which decides how it looks.
#[derive(Debug, Clone, Copy, PartialEq, Eq, Structural)]
pub enum Status {
    Primary,
    Secondary,
    Success,
    Danger,
    Warning,
}

impl Default for Status {
    fn default() -> (r: Self)
        ensures
            r == Status::Primary,
    {
        Status::Primary
    }
}

/// A notice.
#[derive(Debug)]
pub struct Toast {
    title: String,
    body: String,
    status: Status,
}

impl Toast {
    /// The heading of the notice.
    pub closed spec fn spec_title(&self) -> Seq<char> {
        self.title@
    }

    /// The text of the notice.
    pub closed spec fn spec_body(&self) -> Seq<char> {
        self.body@
    }

    /// What the notice is about.
    pub closed spec fn spec_status(&self) -> Status {
        self.status
    }

    /// A notice of an error.
    pub fn error(body: String) -> (r: Self)
        ensures
            r.spec_title() == "Error"@,
            r.spec_body() == body@,
            r.spec_status() == Status::Danger,
    {
        Toast { title: String::from_str("Error"), body, status: Status::Danger }
    }

    /// A notice of a warning.
    pub fn warn(body: String) -> (r: Self)
        ensures
            r.spec_title() == "Warning"@,
            r.spec_body() == body@,
            r.spec_status() == Status::Warning,
    {
        Toast { title: String::from_str("Warning"), body, status: Status::Warning }
    }

    /// A notice for information.
    pub fn info(body: String) -> (r: Self)
        ensures
            r.spec_title() == "Info"@,
            r.spec_body() == body@,
            r.spec_status() == Status::Primary,
    {
        Toast { title: String::from_str("Info"), body, status: Status::Primary }
    }

    /// The heading of the notice.
    pub fn title(&self) -> (r: &str)
        ensures
            r@ == self.spec_title(),
    {
        self.title.as_str()
    }

    /// The text of the notice.
    pub fn body(&self) -> (r: &str)
        ensures
            r@ == self.spec_body(),
    {
        self.body.as_str()
    }

    /// What the notice is about.
    pub fn status(&self) -> (r: Status)
        ensures
            r == self.spec_status(),
    {
        self.status
    }
}

} // verus!
