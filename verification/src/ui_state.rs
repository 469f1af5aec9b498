//! Plain state types of the UI collaborator: theme and style selectors,
//! toast notifications, window configuration, and page navigation. The
//! rendering built on them (widget trees, colors, layout) lives entirely in
//! the application shell; the library carries only the data.

use vstd::prelude::*;

verus! {

/// How long a toast notification stays on screen, in seconds, unless a
/// caller overrides it.
pub const DEFAULT_TIMEOUT: u64 = 5;

/// The color theme the shell renders with.
#[derive(Debug, Clone, Copy, PartialEq, Eq, Structural, Default)]
pub enum Theme {
    Light,
    #[default]
    Dark,
}

/// The style a container is rendered with.
#[derive(Debug, Clone, Copy, PartialEq, Eq, Structural, Default)]
pub enum ContainerStyle {
    #[default]
    Default,
    AppCard,
    Section,
    Toast,
}

/// The style a button is rendered with.
#[derive(Debug, Clone, Copy, PartialEq, Eq, Structural, Default)]
pub enum ButtonStyle {
    #[default]
    Default,
    Icon,
    Primary,
    Secondary,
    Tab,
}

/// The severity class of a toast notification.
#[derive(Debug, Clone, Copy, PartialEq, Eq, Structural, Default)]
pub enum Status {
    #[default]
    Primary,
    Secondary,
    Success,
    Danger,
}

/// The textual form of a toast status.
pub open spec fn status_text(s: Status) -> Seq<char> {
    match s {
        Status::Primary => "Primary"@,
        Status::Secondary => "Secondary"@,
        Status::Success => "Success"@,
        Status::Danger => "Danger"@,
    }
}

impl Status {
    /// The status's display label.
    pub fn label(&self) -> (r: String)
        ensures
            r@ == status_text(*self),
    {
        match self {
            Status::Primary => String::from_str("Primary"),
            Status::Secondary => String::from_str("Secondary"),
            Status::Success => String::from_str("Success"),
            Status::Danger => String::from_str("Danger"),
        }
    }
}

/// One toast notification: a title, a body, and a severity.
#[derive(Debug, Default)]
pub struct Toast {
    pub title: String,
    pub body: String,
    pub status: Status,
}

impl Clone for Toast {
    /// Clones the toast, keeping every field.
    fn clone(&self) -> (r: Self)
        ensures
            r == *self,
    {
        Toast { title: self.title.clone(), body: self.body.clone(), status: self.status }
    }
}

/// The shell's persistent configuration.
#[derive(Debug, Clone, Copy, PartialEq, Eq, Structural)]
pub struct Config {
    pub dark_mode: bool,
}

/// The page the shell is showing.
#[derive(Debug, Clone, Copy, PartialEq, Eq, Structural)]
pub enum Page {
    LandingPage,
    Installed,
    Detail,
}

} // verus!
