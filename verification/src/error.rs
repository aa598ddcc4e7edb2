use vstd::prelude::*;
use vstd::string::*;

verus! {

/// A failure of one of the engine's subsystems, with a message for the user.
#[derive(Debug, Clone, PartialEq, Eq)]
pub enum AppError {
    /// The audio input could not be set up.
    Audio(String),
    /// The effect gallery could not be loaded.
    Plugin(String),
    /// The engine's configuration cannot work.
    Config(String),
}

/// The mathematical content of an [`AppError`]: its variant and message.
pub enum AppErrorView {
    Audio(Seq<char>),
    Plugin(Seq<char>),
    Config(Seq<char>),
}

impl AppErrorView {
    /// The text that introduces errors of this variant.
    pub open spec fn prefix(self) -> Seq<char> {
        match self {
            AppErrorView::Audio(_) => "Audio error: "@,
            AppErrorView::Plugin(_) => "Plugin error: "@,
            AppErrorView::Config(_) => "Configuration error: "@,
        }
    }

    /// The message carried by the error.
    pub open spec fn detail(self) -> Seq<char> {
        match self {
            AppErrorView::Audio(m) => m,
            AppErrorView::Plugin(m) => m,
            AppErrorView::Config(m) => m,
        }
    }

    /// The full line shown to the user.
    pub open spec fn text(self) -> Seq<char> {
        self.prefix() + self.detail()
    }
}

impl View for AppError {
    type V = AppErrorView;

    open spec fn view(&self) -> AppErrorView {
        match self {
            AppError::Audio(m) => AppErrorView::Audio(m@),
            AppError::Plugin(m) => AppErrorView::Plugin(m@),
            AppError::Config(m) => AppErrorView::Config(m@),
        }
    }
}

impl AppError {
    /// The full line shown to the user: the variant's prefix, then the message.
    pub fn to_string(&self) -> (line: String)
        ensures
            line@ == self@.text(),
    {
        match self {
            AppError::Audio(m) => String::from_str("Audio error: ").concat(m.as_str()),
            AppError::Plugin(m) => String::from_str("Plugin error: ").concat(m.as_str()),
            AppError::Config(m) => String::from_str("Configuration error: ").concat(m.as_str()),
        }
    }
}

/// Result type of the engine's fallible operations.
pub type AppResult<T> = Result<T, AppError>;

} // verus!
