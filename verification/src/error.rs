use vstd::prelude::*;

verus! {

/// Why a launch command could not be produced.
#[derive(Debug, Clone, PartialEq, Eq)]
pub enum CommandError {
    /// The settings are missing or do not have the required shape.
    Configuration(String),
    /// The server file is still absent after the installation.
    Installation(String),
    /// A directory or a file could not be written.
    Io(String),
    /// A capability of the host reported a failure.
    Host(String),
}

/// Mathematical model of a [`CommandError`].
pub enum CommandErrorView {
    Configuration(Seq<char>),
    Installation(Seq<char>),
    Io(Seq<char>),
    Host(Seq<char>),
}

impl CommandErrorView {
    /// The text that is shown to the user.
    pub open spec fn message(self) -> Seq<char> {
        match self {
            CommandErrorView::Configuration(m) => m,
            CommandErrorView::Installation(m) => m,
            CommandErrorView::Io(m) => m,
            CommandErrorView::Host(m) => m,
        }
    }
}

impl View for CommandError {
    type V = CommandErrorView;

    open spec fn view(&self) -> CommandErrorView {
        match self {
            CommandError::Configuration(m) => CommandErrorView::Configuration(m@),
            CommandError::Installation(m) => CommandErrorView::Installation(m@),
            CommandError::Io(m) => CommandErrorView::Io(m@),
            CommandError::Host(m) => CommandErrorView::Host(m@),
        }
    }
}

impl CommandError {
    /// The text that is shown to the user, unchanged.
    pub fn message(&self) -> (text: String)
        ensures
            text@ == self@.message(),
    {
        match self {
            CommandError::Configuration(m) => m.clone(),
            CommandError::Installation(m) => m.clone(),
            CommandError::Io(m) => m.clone(),
            CommandError::Host(m) => m.clone(),
        }
    }

    /// Whether the settings were at fault.
    pub fn is_configuration(&self) -> (yes: bool)
        ensures
            yes == (self@ is Configuration),
    {
        match self {
            CommandError::Configuration(_) => true,
            _ => false,
        }
    }

    /// Whether the server file was absent after the installation.
    pub fn is_installation(&self) -> (yes: bool)
        ensures
            yes == (self@ is Installation),
    {
        match self {
            CommandError::Installation(_) => true,
            _ => false,
        }
    }

    /// Whether a write to disk failed.
    pub fn is_io(&self) -> (yes: bool)
        ensures
            yes == (self@ is Io),
    {
        match self {
            CommandError::Io(_) => true,
            _ => false,
        }
    }

    /// Whether a capability of the host failed.
    pub fn is_host(&self) -> (yes: bool)
        ensures
            yes == (self@ is Host),
    {
        match self {
            CommandError::Host(_) => true,
            _ => false,
        }
    }
}

} // verus!
