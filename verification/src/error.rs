//! Why a startup was abandoned.
use vstd::prelude::*;
use vstd::string::*;

verus! {

/// The reason for which the application does not launch. Each variant keeps
/// what an operator needs to mend the configuration or the directory.
#[derive(Debug)]
pub enum StartupError {
    /// The directory setting is present but is not a path.
    Config {
        /// What the configuration source said of the value.
        cause: String,
    },
    /// The chosen directory could not be turned into an absolute path:
    /// it does not exist, or cannot be reached.
    Normalization {
        /// The directory that was tried.
        path: String,
        /// What the file system said.
        cause: String,
    },
    /// The directory could not be read, or one of its definitions is
    /// malformed.
    Parse {
        /// The directory that was read, as it was chosen.
        path: String,
        /// What the parser said.
        cause: String,
    },
}

/// A [`StartupError`] with its texts as sequences of characters.
pub enum StartupErrorView {
    Config { cause: Seq<char> },
    Normalization { path: Seq<char>, cause: Seq<char> },
    Parse { path: Seq<char>, cause: Seq<char> },
}

impl View for StartupError {
    type V = StartupErrorView;

    open spec fn view(&self) -> StartupErrorView {
        match *self {
            StartupError::Config { cause } => StartupErrorView::Config { cause: cause@ },
            StartupError::Normalization { path, cause } => StartupErrorView::Normalization {
                path: path@,
                cause: cause@,
            },
            StartupError::Parse { path, cause } => StartupErrorView::Parse {
                path: path@,
                cause: cause@,
            },
        }
    }
}

/// The line that reports an error: the configuration source's own words
/// for a malformed setting, else the directory and what was said of it.
pub open spec fn spec_message(error: StartupErrorView) -> Seq<char> {
    match error {
        StartupErrorView::Config { cause } => cause,
        StartupErrorView::Normalization { path, cause } => "Invalid syntaxes path '"@ + path
            + "': "@ + cause + "."@,
        StartupErrorView::Parse { path, cause } => "Couldn't load syntaxes from '"@ + path
            + "': "@ + cause,
    }
}

impl StartupError {
    /// The line to report the error with.
    pub fn message(&self) -> (line: String)
        ensures
            line@ == spec_message(self@),
    {
        match self {
            StartupError::Config { cause } => cause.clone(),
            StartupError::Normalization { path, cause } => {
                let mut line = String::from_str("Invalid syntaxes path '");
                line.append(path.as_str());
                line.append("': ");
                line.append(cause.as_str());
                line.append(".");
                line
            },
            StartupError::Parse { path, cause } => {
                let mut line = String::from_str("Couldn't load syntaxes from '");
                line.append(path.as_str());
                line.append("': ");
                line.append(cause.as_str());
                line
            },
        }
    }

    /// The directory that the error is about, if it is about one.
    pub fn path(&self) -> (p: Option<&str>)
        ensures
            match self@ {
                StartupErrorView::Config { .. } => p is None,
                StartupErrorView::Normalization { path, .. } => p matches Some(s) && s@ == path,
                StartupErrorView::Parse { path, .. } => p matches Some(s) && s@ == path,
            },
    {
        match self {
            StartupError::Config { .. } => None,
            StartupError::Normalization { path, .. } => Some(path.as_str()),
            StartupError::Parse { path, .. } => Some(path.as_str()),
        }
    }

    /// What the configuration source, the file system or the parser reported.
    pub fn cause(&self) -> (c: &str)
        ensures
            match self@ {
                StartupErrorView::Config { cause } => c@ == cause,
                StartupErrorView::Normalization { cause, .. } => c@ == cause,
                StartupErrorView::Parse { cause, .. } => c@ == cause,
            },
    {
        match self {
            StartupError::Config { cause } => cause.as_str(),
            StartupError::Normalization { cause, .. } => cause.as_str(),
            StartupError::Parse { cause, .. } => cause.as_str(),
        }
    }
}

} // verus!
