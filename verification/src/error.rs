use vstd::prelude::*;
use vstd::string::StringExecFns;

verus! {

/// Failures reported by recognizers and their factories.
#[derive(Debug, PartialEq)]
pub enum SpeechError {
    /// The engine, its library or its decoder could not be brought up.
    LoadLibraryError(String),
    /// No model is configured for the requested language.
    NoLanguageFound(String),
    /// The folder that should hold a language's model is unusable.
    LanguageFolderError(String),
    /// The recognizer options are not acceptable to the engine.
    ConfigurationError,
    /// One engine message could not be decoded.
    ProtocolDecodeError,
    /// The decoder reported a failure it cannot recover from.
    EngineFatalError,
    /// An operation was called in a state that does not allow it.
    InvalidStateError,
    Unknown,
}

/// Mathematical form of a [`SpeechError`].
pub enum SpeechErrorView {
    LoadLibraryError(Seq<char>),
    NoLanguageFound(Seq<char>),
    LanguageFolderError(Seq<char>),
    ConfigurationError,
    ProtocolDecodeError,
    EngineFatalError,
    InvalidStateError,
    Unknown,
}

impl View for SpeechError {
    type V = SpeechErrorView;

    open spec fn view(&self) -> SpeechErrorView {
        match self {
            SpeechError::LoadLibraryError(s) => SpeechErrorView::LoadLibraryError(s@),
            SpeechError::NoLanguageFound(s) => SpeechErrorView::NoLanguageFound(s@),
            SpeechError::LanguageFolderError(s) => SpeechErrorView::LanguageFolderError(s@),
            SpeechError::ConfigurationError => SpeechErrorView::ConfigurationError,
            SpeechError::ProtocolDecodeError => SpeechErrorView::ProtocolDecodeError,
            SpeechError::EngineFatalError => SpeechErrorView::EngineFatalError,
            SpeechError::InvalidStateError => SpeechErrorView::InvalidStateError,
            SpeechError::Unknown => SpeechErrorView::Unknown,
        }
    }
}

pub type SpeechResult<T = (), E = SpeechError> = Result<T, E>;

impl SpeechErrorView {
    /// The name of the variant.
    pub open spec fn name(self) -> Seq<char> {
        match self {
            SpeechErrorView::LoadLibraryError(_) => "LoadLibraryError"@,
            SpeechErrorView::NoLanguageFound(_) => "NoLanguageFound"@,
            SpeechErrorView::LanguageFolderError(_) => "LanguageFolderError"@,
            SpeechErrorView::ConfigurationError => "ConfigurationError"@,
            SpeechErrorView::ProtocolDecodeError => "ProtocolDecodeError"@,
            SpeechErrorView::EngineFatalError => "EngineFatalError"@,
            SpeechErrorView::InvalidStateError => "InvalidStateError"@,
            SpeechErrorView::Unknown => "Unknown"@,
        }
    }

    /// What the error carries besides its variant: a message, a language or
    /// a folder.
    pub open spec fn detail(self) -> Option<Seq<char>> {
        match self {
            SpeechErrorView::LoadLibraryError(s) => Some(s),
            SpeechErrorView::NoLanguageFound(s) => Some(s),
            SpeechErrorView::LanguageFolderError(s) => Some(s),
            _ => None,
        }
    }

    /// The error as text: the name of the variant, followed by a colon, a
    /// space and the detail where it has one.
    pub open spec fn text(self) -> Seq<char> {
        match self.detail() {
            Some(detail) => self.name() + ": "@ + detail,
            None => self.name(),
        }
    }
}

impl SpeechError {
    /// The name of the variant.
    pub fn name(&self) -> (name: String)
        ensures
            name@ == self@.name(),
    {
        match self {
            SpeechError::LoadLibraryError(_) => String::from_str("LoadLibraryError"),
            SpeechError::NoLanguageFound(_) => String::from_str("NoLanguageFound"),
            SpeechError::LanguageFolderError(_) => String::from_str("LanguageFolderError"),
            SpeechError::ConfigurationError => String::from_str("ConfigurationError"),
            SpeechError::ProtocolDecodeError => String::from_str("ProtocolDecodeError"),
            SpeechError::EngineFatalError => String::from_str("EngineFatalError"),
            SpeechError::InvalidStateError => String::from_str("InvalidStateError"),
            SpeechError::Unknown => String::from_str("Unknown"),
        }
    }

    /// The error as text.
    pub fn describe(&self) -> (text: String)
        ensures
            text@ == self@.text(),
    {
        let mut text = self.name();
        match self {
            SpeechError::LoadLibraryError(s)
            | SpeechError::NoLanguageFound(s)
            | SpeechError::LanguageFolderError(s) => {
                text.append(": ");
                text.append(s.as_str());
            },
            _ => {},
        }
        text
    }
}

impl Clone for SpeechError {
    fn clone(&self) -> (copy: Self)
        ensures
            copy@ == self@,
    {
        match self {
            SpeechError::LoadLibraryError(s) => SpeechError::LoadLibraryError(s.clone()),
            SpeechError::NoLanguageFound(s) => SpeechError::NoLanguageFound(s.clone()),
            SpeechError::LanguageFolderError(s) => SpeechError::LanguageFolderError(s.clone()),
            SpeechError::ConfigurationError => SpeechError::ConfigurationError,
            SpeechError::ProtocolDecodeError => SpeechError::ProtocolDecodeError,
            SpeechError::EngineFatalError => SpeechError::EngineFatalError,
            SpeechError::InvalidStateError => SpeechError::InvalidStateError,
            SpeechError::Unknown => SpeechError::Unknown,
        }
    }
}

} // verus!
