use vstd::prelude::*;

verus! {

/// Mathematical image of a [`KeyboardSenderError`]: the same variants over
/// sequences of characters instead of heap-allocated strings.
pub ghost enum ErrorSpec {
    ParseError(Seq<char>),
    UnsupportedKey(Seq<char>),
    UnsupportedModifier(Seq<char>),
    InvalidDuration(Seq<char>),
    InvalidWindowHandle(Seq<char>),
    CommandParseError(Seq<char>),
    FeatureNotEnabled(Seq<char>),
    WindowsError,
}

/// Everything that can go wrong while interpreting a command, a name, or a
/// parameter, or while delivering the resulting events.
///
/// Each parsing variant carries the offending input verbatim, for diagnostics.
#[derive(Debug)]
pub enum KeyboardSenderError {
    /// A shortcut or freeform string is malformed.
    ParseError(String),
    /// A key name that the name table does not recognize.
    UnsupportedKey(String),
    /// A modifier name that is not recognized.
    UnsupportedModifier(String),
    /// A duration string that does not match `<digits>("ms"|"s")`, or whose
    /// magnitude does not fit.
    InvalidDuration(String),
    /// A window-handle string that is not a well-formed integer.
    InvalidWindowHandle(String),
    /// A structurally valid command that is semantically incomplete.
    CommandParseError(String),
    /// A delivery backend that this build does not provide.
    FeatureNotEnabled(String),
    /// A failure reported by the platform's input subsystem.
    WindowsError,
}

impl View for KeyboardSenderError {
    type V = ErrorSpec;

    open spec fn view(&self) -> ErrorSpec {
        match self {
            KeyboardSenderError::ParseError(s) => ErrorSpec::ParseError(s@),
            KeyboardSenderError::UnsupportedKey(s) => ErrorSpec::UnsupportedKey(s@),
            KeyboardSenderError::UnsupportedModifier(s) => ErrorSpec::UnsupportedModifier(s@),
            KeyboardSenderError::InvalidDuration(s) => ErrorSpec::InvalidDuration(s@),
            KeyboardSenderError::InvalidWindowHandle(s) => ErrorSpec::InvalidWindowHandle(s@),
            KeyboardSenderError::CommandParseError(s) => ErrorSpec::CommandParseError(s@),
            KeyboardSenderError::FeatureNotEnabled(s) => ErrorSpec::FeatureNotEnabled(s@),
            KeyboardSenderError::WindowsError => ErrorSpec::WindowsError,
        }
    }
}

} // verus!
