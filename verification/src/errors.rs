//! The layered error taxonomy: `ParseError` classifies validation
//! failures of the document text, and `ConfigError` wraps every failure
//! of a whole load — the file could not be opened, could not be read, or
//! did not validate — under a uniform, terse display surface.

use vstd::prelude::*;
use vstd::string::StringExecFns;

verus! {

/// Why a document failed validation.  Each variant carries the name of
/// the offending field, the rejected discriminator value, or the reader's
/// own diagnostic for text that is not well-formed.
#[derive(Clone, PartialEq, Debug)]
pub enum ParseError {
    /// The text is not a well-formed document; the payload is the
    /// reader's diagnostic.
    Syntax(String),
    /// A field name that the schema does not declare, at any nesting level.
    UnknownField(String),
    /// A required field that the document omits.
    MissingField(String),
    /// A declared field whose value has the wrong shape.
    InvalidType(String),
    /// A discriminator or enumeration value outside the accepted set.
    UnknownVariant(String),
}

/// Mathematical model of `ParseError`.
pub enum SpecParseError {
    Syntax(Seq<char>),
    UnknownField(Seq<char>),
    MissingField(Seq<char>),
    InvalidType(Seq<char>),
    UnknownVariant(Seq<char>),
}

impl DeepView for ParseError {
    type V = SpecParseError;

    open spec fn deep_view(&self) -> SpecParseError {
        match self {
            ParseError::Syntax(m) => SpecParseError::Syntax(m@),
            ParseError::UnknownField(f) => SpecParseError::UnknownField(f@),
            ParseError::MissingField(f) => SpecParseError::MissingField(f@),
            ParseError::InvalidType(f) => SpecParseError::InvalidType(f@),
            ParseError::UnknownVariant(v) => SpecParseError::UnknownVariant(v@),
        }
    }
}

/// The diagnostic text of `e`.  An unknown field, a missing field, a
/// wrong type and a rejected discriminator each name the offender
/// between backquotes.
pub open spec fn spec_parse_error_message(e: SpecParseError) -> Seq<char> {
    match e {
        SpecParseError::Syntax(m) => m,
        SpecParseError::UnknownField(f) => "unknown field `"@ + f + "`"@,
        SpecParseError::MissingField(f) => "missing field `"@ + f + "`"@,
        SpecParseError::InvalidType(f) => "invalid type for field `"@ + f + "`"@,
        SpecParseError::UnknownVariant(v) => "unknown variant `"@ + v + "`"@,
    }
}

impl ParseError {
    /// The diagnostic text: it names the unknown or missing field, the
    /// wrongly typed field, or the rejected discriminator value.
    pub fn message(&self) -> (r: String)
        ensures
            r@ == spec_parse_error_message(self.deep_view()),
    {
        match self {
            ParseError::Syntax(m) => m.clone(),
            ParseError::UnknownField(f) => "unknown field `".to_owned().concat(f.as_str()).concat(
                "`",
            ),
            ParseError::MissingField(f) => "missing field `".to_owned().concat(f.as_str()).concat(
                "`",
            ),
            ParseError::InvalidType(f) => "invalid type for field `".to_owned().concat(
                f.as_str(),
            ).concat("`"),
            ParseError::UnknownVariant(v) => "unknown variant `".to_owned().concat(
                v.as_str(),
            ).concat("`"),
        }
    }
}

/// The three distinguishable root causes of a failed load.  The first two
/// carry the text of the underlying I/O failure; the third carries the
/// classified validation failure.
#[derive(Clone, PartialEq, Debug)]
pub enum ConfigErrorKind {
    /// Opening the path failed; nothing was parsed.
    FileNotFound(String),
    /// Reading after a successful open failed.
    Misread(String),
    /// The text did not validate against the schema.
    Parse(ParseError),
}

/// Mathematical model of `ConfigErrorKind`.
pub enum SpecConfigErrorKind {
    FileNotFound(Seq<char>),
    Misread(Seq<char>),
    Parse(SpecParseError),
}

impl DeepView for ConfigErrorKind {
    type V = SpecConfigErrorKind;

    open spec fn deep_view(&self) -> SpecConfigErrorKind {
        match self {
            ConfigErrorKind::FileNotFound(m) => SpecConfigErrorKind::FileNotFound(m@),
            ConfigErrorKind::Misread(m) => SpecConfigErrorKind::Misread(m@),
            ConfigErrorKind::Parse(e) => SpecConfigErrorKind::Parse(e.deep_view()),
        }
    }
}

/// A failed load, classified.
#[derive(Clone, PartialEq, Debug)]
pub struct ConfigError {
    pub kind: ConfigErrorKind,
}

/// Mathematical model of `ConfigError`.
pub struct SpecConfigError {
    pub kind: SpecConfigErrorKind,
}

impl DeepView for ConfigError {
    type V = SpecConfigError;

    open spec fn deep_view(&self) -> SpecConfigError {
        SpecConfigError { kind: self.kind.deep_view() }
    }
}

/// The terse, uniform display line of a failed load.
pub open spec fn spec_config_error_display(e: SpecConfigError) -> Seq<char> {
    match e.kind {
        SpecConfigErrorKind::FileNotFound(_) => "config issue: file not found"@,
        SpecConfigErrorKind::Misread(_) => "config issue: unable to read file"@,
        SpecConfigErrorKind::Parse(_) => "config issue: a parsing error"@,
    }
}

/// The diagnostic of the wrapped underlying failure of `e`.
pub open spec fn spec_config_error_cause(e: SpecConfigError) -> Seq<char> {
    match e.kind {
        SpecConfigErrorKind::FileNotFound(m) => m,
        SpecConfigErrorKind::Misread(m) => m,
        SpecConfigErrorKind::Parse(p) => spec_parse_error_message(p),
    }
}

impl ConfigError {
    /// Classifies a failure to open the path; `cause` is the underlying
    /// I/O diagnostic.
    pub fn file_not_found(cause: String) -> (r: ConfigError)
        ensures
            r.deep_view() == (SpecConfigError {
                kind: SpecConfigErrorKind::FileNotFound(cause@),
            }),
    {
        ConfigError { kind: ConfigErrorKind::FileNotFound(cause) }
    }

    /// Classifies a failure to read an opened file; `cause` is the
    /// underlying I/O diagnostic.
    pub fn misread(cause: String) -> (r: ConfigError)
        ensures
            r.deep_view() == (SpecConfigError { kind: SpecConfigErrorKind::Misread(cause@) }),
    {
        ConfigError { kind: ConfigErrorKind::Misread(cause) }
    }

    /// Classifies a validation failure of text that was read in full.
    pub fn parse(cause: ParseError) -> (r: ConfigError)
        ensures
            r.deep_view() == (SpecConfigError {
                kind: SpecConfigErrorKind::Parse(cause.deep_view()),
            }),
    {
        ConfigError { kind: ConfigErrorKind::Parse(cause) }
    }

    /// The terse summary line, suitable for direct presentation.
    pub fn display_string(&self) -> (r: String)
        ensures
            r@ == spec_config_error_display(self.deep_view()),
    {
        match &self.kind {
            ConfigErrorKind::FileNotFound(_) => "config issue: file not found".to_owned(),
            ConfigErrorKind::Misread(_) => "config issue: unable to read file".to_owned(),
            ConfigErrorKind::Parse(_) => "config issue: a parsing error".to_owned(),
        }
    }

    /// The diagnostic of the wrapped underlying failure, for verbose or
    /// log output.
    pub fn cause_string(&self) -> (r: String)
        ensures
            r@ == spec_config_error_cause(self.deep_view()),
    {
        match &self.kind {
            ConfigErrorKind::FileNotFound(m) => m.clone(),
            ConfigErrorKind::Misread(m) => m.clone(),
            ConfigErrorKind::Parse(p) => p.message(),
        }
    }
}

} // verus!
