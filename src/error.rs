use vstd::prelude::*;
use vstd::string::*;

verus! {

/// The kind of an error, with the detail that goes with it.
#[derive(Debug, PartialEq, Eq, Clone)]
#[non_exhaustive]
pub enum ErrorKind {
    IoError(String),
    ParseError(String),
    PatternError(String),
    GlobError(String),
    MissingCommand(String),
    PathBufConversionError(String),
    MalformedManifest(String),
}

/// An error with its kind and a message that gives its context.
#[derive(Debug, PartialEq, Eq, Clone)]
pub struct Error {
    pub kind: ErrorKind,
    pub message: String,
}

/// What an `ErrorKind` holds, as text.
pub enum KindView {
    Io(Seq<char>),
    Parse(Seq<char>),
    Pattern(Seq<char>),
    Glob(Seq<char>),
    MissingCommand(Seq<char>),
    PathConversion(Seq<char>),
    Malformed(Seq<char>),
}

/// What an `Error` holds, as text.
pub struct ErrorView {
    pub kind: KindView,
    pub message: Seq<char>,
}

impl View for ErrorKind {
    type V = KindView;

    open spec fn view(&self) -> KindView {
        match self {
            ErrorKind::IoError(s) => KindView::Io(s@),
            ErrorKind::ParseError(s) => KindView::Parse(s@),
            ErrorKind::PatternError(s) => KindView::Pattern(s@),
            ErrorKind::GlobError(s) => KindView::Glob(s@),
            ErrorKind::MissingCommand(s) => KindView::MissingCommand(s@),
            ErrorKind::PathBufConversionError(s) => KindView::PathConversion(s@),
            ErrorKind::MalformedManifest(s) => KindView::Malformed(s@),
        }
    }
}

impl View for Error {
    type V = ErrorView;

    open spec fn view(&self) -> ErrorView {
        ErrorView { kind: self.kind@, message: self.message@ }
    }
}

/// `"` as text.
pub open spec fn quote() -> Seq<char> {
    seq!['"']
}

/// The text an error is reported with: the message and the detail for most
/// kinds; a sentence of its own for a missing command and a malformed manifest.
pub open spec fn error_text(e: ErrorView) -> Seq<char> {
    match e.kind {
        KindView::MissingCommand(c) => "Command "@ + quote() + c + quote() + " not found in Cargo.toml"@,
        KindView::Malformed(path) => "Malformed manifest "@ + quote() + path + quote() + ": "@ + e.message,
        KindView::Io(d) => e.message + ": "@ + d,
        KindView::Parse(d) => e.message + ": "@ + d,
        KindView::Pattern(d) => e.message + ": "@ + d,
        KindView::Glob(d) => e.message + ": "@ + d,
        KindView::PathConversion(d) => e.message + ": "@ + d,
    }
}

/// The error for a command that a scope does not declare.
pub open spec fn missing_command(command: Seq<char>) -> ErrorView {
    ErrorView { kind: KindView::MissingCommand(command), message: Seq::empty() }
}

/// The error for a section of a manifest that does not have the expected shape.
pub open spec fn malformed(detail: Seq<char>, message: Seq<char>) -> ErrorView {
    ErrorView { kind: KindView::Malformed(detail), message }
}

/// Whether an outcome of the library is the outcome `s` of its model.
pub open spec fn outcome_is<T: View>(r: Result<T, Error>, s: Result<T::V, ErrorView>) -> bool {
    match r {
        Ok(x) => s == Ok::<T::V, ErrorView>(x@),
        Err(e) => s == Err::<T::V, ErrorView>(e@),
    }
}

impl Error {
    /// The error for a section of a manifest that does not have the expected shape.
    pub fn malformed(detail: &str, message: &str) -> (r: Error)
        ensures
            r@ == malformed(detail@, message@),
    {
        Error { kind: ErrorKind::MalformedManifest(detail.to_owned()), message: message.to_owned() }
    }

    /// The error for a command that a scope does not declare.
    pub fn missing_command(command: &str) -> (r: Error)
        ensures
            r@ == missing_command(command@),
    {
        Error { kind: ErrorKind::MissingCommand(command.to_owned()), message: String::new() }
    }

    /// The text this error is reported with.
    pub fn to_string(&self) -> (r: String)
        ensures
            r@ == error_text(self@),
    {
        match &self.kind {
            ErrorKind::MissingCommand(c) => {
                let mut r = String::from_str("Command \"");
                r.append(c.as_str());
                r.append("\" not found in Cargo.toml");
                proof {
                    reveal_strlit("Command \"");
                    reveal_strlit("\" not found in Cargo.toml");
                    reveal_strlit("Command ");
                    reveal_strlit(" not found in Cargo.toml");
                    assert(r@ =~= error_text(self@));
                }
                r
            },
            ErrorKind::MalformedManifest(path) => {
                let mut r = String::from_str("Malformed manifest \"");
                r.append(path.as_str());
                r.append("\": ");
                r.append(self.message.as_str());
                proof {
                    reveal_strlit("Malformed manifest \"");
                    reveal_strlit("\": ");
                    reveal_strlit("Malformed manifest ");
                    reveal_strlit(": ");
                    assert(r@ =~= error_text(self@));
                }
                r
            },
            ErrorKind::IoError(d) | ErrorKind::ParseError(d) | ErrorKind::PatternError(d)
            | ErrorKind::GlobError(d) | ErrorKind::PathBufConversionError(d) => {
                let mut r = self.message.clone();
                r.append(": ");
                r.append(d.as_str());
                r
            },
        }
    }
}

} // verus!
