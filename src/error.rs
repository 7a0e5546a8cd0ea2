use vstd::prelude::*;

verus! {

/// Errors raised while preparing or running the engine.
///
/// Every variant carries a message except the two process failures, which
/// carry the exit code of the child (`None` when it had no readable code).
#[derive(Debug)]
pub enum Error {
    Io(String),
    Manifest(String),
    InvalidGodotRunConfig(String),
    InvalidGdExtensionConfig(String),
    PathResolution(String),
    MissingField(String),
    GodotBinaryNotFound(String),
    GodotImportFailed(Option<i32>),
    GodotExecFailed(Option<i32>),
}

/// The mathematical form of an [`Error`]: messages as character sequences.
pub enum ErrorView {
    Io(Seq<char>),
    Manifest(Seq<char>),
    InvalidGodotRunConfig(Seq<char>),
    InvalidGdExtensionConfig(Seq<char>),
    PathResolution(Seq<char>),
    MissingField(Seq<char>),
    GodotBinaryNotFound(Seq<char>),
    GodotImportFailed(Option<i32>),
    GodotExecFailed(Option<i32>),
}

impl View for Error {
    type V = ErrorView;

    open spec fn view(&self) -> ErrorView {
        match self {
            Error::Io(m) => ErrorView::Io(m@),
            Error::Manifest(m) => ErrorView::Manifest(m@),
            Error::InvalidGodotRunConfig(m) => ErrorView::InvalidGodotRunConfig(m@),
            Error::InvalidGdExtensionConfig(m) => ErrorView::InvalidGdExtensionConfig(m@),
            Error::PathResolution(m) => ErrorView::PathResolution(m@),
            Error::MissingField(m) => ErrorView::MissingField(m@),
            Error::GodotBinaryNotFound(m) => ErrorView::GodotBinaryNotFound(m@),
            Error::GodotImportFailed(c) => ErrorView::GodotImportFailed(*c),
            Error::GodotExecFailed(c) => ErrorView::GodotExecFailed(*c),
        }
    }
}

/// Concatenates two pieces of text into a new string.
pub fn join_text(a: &str, b: &str) -> (r: String)
    ensures
        r@ == a@ + b@,
{
    let mut out = String::from_str(a);
    out.append(b);
    out
}

} // verus!
