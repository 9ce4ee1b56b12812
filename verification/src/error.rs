//! The ways in which a shader operation fails.

use crate::driver::ShaderKind;
use vstd::prelude::*;

verus! {

/// Why a shader operation failed.
#[derive(Clone, Debug, PartialEq, Eq)]
pub enum ShaderError {
    /// The source file at `path` could not be read.
    SourceUnreadable { path: String },
    /// The driver rejected the source of a `kind` shader; `log` is its
    /// diagnostic log.
    CompileFailed { kind: ShaderKind, log: String },
    /// The program could not be linked; `log` says why.
    LinkFailed { log: String },
    /// The linked program `program` has no uniform called `name`.
    RequiredUniformMissing { name: String, program: String },
    /// The linked program `program` has no vertex attribute called `name`.
    RequiredAttributeMissing { name: String, program: String },
    /// The host answered a call with a reply of the wrong form.
    UnexpectedReply,
}

/// What a `ShaderError` is in specifications.
pub enum ShaderErrorView {
    SourceUnreadable { path: Seq<char> },
    CompileFailed { kind: ShaderKind, log: Seq<char> },
    LinkFailed { log: Seq<char> },
    RequiredUniformMissing { name: Seq<char>, program: Seq<char> },
    RequiredAttributeMissing { name: Seq<char>, program: Seq<char> },
    UnexpectedReply,
}

impl View for ShaderError {
    type V = ShaderErrorView;

    open spec fn view(&self) -> ShaderErrorView {
        match *self {
            ShaderError::SourceUnreadable { path } => ShaderErrorView::SourceUnreadable {
                path: path@,
            },
            ShaderError::CompileFailed { kind, log } => ShaderErrorView::CompileFailed {
                kind,
                log: log@,
            },
            ShaderError::LinkFailed { log } => ShaderErrorView::LinkFailed { log: log@ },
            ShaderError::RequiredUniformMissing { name, program } => {
                ShaderErrorView::RequiredUniformMissing { name: name@, program: program@ }
            },
            ShaderError::RequiredAttributeMissing { name, program } => {
                ShaderErrorView::RequiredAttributeMissing { name: name@, program: program@ }
            },
            ShaderError::UnexpectedReply => ShaderErrorView::UnexpectedReply,
        }
    }
}

/// The word by which messages call a shader kind.
pub open spec fn kind_word(kind: ShaderKind) -> Seq<char> {
    match kind {
        ShaderKind::Vertex => "vertex"@,
        ShaderKind::Fragment => "fragment"@,
    }
}

impl ShaderErrorView {
    /// The text shown to a person for this error.
    pub open spec fn message(self) -> Seq<char> {
        match self {
            ShaderErrorView::SourceUnreadable { path } => "Failed read of file "@ + path,
            ShaderErrorView::CompileFailed { kind, log } => "While compiling "@ + kind_word(kind)
                + " "@ + log,
            ShaderErrorView::LinkFailed { log } => log,
            ShaderErrorView::RequiredUniformMissing { name, program } => {
                "Could not find uniform \""@ + name + "\" in shader program \""@ + program + "\""@
            },
            ShaderErrorView::RequiredAttributeMissing { name, program } => {
                "Could not find attribute \""@ + name + "\" in shader program \""@ + program
                    + "\""@
            },
            ShaderErrorView::UnexpectedReply => "The host answered with a reply of the wrong form"@,
        }
    }
}

impl ShaderKind {
    /// The word by which messages call this kind: `vertex` or `fragment`.
    pub fn word(self) -> (w: &'static str)
        ensures
            w@ == kind_word(self),
    {
        match self {
            ShaderKind::Vertex => "vertex",
            ShaderKind::Fragment => "fragment",
        }
    }
}

impl ShaderError {
    /// Renders the error as the text shown to a person.
    pub fn message(&self) -> (text: String)
        ensures
            text@ == self@.message(),
    {
        match self {
            ShaderError::SourceUnreadable { path } => {
                String::from_str("Failed read of file ").concat(path.as_str())
            },
            ShaderError::CompileFailed { kind, log } => {
                String::from_str("While compiling ").concat(kind.word()).concat(" ").concat(
                    log.as_str(),
                )
            },
            ShaderError::LinkFailed { log } => log.clone(),
            ShaderError::RequiredUniformMissing { name, program } => {
                String::from_str("Could not find uniform \"").concat(name.as_str()).concat(
                    "\" in shader program \"",
                ).concat(program.as_str()).concat("\"")
            },
            ShaderError::RequiredAttributeMissing { name, program } => {
                String::from_str("Could not find attribute \"").concat(name.as_str()).concat(
                    "\" in shader program \"",
                ).concat(program.as_str()).concat("\"")
            },
            ShaderError::UnexpectedReply => {
                String::from_str("The host answered with a reply of the wrong form")
            },
        }
    }
}

} // verus!
