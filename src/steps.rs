//! The filesystem steps that the save and remove decisions ask the host for.

use vstd::prelude::*;
use crate::error::{AppError, ErrorKind};

verus! {

/// One step for the host to take, or the end of the work.
#[derive(Debug, PartialEq, Eq)]
pub enum FsAction {
    /// Report whether this directory exists.
    CheckDirExists(String),
    /// Create this directory and every missing ancestor.
    CreateDirAll(String),
    /// Write the plan's content to this file, replacing what was there.
    WriteFile(String),
    /// Report whether this path is a directory, or that it cannot be inspected.
    ReadMetadata(String),
    /// Remove this directory and everything under it.
    RemoveDirAll(String),
    /// Remove this file.
    RemoveFile(String),
    /// The work is over: a confirmation, or the failure it ended in.
    Finish(Result<String, AppError>),
}

/// A step with its texts as character sequences and a failure as its kind
/// and text.
pub enum FsStep {
    CheckDirExists(Seq<char>),
    CreateDirAll(Seq<char>),
    WriteFile(Seq<char>),
    ReadMetadata(Seq<char>),
    RemoveDirAll(Seq<char>),
    RemoveFile(Seq<char>),
    Done(Seq<char>),
    Failed(ErrorKind, Seq<char>),
}

impl FsStep {
    /// Whether this step changes the filesystem.
    pub open spec fn mutates(self) -> bool {
        self is CreateDirAll || self is WriteFile || self is RemoveDirAll || self is RemoveFile
    }
}

impl View for FsAction {
    type V = FsStep;

    open spec fn view(&self) -> FsStep {
        match self {
            FsAction::CheckDirExists(p) => FsStep::CheckDirExists(p@),
            FsAction::CreateDirAll(p) => FsStep::CreateDirAll(p@),
            FsAction::WriteFile(p) => FsStep::WriteFile(p@),
            FsAction::ReadMetadata(p) => FsStep::ReadMetadata(p@),
            FsAction::RemoveDirAll(p) => FsStep::RemoveDirAll(p@),
            FsAction::RemoveFile(p) => FsStep::RemoveFile(p@),
            FsAction::Finish(Ok(m)) => FsStep::Done(m@),
            FsAction::Finish(Err(e)) => FsStep::Failed(e.spec_kind(), e.spec_detail()),
        }
    }
}

} // verus!
