//! Removing a file or a directory tree: which requests may remove, and the
//! steps of the removal.

use vstd::prelude::*;
use vstd::string::*;
use crate::auth::{authorize, credential_matches, gate_refusal, secret_view};
use crate::error::{AppError, ErrorKind, Response, STATUS_OK};
use crate::path::{check_header, delete_path_rejection, is_safe_path, ValidatedPath};
use crate::request::{DeleteRequest, HeaderField};
use crate::steps::{FsAction, FsStep};

verus! {

/// A removal that passed the credential check and the path checks. Only `accept_delete`
/// makes one.
pub struct RemovePlan {
    target: ValidatedPath,
}

impl View for RemovePlan {
    type V = Seq<char>;

    /// The path to remove.
    closed spec fn view(&self) -> Seq<char> {
        self.target@
    }
}

/// What the host reports after each step of a removal.
#[derive(Debug, PartialEq, Eq)]
pub enum RemoveEvent {
    /// Nothing has been done yet.
    Start,
    /// The target exists; whether it is a directory.
    Inspected { is_dir: bool },
    /// The target cannot be inspected (it does not exist, or is out of
    /// reach); the error text.
    InspectFailed(String),
    /// The target was removed; whether it was a directory tree.
    Removed { was_dir: bool },
    /// Removing failed with this error text.
    RemoveFailed(String),
}

/// How a delete request is answered before any filesystem work: refused by
/// the credential check, refused for its path, or accepted with the path to remove.
pub open spec fn spec_accept_delete(
    configured: Option<Seq<char>>,
    authorization: Option<Vec<u8>>,
    path: HeaderField,
) -> Result<Seq<char>, (ErrorKind, Seq<char>)> {
    match gate_refusal(configured, authorization) {
        Some(f) => Err(f),
        None => match delete_path_rejection(path) {
            Some(m) => Err((ErrorKind::InvalidRequest, m)),
            None => Ok(path->Text_0@),
        },
    }
}

/// The confirmation of a removal.
pub open spec fn removed_text(was_dir: bool) -> Seq<char> {
    if was_dir {
        "Successfully removed directory and its contents"@
    } else {
        "Successfully removed file"@
    }
}

/// The step that follows each report of the host during a removal.
pub open spec fn spec_remove_step(target: Seq<char>, event: RemoveEvent) -> FsStep {
    match event {
        RemoveEvent::Start => FsStep::ReadMetadata(target),
        RemoveEvent::Inspected { is_dir: true } => FsStep::RemoveDirAll(target),
        RemoveEvent::Inspected { is_dir: false } => FsStep::RemoveFile(target),
        RemoveEvent::InspectFailed(e) => FsStep::Failed(
            ErrorKind::FileOperation,
            "Failed to get file metadata: "@ + e@,
        ),
        RemoveEvent::Removed { was_dir } => FsStep::Done(removed_text(was_dir)),
        RemoveEvent::RemoveFailed(e) => FsStep::Failed(
            ErrorKind::FileOperation,
            "Failed to remove: "@ + e@,
        ),
    }
}

impl RemovePlan {
    /// The path to remove.
    pub fn target(&self) -> (r: &str)
        ensures
            r@ == self@,
            is_safe_path(r@),
    {
        self.target.as_str()
    }
}

/// Admits a delete request: the credential check first, then the path header. Nothing
/// touches the filesystem before this returns a plan.
pub fn accept_delete(configured: Option<&String>, request: DeleteRequest) -> (r: Result<
    RemovePlan,
    AppError,
>)
    ensures
        match r {
            Ok(plan) => spec_accept_delete(
                secret_view(configured),
                request.authorization,
                request.path,
            ) == Ok::<Seq<char>, (ErrorKind, Seq<char>)>(plan@),
            Err(e) => spec_accept_delete(
                secret_view(configured),
                request.authorization,
                request.path,
            ) == Err::<Seq<char>, (ErrorKind, Seq<char>)>(e.spec_failure()),
        },
{
    match authorize(&request.authorization, configured) {
        Ok(()) => {},
        Err(e) => {
            return Err(AppError::Middleware(e));
        },
    }
    match check_header(&request.path) {
        Ok(target) => Ok(RemovePlan { target }),
        Err(p) => Err(AppError::InvalidRequest(p.delete_text())),
    }
}

/// The next step of a removal, given what the host reported last.
pub fn next_remove_action(plan: &RemovePlan, event: &RemoveEvent) -> (r: FsAction)
    ensures
        r@ == spec_remove_step(plan@, *event),
{
    match event {
        RemoveEvent::Start => FsAction::ReadMetadata(plan.target.as_str().to_string()),
        RemoveEvent::Inspected { is_dir: true } => FsAction::RemoveDirAll(
            plan.target.as_str().to_string(),
        ),
        RemoveEvent::Inspected { is_dir: false } => FsAction::RemoveFile(
            plan.target.as_str().to_string(),
        ),
        RemoveEvent::InspectFailed(e) => FsAction::Finish(
            Err(
                AppError::FileOperation(
                    String::from_str("Failed to get file metadata: ").concat(e.as_str()),
                ),
            ),
        ),
        RemoveEvent::Removed { was_dir } => {
            let text = if *was_dir {
                String::from_str("Successfully removed directory and its contents")
            } else {
                String::from_str("Successfully removed file")
            };
            FsAction::Finish(Ok(text))
        },
        RemoveEvent::RemoveFailed(e) => FsAction::Finish(
            Err(AppError::FileOperation(String::from_str("Failed to remove: ").concat(e.as_str()))),
        ),
    }
}

/// The answer to a delete: the confirmation itself, or the failure's
/// response.
pub fn delete_response(outcome: &Result<String, AppError>) -> (r: Response)
    ensures
        outcome matches Ok(m) ==> r.status == STATUS_OK && r.body@ == m@,
        outcome matches Err(e) ==> r.status == e.spec_kind().spec_status() && r.body@
            == e.spec_outward_body(),
{
    match outcome {
        Ok(m) => Response { status: STATUS_OK, body: m.clone() },
        Err(e) => e.to_response(),
    }
}

/// A delete request that passes the credential check and names a safe path is accepted
/// for that path. Where the path is a directory the whole tree under it is
/// removed, where it is a file only the file, and where it cannot be
/// inspected (it does not exist) the removal fails as a file operation.
pub proof fn remove_follows_target(
    secret: Seq<char>,
    authorization: Option<Vec<u8>>,
    path: String,
    error: String,
)
    requires
        credential_matches(authorization, secret),
        is_safe_path(path@),
    ensures
        spec_accept_delete(Some(secret), authorization, HeaderField::Text(path)) == Ok::<
            Seq<char>,
            (ErrorKind, Seq<char>),
        >(path@),
        spec_remove_step(path@, RemoveEvent::Start) == FsStep::ReadMetadata(path@),
        spec_remove_step(path@, RemoveEvent::Inspected { is_dir: true }) == FsStep::RemoveDirAll(
            path@,
        ),
        spec_remove_step(path@, RemoveEvent::Inspected { is_dir: false }) == FsStep::RemoveFile(
            path@,
        ),
        spec_remove_step(path@, RemoveEvent::InspectFailed(error)) matches FsStep::Failed(
            ErrorKind::FileOperation,
            _,
        ),
        spec_remove_step(path@, RemoveEvent::Removed { was_dir: true }) == FsStep::Done(
            "Successfully removed directory and its contents"@,
        ),
{
}

} // verus!
