//! Saving a file: which requests may write, and the steps of the write.

use vstd::prelude::*;
use vstd::string::*;
use crate::auth::{authorize, credential_matches, gate_refusal, secret_view};
use crate::error::{AppError, ErrorKind, Response, STATUS_OK};
use crate::path::{is_safe_path, parent_directory, parent_of, path_rejection, validate_header, ValidatedPath};
use crate::request::{HeaderField, TransferRequest};
use crate::steps::{FsAction, FsStep};

verus! {

/// An accepted save: where to write, the directory that must exist first,
/// and what to write.
pub struct SavePlanView {
    pub target: Seq<char>,
    pub parent: Seq<char>,
    pub content: Seq<u8>,
}

/// A save that passed the credential check and the path checks. Only `accept_save`
/// makes one.
pub struct SavePlan {
    target: ValidatedPath,
    parent: String,
    content: Vec<u8>,
}

impl View for SavePlan {
    type V = SavePlanView;

    closed spec fn view(&self) -> SavePlanView {
        SavePlanView { target: self.target@, parent: self.parent@, content: self.content@ }
    }
}

/// What the host reports after each step of a save.
#[derive(Debug, PartialEq, Eq)]
pub enum SaveEvent {
    /// Nothing has been done yet.
    Start,
    /// Whether the parent directory exists.
    ParentChecked(bool),
    /// The parent directory was created.
    ParentCreated,
    /// Creating the parent directory failed with this error text.
    ParentCreateFailed(String),
    /// The file was written.
    Written,
    /// Writing the file failed with this error text.
    WriteFailed(String),
}

/// How a save request is answered before any filesystem work: refused by
/// the credential check, refused for its path, refused for a path with no parent
/// directory, or accepted as a plan.
pub open spec fn spec_accept_save(
    configured: Option<Seq<char>>,
    authorization: Option<Vec<u8>>,
    path: HeaderField,
    content: Seq<u8>,
) -> Result<SavePlanView, (ErrorKind, Seq<char>)> {
    match gate_refusal(configured, authorization) {
        Some(f) => Err(f),
        None => match path_rejection(path) {
            Some(m) => Err((ErrorKind::InvalidRequest, m)),
            None => match parent_directory(path->Text_0@) {
                None => Err((ErrorKind::FileOperation, "Invalid file path"@)),
                Some(d) => Ok(SavePlanView { target: path->Text_0@, parent: d, content }),
            },
        },
    }
}

/// The step that follows each report of the host during a save.
pub open spec fn spec_save_step(plan: SavePlanView, event: SaveEvent) -> FsStep {
    match event {
        SaveEvent::Start => FsStep::CheckDirExists(plan.parent),
        SaveEvent::ParentChecked(true) => FsStep::WriteFile(plan.target),
        SaveEvent::ParentChecked(false) => FsStep::CreateDirAll(plan.parent),
        SaveEvent::ParentCreated => FsStep::WriteFile(plan.target),
        SaveEvent::ParentCreateFailed(e) => FsStep::Failed(
            ErrorKind::FileOperation,
            "Failed to create directory: "@ + e@,
        ),
        SaveEvent::Written => FsStep::Done("File saved successfully"@),
        SaveEvent::WriteFailed(e) => FsStep::Failed(
            ErrorKind::FileOperation,
            "Failed to write file: "@ + e@,
        ),
    }
}

impl SavePlan {
    #[verifier::type_invariant]
    spec fn inv(&self) -> bool {
        parent_directory(self.target@) == Some(self.parent@)
    }

    /// The file to write.
    pub fn target(&self) -> (r: &str)
        ensures
            r@ == self@.target,
            is_safe_path(r@),
    {
        self.target.as_str()
    }

    /// The bytes to write.
    pub fn content(&self) -> (r: &Vec<u8>)
        ensures
            r@ == self@.content,
    {
        &self.content
    }
}

/// Admits a save request: the credential check first, then the path header, then the
/// path's parent directory. Nothing touches the filesystem before this
/// returns a plan.
pub fn accept_save(configured: Option<&String>, request: TransferRequest) -> (r: Result<
    SavePlan,
    AppError,
>)
    ensures
        match r {
            Ok(plan) => spec_accept_save(
                secret_view(configured),
                request.authorization,
                request.path,
                request.content@,
            ) == Ok::<SavePlanView, (ErrorKind, Seq<char>)>(plan@),
            Err(e) => spec_accept_save(
                secret_view(configured),
                request.authorization,
                request.path,
                request.content@,
            ) == Err::<SavePlanView, (ErrorKind, Seq<char>)>(e.spec_failure()),
        },
{
    let TransferRequest { authorization, path, content } = request;
    match authorize(&authorization, configured) {
        Ok(()) => {},
        Err(e) => {
            return Err(AppError::Middleware(e));
        },
    }
    let target = match validate_header(&path) {
        Ok(v) => v,
        Err(e) => {
            return Err(e);
        },
    };
    let parent = require_parent(parent_of(target.as_str()));
    match parent {
        Ok(parent) => Ok(SavePlan { target, parent, content }),
        Err(e) => Err(e),
    }
}

/// The directory a save must make sure of, given what `Path::parent` found:
/// a path with no parent directory cannot be written.
pub fn require_parent(parent: Option<String>) -> (r: Result<String, AppError>)
    ensures
        match parent {
            Some(d) => r matches Ok(q) && q@ == d@,
            None => r matches Err(AppError::FileOperation(m)) && m@ == "Invalid file path"@,
        },
{
    match parent {
        Some(d) => Ok(d),
        None => Err(AppError::FileOperation(String::from_str("Invalid file path"))),
    }
}

/// The next step of a save, given what the host reported last.
pub fn next_save_action(plan: &SavePlan, event: &SaveEvent) -> (r: FsAction)
    ensures
        r@ == spec_save_step(plan@, *event),
{
    proof {
        use_type_invariant(plan);
    }
    match event {
        SaveEvent::Start => FsAction::CheckDirExists(plan.parent.clone()),
        SaveEvent::ParentChecked(true) => FsAction::WriteFile(plan.target.as_str().to_string()),
        SaveEvent::ParentChecked(false) => FsAction::CreateDirAll(plan.parent.clone()),
        SaveEvent::ParentCreated => FsAction::WriteFile(plan.target.as_str().to_string()),
        SaveEvent::ParentCreateFailed(e) => FsAction::Finish(
            Err(
                AppError::FileOperation(
                    String::from_str("Failed to create directory: ").concat(e.as_str()),
                ),
            ),
        ),
        SaveEvent::Written => FsAction::Finish(Ok(String::from_str("File saved successfully"))),
        SaveEvent::WriteFailed(e) => FsAction::Finish(
            Err(AppError::FileOperation(String::from_str("Failed to write file: ").concat(e.as_str()))),
        ),
    }
}

/// The answer to a save: a plain confirmation, or the failure's response.
pub fn save_response(outcome: &Result<String, AppError>) -> (r: Response)
    ensures
        outcome is Ok ==> r.status == STATUS_OK && r.body@ == "Successfully saved file"@,
        outcome matches Err(e) ==> r.status == e.spec_kind().spec_status() && r.body@
            == e.spec_outward_body(),
{
    match outcome {
        Ok(_) => Response { status: STATUS_OK, body: String::from_str("Successfully saved file") },
        Err(e) => e.to_response(),
    }
}

/// A save request that passes the credential check and names a safe path with a parent
/// directory is accepted with the request's own content; every write that
/// its steps ask for is at the request's own path, whether the parent
/// directory was there or had to be created, and a completed write ends in
/// the confirmation.
pub proof fn save_writes_content_at_path(
    secret: Seq<char>,
    authorization: Option<Vec<u8>>,
    path: String,
    content: Seq<u8>,
)
    requires
        credential_matches(authorization, secret),
        is_safe_path(path@),
        parent_directory(path@) is Some,
    ensures
        spec_accept_save(Some(secret), authorization, HeaderField::Text(path), content) matches Ok(
            plan,
        ) && {
            &&& plan.target == path@
            &&& plan.content == content
            &&& spec_save_step(plan, SaveEvent::ParentChecked(true)) == FsStep::WriteFile(path@)
            &&& spec_save_step(plan, SaveEvent::ParentCreated) == FsStep::WriteFile(path@)
            &&& forall|event: SaveEvent| #[trigger]
                spec_save_step(plan, event) matches FsStep::WriteFile(t) ==> t == path@
            &&& spec_save_step(plan, SaveEvent::Written) == FsStep::Done(
                "File saved successfully"@,
            )
        },
{
}

} // verus!
