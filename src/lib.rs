//! Core of a small file-receiving service: a shared-secret gate, a path
//! validator that keeps writes inside the storage root, the decision steps
//! of saving and removing files, and the mapping of failures to responses.
//!
//! Filesystem and network work is done by the host; this crate decides what
//! to do and what to answer, and states it in its contracts.

pub mod args;
pub mod auth;
pub mod error;
pub mod path;
pub mod policy;
pub mod remove;
pub mod request;
pub mod save;
pub mod steps;

pub use args::{ReceiverArgs, DEFAULT_PORT};
pub use auth::authorize;
pub use error::{AppError, ErrorKind, MiddlewareError, Response};
pub use path::{check_header, check_path, validate, validate_header, PathProblem, ValidatedPath};
pub use remove::{accept_delete, delete_response, next_remove_action, RemoveEvent, RemovePlan};
pub use request::{DeleteRequest, HeaderField, TransferRequest};
pub use save::{
    accept_save, next_save_action, require_parent, save_response, SaveEvent, SavePlan,
};
pub use steps::{FsAction, FsStep};
