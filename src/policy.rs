//! What holds of saves and removals alike before any filesystem work.

use vstd::prelude::*;
use crate::auth::credential_matches;
use crate::error::ErrorKind;
use crate::path::{has_parent_component, is_absolute_path};
use crate::remove::spec_accept_delete;
use crate::request::HeaderField;
use crate::save::spec_accept_save;

verus! {

/// With a secret configured, a credential that is not the secret (or none at
/// all) ends every save and every delete as unauthorised, whatever the path
/// and content.
pub proof fn wrong_credential_refused(
    secret: Seq<char>,
    presented: Option<Vec<u8>>,
    path: HeaderField,
    content: Seq<u8>,
)
    requires
        !credential_matches(presented, secret),
    ensures
        spec_accept_save(Some(secret), presented, path, content) == Err::<
            crate::save::SavePlanView,
            (ErrorKind, Seq<char>),
        >((ErrorKind::Unauthorized, Seq::empty())),
        spec_accept_delete(Some(secret), presented, path) == Err::<
            Seq<char>,
            (ErrorKind, Seq<char>),
        >((ErrorKind::Unauthorized, Seq::empty())),
{
}

/// An absolute path, or one with a `..` component, ends an authorised save
/// and an authorised delete as an invalid request, so no plan, and no
/// filesystem step, comes of it.
pub proof fn unsafe_path_refused(
    secret: Seq<char>,
    authorization: Option<Vec<u8>>,
    path: String,
    content: Seq<u8>,
)
    requires
        credential_matches(authorization, secret),
        is_absolute_path(path@) || has_parent_component(path@),
    ensures
        spec_accept_save(Some(secret), authorization, HeaderField::Text(path), content) matches Err(
            (ErrorKind::InvalidRequest, _),
        ),
        spec_accept_delete(Some(secret), authorization, HeaderField::Text(path)) matches Err(
            (ErrorKind::InvalidRequest, _),
        ),
{
}

} // verus!
