//! The data that the Misskey service hands out and takes, and the addresses
//! of its endpoints. Sending the requests is left to the caller.
use vstd::prelude::*;
use vstd::string::StringExecFns;

verus! {

/// Where the service lives and the token that each request carries.
#[derive(Debug)]
pub struct MisskeyApiConfig {
    pub base_url: String,
    pub token: String,
}

/// A handle on the service, built from its configuration.
pub struct MisskeyApi<'a> {
    config: &'a MisskeyApiConfig,
}

/// The account that the token belongs to.
#[derive(Debug, Clone, PartialEq, Eq)]
pub struct User {
    pub id: String,
    pub pinned_note_ids: Vec<String>,
}

/// One note as the service lists it; `created_at` is an RFC 3339 text.
#[derive(Debug, Clone, PartialEq, Eq)]
pub struct Note {
    pub id: String,
    pub text: String,
    pub created_at: String,
    pub my_reaction: Option<String>,
}

impl Note {
    /// A field-by-field copy.
    pub fn copy(&self) -> (r: Note)
        ensures
            r == *self,
    {
        let my_reaction = match &self.my_reaction {
            Some(s) => Some(s.clone()),
            None => None,
        };
        Note {
            id: self.id.clone(),
            text: self.text.clone(),
            created_at: self.created_at.clone(),
            my_reaction,
        }
    }
}

/// What to ask the note listing for: the notes of `user_id` created at or
/// after `since_date` (epoch milliseconds), at most `limit` of them.
#[derive(Debug, Clone, PartialEq, Eq)]
pub struct ListNotesRequestParams {
    pub user_id: String,
    pub since_date: i64,
    pub limit: usize,
}

/// The body of a note listing request, token included.
#[derive(Debug, Clone, PartialEq, Eq)]
pub struct ListNotesReqBody {
    pub user_id: String,
    pub since_date: i64,
    pub limit: usize,
    pub i: String,
}

impl ListNotesReqBody {
    /// The request body for `params`, signed with `token`.
    pub fn new(params: ListNotesRequestParams, token: &String) -> (r: Self)
        ensures
            r.user_id == params.user_id,
            r.since_date == params.since_date,
            r.limit == params.limit,
            r.i == *token,
    {
        ListNotesReqBody {
            user_id: params.user_id,
            since_date: params.since_date,
            limit: params.limit,
            i: token.clone(),
        }
    }
}

impl<'a> MisskeyApi<'a> {
    /// A handle on the service that `config` describes.
    pub fn new(config: &'a MisskeyApiConfig) -> (r: Self)
        ensures
            r.config() == *config,
    {
        MisskeyApi { config }
    }
}

impl MisskeyApi<'_> {
    /// The configuration the handle was built from.
    pub closed spec fn config(&self) -> MisskeyApiConfig {
        *self.config
    }

    /// The address of `path` under the service's base address.
    pub fn endpoint(&self, path: &str) -> (r: String)
        ensures
            r@ == self.config().base_url@ + path@,
    {
        self.config.base_url.clone().concat(path)
    }

    /// The address that says who the token belongs to.
    pub fn identity_url(&self) -> (r: String)
        ensures
            r@ == self.config().base_url@ + "/i"@,
    {
        self.endpoint("/i")
    }

    /// The address that lists a user's notes.
    pub fn user_notes_url(&self) -> (r: String)
        ensures
            r@ == self.config().base_url@ + "/users/notes"@,
    {
        self.endpoint("/users/notes")
    }

    /// The address that deletes a note.
    pub fn delete_note_url(&self) -> (r: String)
        ensures
            r@ == self.config().base_url@ + "/notes/delete"@,
    {
        self.endpoint("/notes/delete")
    }

    /// The token that each request carries.
    pub fn token(&self) -> (r: &String)
        ensures
            *r == self.config().token,
    {
        &self.config.token
    }

    /// The body of a note listing request for `params`.
    pub fn user_notes_body(&self, params: ListNotesRequestParams) -> (r: ListNotesReqBody)
        ensures
            r.user_id == params.user_id,
            r.since_date == params.since_date,
            r.limit == params.limit,
            r.i == self.config().token,
    {
        ListNotesReqBody::new(params, &self.config.token)
    }
}

} // verus!
