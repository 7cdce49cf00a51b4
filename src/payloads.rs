use vstd::prelude::*;

verus! {

/// The kind of a piece of content.
#[derive(Clone, Copy, Debug, PartialEq, Eq, Structural)]
pub enum ContentType {
    Page,
    Post,
}

/// A new post or page for the bearer of `api_token`.
#[derive(Debug)]
pub struct PostCreationPayload {
    pub api_token: String,
    pub content_type: ContentType,
    pub content_text: String,
}

/// What a new user submits to register.
#[derive(Debug)]
pub struct UserCreationPayload {
    pub username: String,
    pub display_name: String,
    pub password: String,
    pub email_addr: String,
    pub pfp_url: String,
    pub user_key: String,
}

/// A new value for one setting of the bearer of `api_token`.
#[derive(Debug)]
pub struct UserChangePayload {
    pub api_token: String,
    pub new_value: String,
}

/// A username and a password.
#[derive(Debug)]
pub struct AuthActionPayload {
    pub username: String,
    pub password: String,
}

/// A token to revoke, with the credentials of its user.
#[derive(Debug)]
pub struct DelTokenPayload {
    pub token: String,
    pub username: String,
    pub password: String,
}

/// New text for a post.
#[derive(Debug)]
pub struct UpdatePostPayload {
    pub api_token: String,
    pub content_id: String,
    pub text: String,
}

/// A post to delete.
#[derive(Debug)]
pub struct DeletePostPayload {
    pub api_token: String,
    pub content_id: String,
}

/// A field to attach to a post.
#[derive(Debug)]
pub struct ExtraContentFieldCreationPayload {
    pub api_token: String,
    pub content_id: String,
    pub field_key: String,
    pub field_value: String,
}

/// A new key or value for a field of a post.
#[derive(Debug)]
pub struct EditExtraContentFieldPayload {
    pub api_token: String,
    pub content_id: String,
    pub field_id: String,
    pub new_value: String,
}

/// A field of a post to delete.
#[derive(Debug)]
pub struct DeleteExtraContentFieldPayload {
    pub api_token: String,
    pub content_id: String,
    pub field_id: String,
}

/// A file record to delete.
#[derive(Debug)]
pub struct DeleteUserFilePayload {
    pub api_token: String,
    pub file_id: String,
}

/// A request for a signup key of kind `key_type` for `username`.
#[derive(Debug)]
pub struct UserKeyPayload {
    pub key_type: String,
    pub api_token: String,
    pub username: String,
}

/// A request that carries only a bearer token.
#[derive(Debug)]
pub struct TokenOnlyPayload {
    pub api_token: String,
}

/// A signup key to delete.
#[derive(Debug)]
pub struct UserKeyDeletionPayload {
    pub api_token: String,
    pub key_id: String,
}

/// The name under which an upload is stored, and who uploads it.
#[derive(Debug)]
pub struct UserFileMetadata {
    pub name: String,
    pub api_token: String,
}

/// The name of a served file, taken from the request path.
#[derive(Debug)]
pub struct FileExtractor {
    pub filename: String,
}

/// An email-confirmation secret, taken from the request path.
#[derive(Debug)]
pub struct TokenExtractor {
    pub token: String,
}

} // verus!
