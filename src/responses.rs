use vstd::prelude::*;

verus! {

/// Whether an operation succeeded.
#[derive(Clone, Copy, Debug, PartialEq, Eq, Structural)]
pub struct StatusResponse {
    pub is_ok: bool,
}

/// A user as others may see it: everything but the password hash.
#[derive(Debug)]
pub struct UserCreationResponse {
    pub user_id: String,
    pub display_name: String,
    pub is_verified: bool,
    pub username: String,
    pub email_addr: String,
    pub pfp_url: String,
    pub is_admin: bool,
}

/// A newly registered user, and whether their signup key was marked used.
#[derive(Debug)]
pub struct UserCreationResponseOnly {
    pub user_id: String,
    pub display_name: String,
    pub is_verified: bool,
    pub username: String,
    pub email_addr: String,
    pub pfp_url: String,
    pub is_admin: bool,
    pub key_status_updated: bool,
}

/// An issued bearer token.
#[derive(Debug)]
pub struct APITokenResponse {
    pub token_id: String,
    pub token: String,
}

/// A post as it is returned.
#[derive(Debug)]
pub struct UserPostResponse {
    pub content_id: String,
    pub content_type: String,
    pub user_id: String,
    pub content_text: String,
}

/// An extra field as it is returned.
#[derive(Debug)]
pub struct ExtraContentFieldResponse {
    pub field_id: String,
    pub content_id: String,
    pub field_key: String,
    pub field_value: String,
}

/// An uploaded file as it is returned.
#[derive(Debug)]
pub struct UserFileResponse {
    pub user_id: String,
    pub file_url: String,
    pub file_name: String,
    pub file_id: String,
}

/// A signup key as it is returned: its kind and its secret.
#[derive(Debug)]
pub struct UserKeyCreationResponse {
    pub key_type: String,
    pub user_key: String,
}

/// The public names of the instance.
#[derive(Debug)]
pub struct InstanceResponse {
    pub name: String,
    pub hostname: String,
}

/// The body of a failed request.
#[derive(Debug)]
pub struct ErrDetails {
    pub error: String,
}

/// A list of users.
#[derive(Debug)]
pub struct InstanceUsersResponse {
    pub users: Vec<UserCreationResponse>,
}

/// A list of signup keys.
#[derive(Debug)]
pub struct UserKeys {
    pub keys: Vec<UserKeyCreationResponse>,
}

/// A list of posts.
#[derive(Debug)]
pub struct UserPosts {
    pub posts: Vec<UserPostResponse>,
}

/// A list of files.
#[derive(Debug)]
pub struct UserFiles {
    pub files: Vec<UserFileResponse>,
}

/// The signup keys that an administrator issued.
#[derive(Debug)]
pub struct UserKeysResponse {
    pub keys: Vec<UserKeyCreationResponse>,
}

} // verus!
