use vstd::prelude::*;
use crate::db::Row;

verus! {

/// Column of every table that holds the row's own id.
pub const COL_ID: usize = 0;

/// Column of the users table that holds the username.
pub const COL_USERNAME: usize = 1;

/// Column of the token, key and email-token tables that holds the secret.
pub const COL_SECRET: usize = 1;

/// Column of the token, key and email-token tables that holds the owning user's id.
pub const COL_HOLDER: usize = 2;

/// Column of the post and file tables that holds the owning user's id.
pub const COL_OWNER: usize = 1;

/// Column of the extra-field table that holds the id of the parent post.
pub const COL_POST: usize = 1;

/// The one row that describes this instance: its names, mail relay and file directory.
#[derive(Debug)]
pub struct InstanceInformation {
    pub instance_id: String,
    pub hostname: String,
    pub instance_name: String,
    pub smtp_server: String,
    pub smtp_username: String,
    pub smtp_pass: String,
    pub file_dir: String,
}

impl Clone for InstanceInformation {
    fn clone(&self) -> (r: Self)
        ensures
            r == *self,
    {
        InstanceInformation {
            instance_id: self.instance_id.clone(),
            hostname: self.hostname.clone(),
            instance_name: self.instance_name.clone(),
            smtp_server: self.smtp_server.clone(),
            smtp_username: self.smtp_username.clone(),
            smtp_pass: self.smtp_pass.clone(),
            file_dir: self.file_dir.clone(),
        }
    }
}

/// A registered account. `pwd` holds a bcrypt hash, never the password.
#[derive(Debug)]
pub struct CleoUser {
    pub user_id: String,
    pub display_name: String,
    pub is_verified: bool,
    pub username: String,
    pub pwd: String,
    pub email_addr: String,
    pub pfp_url: String,
    pub is_admin: bool,
}

impl Clone for CleoUser {
    fn clone(&self) -> (r: Self)
        ensures
            r == *self,
    {
        CleoUser {
            user_id: self.user_id.clone(),
            display_name: self.display_name.clone(),
            is_verified: self.is_verified,
            username: self.username.clone(),
            pwd: self.pwd.clone(),
            email_addr: self.email_addr.clone(),
            pfp_url: self.pfp_url.clone(),
            is_admin: self.is_admin,
        }
    }
}

/// A file that a user uploaded: where it is stored and where it is served.
#[derive(Debug)]
pub struct UserFile {
    pub file_id: String,
    pub user_id: String,
    pub file_path: String,
    pub file_url: String,
}

impl Clone for UserFile {
    fn clone(&self) -> (r: Self)
        ensures
            r == *self,
    {
        UserFile {
            file_id: self.file_id.clone(),
            user_id: self.user_id.clone(),
            file_path: self.file_path.clone(),
            file_url: self.file_url.clone(),
        }
    }
}

/// A page or a post, owned by the user who created it.
#[derive(Debug)]
pub struct UserPost {
    pub content_id: String,
    pub user_id: String,
    pub content_type: String,
    pub content_text: String,
}

impl Clone for UserPost {
    fn clone(&self) -> (r: Self)
        ensures
            r == *self,
    {
        UserPost {
            content_id: self.content_id.clone(),
            user_id: self.user_id.clone(),
            content_type: self.content_type.clone(),
            content_text: self.content_text.clone(),
        }
    }
}

/// A free-form key and value attached to a post.
#[derive(Debug)]
pub struct ExtraContentField {
    pub field_id: String,
    pub content_id: String,
    pub field_key: String,
    pub field_value: String,
}

impl Clone for ExtraContentField {
    fn clone(&self) -> (r: Self)
        ensures
            r == *self,
    {
        ExtraContentField {
            field_id: self.field_id.clone(),
            content_id: self.content_id.clone(),
            field_key: self.field_key.clone(),
            field_value: self.field_value.clone(),
        }
    }
}

/// A bearer token: whoever presents `token` acts as `user_id`.
#[derive(Debug)]
pub struct UserAPIToken {
    pub token_id: String,
    pub user_id: String,
    pub token: String,
}

impl Clone for UserAPIToken {
    fn clone(&self) -> (r: Self)
        ensures
            r == *self,
    {
        UserAPIToken {
            token_id: self.token_id.clone(),
            user_id: self.user_id.clone(),
            token: self.token.clone(),
        }
    }
}

/// A signup key issued by an administrator for one username.
/// A 16-character `user_key` is of kind "admin", a 10-character one of kind "normal".
#[derive(Debug)]
pub struct UserKey {
    pub key_id: String,
    pub user_id: String,
    pub user_key: String,
    pub key_type: String,
    pub key_used: bool,
    pub username: String,
}

impl Clone for UserKey {
    fn clone(&self) -> (r: Self)
        ensures
            r == *self,
    {
        UserKey {
            key_id: self.key_id.clone(),
            user_id: self.user_id.clone(),
            user_key: self.user_key.clone(),
            key_type: self.key_type.clone(),
            key_used: self.key_used,
            username: self.username.clone(),
        }
    }
}

/// A single-use secret that confirms the address of `user_id`.
#[derive(Debug)]
pub struct EmailToken {
    pub etoken_id: String,
    pub email_token: String,
    pub user_id: String,
}

impl Clone for EmailToken {
    fn clone(&self) -> (r: Self)
        ensures
            r == *self,
    {
        EmailToken {
            etoken_id: self.etoken_id.clone(),
            email_token: self.email_token.clone(),
            user_id: self.user_id.clone(),
        }
    }
}

impl Row for CleoUser {
    open spec fn column(&self, c: int) -> Seq<char> {
        if c == 0 {
            self.user_id@
        } else {
            self.username@
        }
    }

    fn column_is(&self, c: usize, v: &String) -> (r: bool) {
        if c == 0 {
            self.user_id == *v
        } else {
            self.username == *v
        }
    }

    fn duplicate(&self) -> (r: Self) {
        self.clone()
    }
}

impl Row for UserAPIToken {
    open spec fn column(&self, c: int) -> Seq<char> {
        if c == 0 {
            self.token_id@
        } else if c == 1 {
            self.token@
        } else {
            self.user_id@
        }
    }

    fn column_is(&self, c: usize, v: &String) -> (r: bool) {
        if c == 0 {
            self.token_id == *v
        } else if c == 1 {
            self.token == *v
        } else {
            self.user_id == *v
        }
    }

    fn duplicate(&self) -> (r: Self) {
        self.clone()
    }
}

impl Row for UserKey {
    open spec fn column(&self, c: int) -> Seq<char> {
        if c == 0 {
            self.key_id@
        } else if c == 1 {
            self.user_key@
        } else {
            self.user_id@
        }
    }

    fn column_is(&self, c: usize, v: &String) -> (r: bool) {
        if c == 0 {
            self.key_id == *v
        } else if c == 1 {
            self.user_key == *v
        } else {
            self.user_id == *v
        }
    }

    fn duplicate(&self) -> (r: Self) {
        self.clone()
    }
}

impl Row for UserPost {
    open spec fn column(&self, c: int) -> Seq<char> {
        if c == 0 {
            self.content_id@
        } else {
            self.user_id@
        }
    }

    fn column_is(&self, c: usize, v: &String) -> (r: bool) {
        if c == 0 {
            self.content_id == *v
        } else {
            self.user_id == *v
        }
    }

    fn duplicate(&self) -> (r: Self) {
        self.clone()
    }
}

impl Row for ExtraContentField {
    open spec fn column(&self, c: int) -> Seq<char> {
        if c == 0 {
            self.field_id@
        } else {
            self.content_id@
        }
    }

    fn column_is(&self, c: usize, v: &String) -> (r: bool) {
        if c == 0 {
            self.field_id == *v
        } else {
            self.content_id == *v
        }
    }

    fn duplicate(&self) -> (r: Self) {
        self.clone()
    }
}

impl Row for UserFile {
    open spec fn column(&self, c: int) -> Seq<char> {
        if c == 0 {
            self.file_id@
        } else {
            self.user_id@
        }
    }

    fn column_is(&self, c: usize, v: &String) -> (r: bool) {
        if c == 0 {
            self.file_id == *v
        } else {
            self.user_id == *v
        }
    }

    fn duplicate(&self) -> (r: Self) {
        self.clone()
    }
}

impl Row for EmailToken {
    open spec fn column(&self, c: int) -> Seq<char> {
        if c == 0 {
            self.etoken_id@
        } else if c == 1 {
            self.email_token@
        } else {
            self.user_id@
        }
    }

    fn column_is(&self, c: usize, v: &String) -> (r: bool) {
        if c == 0 {
            self.etoken_id == *v
        } else if c == 1 {
            self.email_token == *v
        } else {
            self.user_id == *v
        }
    }

    fn duplicate(&self) -> (r: Self) {
        self.clone()
    }
}

impl Row for InstanceInformation {
    open spec fn column(&self, c: int) -> Seq<char> {
        self.instance_id@
    }

    fn column_is(&self, c: usize, v: &String) -> (r: bool) {
        self.instance_id == *v
    }

    fn duplicate(&self) -> (r: Self) {
        self.clone()
    }
}
} // verus!
