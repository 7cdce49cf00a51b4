//! The parts of the HTTP endpoints that decide or compose: what a response
//! holds, what mail is sent, where an upload goes, and the email
//! confirmation step. Receiving requests, sending mail and writing files
//! happen outside the library.
use vstd::prelude::*;
use crate::db::email::{
    create_email_token, creates_email_token, delete_email_token, email_token_row,
    get_object_from_token,
};
use crate::db::general::{get_instance_info, instance_row};
use crate::db::tokens::{get_user_from_token, token_holder};
use crate::db::users::{admits_signup, create_user, creates_user};
use crate::db::users::{set_verified, user_with_id, UserChange};
use crate::db::{applied, fails_with, has, lemma_find_any, matching, update_where, Database};
use crate::err::{CleoErr, ErrorKind};
use crate::models::{
    CleoUser, EmailToken, ExtraContentField, InstanceInformation, UserAPIToken, UserFile, UserKey,
    UserPost, COL_ID, COL_SECRET,
};
use crate::payloads::{ContentType, UserCreationPayload};
use crate::responses::{
    APITokenResponse, ExtraContentFieldResponse, InstanceResponse, InstanceUsersResponse,
    StatusResponse, UserCreationResponse, UserCreationResponseOnly, UserFileResponse, UserFiles,
    UserKeyCreationResponse, UserKeysResponse, UserPostResponse, UserPosts,
};
use crate::utils::concat;

verus! {

impl ContentType {
    /// The text that the store records for this kind.
    pub open spec fn text(self) -> Seq<char> {
        match self {
            ContentType::Page => "page"@,
            ContentType::Post => "post"@,
        }
    }

    /// The text that the store records for this kind: "page" or "post".
    pub fn as_text(&self) -> (r: String)
        ensures
            r@ == self.text(),
    {
        match self {
            ContentType::Page => "page".to_owned(),
            ContentType::Post => "post".to_owned(),
        }
    }
}

/// A mail to hand to the relay.
#[derive(Debug)]
pub struct OutgoingMail {
    pub sender: String,
    pub password: String,
    pub subject: String,
    pub body: String,
    pub receiver: String,
    pub server: String,
}

/// Whether `m` asks `receiver` to confirm their address with the secret of
/// `t`, and goes through the relay of `i` with its credentials.
pub open spec fn is_verification_mail(m: OutgoingMail, i: InstanceInformation, t: EmailToken, receiver: Seq<char>) -> bool {
    &&& m.sender == i.smtp_username
    &&& m.password == i.smtp_pass
    &&& m.server == i.smtp_server
    &&& m.receiver@ == receiver
    &&& m.subject@ == "Account verification for "@ + i.instance_name@
    &&& m.body@ == "Please copy and paste this link into your browser: "@ + i.hostname@ + "/email/"@
        + t.email_token@
}

/// The mail that asks `receiver` to confirm their address with `token`,
/// sent through the instance's relay with its credentials.
pub fn verification_mail(info: &InstanceInformation, token: &EmailToken, receiver: &String) -> (r:
    OutgoingMail)
    ensures
        is_verification_mail(r, *info, *token, receiver@),
{
    let subject = concat("Account verification for ", info.instance_name.as_str());
    let lead = concat("Please copy and paste this link into your browser: ", info.hostname.as_str());
    let link = concat(lead.as_str(), "/email/");
    let body = concat(link.as_str(), token.email_token.as_str());
    OutgoingMail {
        sender: info.smtp_username.clone(),
        password: info.smtp_pass.clone(),
        subject,
        body,
        receiver: receiver.clone(),
        server: info.smtp_server.clone(),
    }
}

/// A user without the password hash.
pub open spec fn public_view(u: CleoUser) -> UserCreationResponse {
    UserCreationResponse {
        user_id: u.user_id,
        display_name: u.display_name,
        is_verified: u.is_verified,
        username: u.username,
        email_addr: u.email_addr,
        pfp_url: u.pfp_url,
        is_admin: u.is_admin,
    }
}

/// A user as others may see it.
pub fn user_response(u: &CleoUser) -> (r: UserCreationResponse)
    ensures
        r == public_view(*u),
{
    UserCreationResponse {
        user_id: u.user_id.clone(),
        display_name: u.display_name.clone(),
        is_verified: u.is_verified,
        username: u.username.clone(),
        email_addr: u.email_addr.clone(),
        pfp_url: u.pfp_url.clone(),
        is_admin: u.is_admin,
    }
}

/// The answer to a registration: the new user where the confirmation mail
/// went out, and an error where the relay did not take it.
pub fn user_creation_response(u: &CleoUser, mail_sent: bool, key_updated: bool) -> (r: Result<
    UserCreationResponseOnly,
    CleoErr,
>)
    ensures
        !mail_sent ==> fails_with(r, ErrorKind::Downstream),
        mail_sent ==> (r matches Ok(v) && v == (UserCreationResponseOnly {
            user_id: u.user_id,
            display_name: u.display_name,
            is_verified: u.is_verified,
            username: u.username,
            email_addr: u.email_addr,
            pfp_url: u.pfp_url,
            is_admin: u.is_admin,
            key_status_updated: key_updated,
        })),
{
    if !mail_sent {
        return Err(CleoErr::new("Account creation failure."));
    }
    Ok(
        UserCreationResponseOnly {
            user_id: u.user_id.clone(),
            display_name: u.display_name.clone(),
            is_verified: u.is_verified,
            username: u.username.clone(),
            email_addr: u.email_addr.clone(),
            pfp_url: u.pfp_url.clone(),
            is_admin: u.is_admin,
            key_status_updated: key_updated,
        },
    )
}

/// A list of users as others may see them, in the same order.
pub fn user_list_response(users: &Vec<CleoUser>) -> (r: InstanceUsersResponse)
    ensures
        r.users@.len() == users@.len(),
        forall|i: int| 0 <= i < users@.len() ==> r.users@[i] == public_view(#[trigger] users@[i]),
{
    let mut out: Vec<UserCreationResponse> = Vec::new();
    let mut i: usize = 0;
    while i < users.len()
        invariant
            i <= users@.len(),
            out@.len() == i,
            forall|j: int| 0 <= j < i ==> out@[j] == public_view(#[trigger] users@[j]),
        decreases users@.len() - i,
    {
        out.push(user_response(&users[i]));
        i += 1;
    }
    InstanceUsersResponse { users: out }
}

/// An issued token as it is returned.
pub fn token_response(t: &UserAPIToken) -> (r: APITokenResponse)
    ensures
        r.token_id == t.token_id,
        r.token == t.token,
{
    APITokenResponse { token_id: t.token_id.clone(), token: t.token.clone() }
}

/// A post as it is returned.
pub open spec fn post_view(p: UserPost) -> UserPostResponse {
    UserPostResponse {
        content_id: p.content_id,
        content_type: p.content_type,
        user_id: p.user_id,
        content_text: p.content_text,
    }
}

/// A post as it is returned.
pub fn post_response(p: &UserPost) -> (r: UserPostResponse)
    ensures
        r == post_view(*p),
{
    UserPostResponse {
        content_id: p.content_id.clone(),
        content_type: p.content_type.clone(),
        user_id: p.user_id.clone(),
        content_text: p.content_text.clone(),
    }
}

/// A list of posts as it is returned, in the same order.
pub fn post_list_response(posts: &Vec<UserPost>) -> (r: UserPosts)
    ensures
        r.posts@.len() == posts@.len(),
        forall|i: int| 0 <= i < posts@.len() ==> r.posts@[i] == post_view(#[trigger] posts@[i]),
{
    let mut out: Vec<UserPostResponse> = Vec::new();
    let mut i: usize = 0;
    while i < posts.len()
        invariant
            i <= posts@.len(),
            out@.len() == i,
            forall|j: int| 0 <= j < i ==> out@[j] == post_view(#[trigger] posts@[j]),
        decreases posts@.len() - i,
    {
        out.push(post_response(&posts[i]));
        i += 1;
    }
    UserPosts { posts: out }
}

/// An extra field as it is returned.
pub fn field_response(f: &ExtraContentField) -> (r: ExtraContentFieldResponse)
    ensures
        r.field_id == f.field_id,
        r.content_id == f.content_id,
        r.field_key == f.field_key,
        r.field_value == f.field_value,
{
    ExtraContentFieldResponse {
        field_id: f.field_id.clone(),
        content_id: f.content_id.clone(),
        field_key: f.field_key.clone(),
        field_value: f.field_value.clone(),
    }
}

/// A signup key as it is returned: its kind and its secret.
pub open spec fn key_view(k: UserKey) -> UserKeyCreationResponse {
    UserKeyCreationResponse { key_type: k.key_type, user_key: k.user_key }
}

/// A signup key as it is returned.
pub fn key_response(k: &UserKey) -> (r: UserKeyCreationResponse)
    ensures
        r == key_view(*k),
{
    UserKeyCreationResponse { key_type: k.key_type.clone(), user_key: k.user_key.clone() }
}

/// A list of signup keys as it is returned, in the same order.
pub fn key_list_response(keys: &Vec<UserKey>) -> (r: UserKeysResponse)
    ensures
        r.keys@.len() == keys@.len(),
        forall|i: int| 0 <= i < keys@.len() ==> r.keys@[i] == key_view(#[trigger] keys@[i]),
{
    let mut out: Vec<UserKeyCreationResponse> = Vec::new();
    let mut i: usize = 0;
    while i < keys.len()
        invariant
            i <= keys@.len(),
            out@.len() == i,
            forall|j: int| 0 <= j < i ==> out@[j] == key_view(#[trigger] keys@[j]),
        decreases keys@.len() - i,
    {
        out.push(key_response(&keys[i]));
        i += 1;
    }
    UserKeysResponse { keys: out }
}

/// Where an upload named `name` is stored, and the address it is served at.
pub fn upload_location(info: &InstanceInformation, name: &String) -> (r: (String, String))
    ensures
        r.0@ == info.file_dir@ + "/"@ + name@,
        r.1@ == info.hostname@ + "/files/serve/"@ + name@,
{
    let dir = concat(info.file_dir.as_str(), "/");
    let path = concat(dir.as_str(), name.as_str());
    let serve = concat(info.hostname.as_str(), "/files/serve/");
    let url = concat(serve.as_str(), name.as_str());
    (path, url)
}

/// A file as it is listed under a host.
pub fn file_response(hostname: &String, f: &UserFile) -> (r: UserFileResponse)
    ensures
        r.user_id == f.user_id,
        r.file_id == f.file_id,
        r.file_name == f.file_path,
        r.file_url@ == hostname@ + f.file_path@,
{
    UserFileResponse {
        user_id: f.user_id.clone(),
        file_url: concat(hostname.as_str(), f.file_path.as_str()),
        file_name: f.file_path.clone(),
        file_id: f.file_id.clone(),
    }
}

/// The files of a user as they are listed under the instance's hostname, in the same order.
pub fn file_list_response(info: &InstanceInformation, files: &Vec<UserFile>) -> (r: UserFiles)
    ensures
        r.files@.len() == files@.len(),
        forall|i: int|
            0 <= i < files@.len() ==> {
                &&& (#[trigger] r.files@[i]).user_id == files@[i].user_id
                &&& r.files@[i].file_id == files@[i].file_id
                &&& r.files@[i].file_name == files@[i].file_path
                &&& r.files@[i].file_url@ == info.hostname@ + files@[i].file_path@
            },
{
    let mut out: Vec<UserFileResponse> = Vec::new();
    let mut i: usize = 0;
    while i < files.len()
        invariant
            i <= files@.len(),
            out@.len() == i,
            forall|j: int|
                0 <= j < i ==> {
                    &&& (#[trigger] out@[j]).user_id == files@[j].user_id
                    &&& out@[j].file_id == files@[j].file_id
                    &&& out@[j].file_name == files@[j].file_path
                    &&& out@[j].file_url@ == info.hostname@ + files@[j].file_path@
                },
        decreases files@.len() - i,
    {
        out.push(file_response(&info.hostname, &files[i]));
        i += 1;
    }
    UserFiles { files: out }
}

/// The public names of the instance.
pub fn instance_response(info: &InstanceInformation) -> (r: InstanceResponse)
    ensures
        r.name == info.instance_name,
        r.hostname == info.hostname,
{
    InstanceResponse { name: info.instance_name.clone(), hostname: info.hostname.clone() }
}

/// Whether an operation succeeded, as it is reported.
pub fn status<T>(r: &Result<T, CleoErr>) -> (s: StatusResponse)
    ensures
        s.is_ok == r is Ok,
{
    StatusResponse { is_ok: r.is_ok() }
}

/// The outcomes of confirming an address with the secret `secret`.
///
/// An unknown secret is `NotFound` and changes nothing. Otherwise every
/// email token with that secret is deleted and the token's user is marked
/// verified; the status says whether that user still exists.
pub open spec fn verifies_email(old: Database, new: Database, secret: Seq<char>, r: Result<
    StatusResponse,
    CleoErr,
>) -> bool {
    match email_token_row(old, secret) {
        None => fails_with(r, ErrorKind::NotFound) && new == old,
        Some(t) => {
            &&& new.email_tokens@ == old.email_tokens@.filter(
                matching::<EmailToken>(COL_SECRET as int, secret, false),
            )
            &&& new == Database { email_tokens: new.email_tokens, users: new.users, ..old }
            &&& if user_with_id(old, t.user_id@) is Some {
                &&& r matches Ok(s) && s.is_ok
                &&& new.users@ == update_where(
                    old.users@,
                    has::<CleoUser>(COL_ID as int, t.user_id@),
                    applied::<CleoUser, UserChange>(UserChange::Verified(true)),
                )
            } else {
                r matches Ok(s) && !s.is_ok && new.users@ == old.users@
            }
        },
    }
}

/// Confirms an address: the single-use token with secret `token` is deleted
/// and its user marked verified.
pub fn verify_email(db: &mut Database, token: &String) -> (r: Result<StatusResponse, CleoErr>)
    ensures
        verifies_email(*old(db), *final(db), token@, r),
{
    proof {
        lemma_find_any(db.email_tokens@, has::<EmailToken>(COL_SECRET as int, token@));
    }
    let token_obj = get_object_from_token(db, token)?;
    let _ = delete_email_token(db, &token_obj.email_token);
    let result = set_verified(db, token_obj.user_id.as_str());
    Ok(status(&result))
}

/// What `create_user` may leave behind when called with the fields of `p`.
pub open spec fn creates_user_from(old: Database, new: Database, p: UserCreationPayload, r: Result<CleoUser, CleoErr>) -> bool {
    creates_user(
        old,
        new,
        p.username@,
        p.display_name@,
        p.password@,
        p.email_addr@,
        p.pfp_url@,
        p.user_key@,
        r,
    )
}

/// The outcomes of the first step of a registration.
///
/// Without an instance row the request is `NotFound`, with a key that does
/// not admit the signup `InvalidInput`; nothing changes then. Otherwise the
/// user is created as `create_user` does, an email token is issued for them,
/// and the result holds the user and the mail that asks them to confirm
/// their address. Where hashing the password fails the error is
/// `Downstream` and nothing changes.
pub open spec fn registers(old: Database, new: Database, p: UserCreationPayload, r: Result<(CleoUser, OutgoingMail), CleoErr>) -> bool {
    match instance_row(old) {
        None => fails_with(r, ErrorKind::NotFound) && new == old,
        Some(i) => if !admits_signup(old, p.username@, p.user_key@) {
            fails_with(r, ErrorKind::InvalidInput) && new == old
        } else {
            match r {
                Ok((u, m)) => exists|mid: Database, t: EmailToken|
                    {
                        &&& creates_user_from(old, mid, p, Ok(u))
                        &&& #[trigger] creates_email_token(mid, new, u.user_id@, Ok(t))
                        &&& is_verification_mail(m, i, t, u.email_addr@)
                    },
                Err(e) => e.kind == ErrorKind::Downstream && new == old,
            }
        },
    }
}

/// Registers a user and prepares the mail that asks them to confirm their
/// address; sending it is left to the caller.
pub fn register_user(db: &mut Database, p: &UserCreationPayload) -> (r: Result<(CleoUser, OutgoingMail), CleoErr>)
    ensures
        registers(*old(db), *final(db), *p, r),
{
    let info = get_instance_info(db)?;
    let ghost before = *db;
    let user = create_user(
        db,
        &p.username,
        &p.display_name,
        &p.password,
        &p.email_addr,
        &p.pfp_url,
        &p.user_key,
    )?;
    let ghost mid = *db;
    assert(before == *old(db));
    assert(creates_user_from(before, mid, *p, Ok(user)));
    let token = create_email_token(db, &user.user_id)?;
    let mail = verification_mail(&info, &token, &user.email_addr);
    let ghost u = user;
    let ghost m = mail;
    assert(exists|mid2: Database, t: EmailToken|
        {
            &&& creates_user_from(before, mid2, *p, Ok(u))
            &&& #[trigger] creates_email_token(mid2, *db, u.user_id@, Ok(t))
            &&& is_verification_mail(m, info, t, u.email_addr@)
        }) by {
        assert(creates_email_token(mid, *db, u.user_id@, Ok(token)));
    }
    let res: Result<(CleoUser, OutgoingMail), CleoErr> = Ok((user, mail));
    assert(res matches Ok((a, b)) && a == u && b == m);
    res
}

/// The outcomes of the first step of a change of address.
///
/// An unknown token or a missing instance row is `NotFound`. Otherwise an
/// email token is issued for the token's holder and the result is the mail
/// that asks them to confirm `new_email`.
pub open spec fn starts_email_change(old: Database, new: Database, token: Seq<char>, new_email: Seq<char>, r: Result<OutgoingMail, CleoErr>) -> bool {
    match token_holder(old, token) {
        None => fails_with(r, ErrorKind::NotFound) && new == old,
        Some(u) => match instance_row(old) {
            None => fails_with(r, ErrorKind::NotFound) && new == old,
            Some(i) => match r {
                Ok(m) => exists|t: EmailToken|
                    #[trigger] creates_email_token(old, new, u.user_id@, Ok(t)) && is_verification_mail(m, i, t, new_email),
                Err(_) => false,
            },
        },
    }
}

/// Prepares the mail that asks the bearer of `api_token` to confirm
/// `new_email`; the address changes once the mail went out.
pub fn begin_email_change(db: &mut Database, api_token: &String, new_email: &String) -> (r: Result<OutgoingMail, CleoErr>)
    ensures
        starts_email_change(*old(db), *final(db), api_token@, new_email@, r),
{
    let user = get_user_from_token(db, api_token)?;
    let info = get_instance_info(db)?;
    let ghost before = *db;
    let token = create_email_token(db, &user.user_id)?;
    let mail = verification_mail(&info, &token, new_email);
    assert(creates_email_token(before, *db, user.user_id@, Ok(token)));
    Ok(mail)
}

} // verus!
