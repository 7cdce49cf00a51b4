use vstd::prelude::*;
use crate::db::users::user_named;
use crate::db::users::user_with_id;
use crate::db::{fails_with, find, found, has, matching, position, select, Database};
use crate::err::{CleoErr, ErrorKind};
use crate::models::{CleoUser, UserAPIToken, COL_ID, COL_SECRET};
use crate::utils::{bcrypt_accepts, concat, hash_string, sha256_upper_hex, verify_password, TimeNow};

verus! {

/// The token row whose secret is `secret`.
pub open spec fn token_row(db: Database, secret: Seq<char>) -> Option<UserAPIToken> {
    find(db.tokens@, has::<UserAPIToken>(COL_SECRET as int, secret))
}

/// The token row whose id is `id`.
pub open spec fn token_with_id(db: Database, id: Seq<char>) -> Option<UserAPIToken> {
    find(db.tokens@, has::<UserAPIToken>(COL_ID as int, id))
}

/// The user that a bearer of `secret` acts as: the user that the token row names.
pub open spec fn token_holder(db: Database, secret: Seq<char>) -> Option<CleoUser> {
    match token_row(db, secret) {
        Some(t) => user_with_id(db, t.user_id@),
        None => None,
    }
}

/// The outcomes of asking for a token with a username and a password.
///
/// An unknown username and a password that the stored hash does not accept
/// both fail with `InvalidCredentials`. Otherwise a new token row for the
/// user is appended: its id is the digest of the username followed by the
/// current time, its secret the digest of the user's id followed by the same
/// time. Such digests are taken to be unique and are not checked.
pub open spec fn issues_token(
    old: Database,
    new: Database,
    username: Seq<char>,
    password: Seq<char>,
    r: Result<UserAPIToken, CleoErr>,
) -> bool {
    match user_named(old, username) {
        None => fails_with(r, ErrorKind::InvalidCredentials) && new == old,
        Some(u) => if !bcrypt_accepts(password, u.pwd@) {
            fails_with(r, ErrorKind::InvalidCredentials) && new == old
        } else {
            match r {
                Ok(t) => {
                    &&& t.user_id == u.user_id
                    &&& exists|s: Seq<char>|
                        t.token_id@ == sha256_upper_hex(username + s) && #[trigger] sha256_upper_hex(
                            u.user_id@ + s,
                        ) == t.token@
                    &&& new.tokens@ == old.tokens@.push(t)
                    &&& new == Database { tokens: new.tokens, ..old }
                },
                Err(_) => false,
            }
        },
    }
}

/// Issues a bearer token to the user with this username and password.
pub fn create_api_token_for_user(db: &mut Database, username: &String, password: &String) -> (r:
    Result<UserAPIToken, CleoErr>)
    ensures
        issues_token(*old(db), *final(db), username@, password@, r),
{
    let refused = "Could not verify the username and password.";
    let user = match position(&db.users, crate::models::COL_USERNAME, username) {
        Some(i) => db.users[i].clone(),
        None => return Err(CleoErr::with_kind(ErrorKind::InvalidCredentials, refused)),
    };
    if !verify_password(password, &user.pwd) {
        return Err(CleoErr::with_kind(ErrorKind::InvalidCredentials, refused));
    }
    let now = TimeNow::new().to_string();
    let token_id = hash_string(&concat(user.username.as_str(), now.as_str()));
    let token = hash_string(&concat(user.user_id.as_str(), now.as_str()));
    let row = UserAPIToken { token_id, user_id: user.user_id.clone(), token };
    db.tokens.push(row.clone());
    assert(sha256_upper_hex(user.user_id@ + now@) == row.token@);
    Ok(row)
}

/// The token row whose secret is `token`.
pub fn get_token(db: &Database, token: &String) -> (r: Result<UserAPIToken, CleoErr>)
    ensures
        found(token_row(*db, token@), r),
{
    match position(&db.tokens, COL_SECRET, token) {
        Some(i) => Ok(db.tokens[i].clone()),
        None => Err(CleoErr::with_kind(ErrorKind::NotFound, "No such token.")),
    }
}

/// The user that a bearer of `token` acts as.
pub fn get_user_from_token(db: &Database, token: &String) -> (r: Result<CleoUser, CleoErr>)
    ensures
        found(token_holder(*db, token@), r),
{
    let t = get_token(db, token)?;
    match position(&db.users, COL_ID, &t.user_id) {
        Some(i) => Ok(db.users[i].clone()),
        None => Err(CleoErr::with_kind(ErrorKind::NotFound, "No user holds this token.")),
    }
}

/// The outcomes of revoking a token.
///
/// Holding the token is not enough: the username and password must be
/// presented again, and the token must be theirs. An unknown username or
/// token is `NotFound`, a wrong password `InvalidCredentials`, a token of
/// another user `NotOwner`; otherwise the token's row goes.
pub open spec fn revokes_token(
    old: Database,
    new: Database,
    secret: Seq<char>,
    username: Seq<char>,
    password: Seq<char>,
    r: Result<(), CleoErr>,
) -> bool {
    match user_named(old, username) {
        None => fails_with(r, ErrorKind::NotFound) && new == old,
        Some(u) => if !bcrypt_accepts(password, u.pwd@) {
            fails_with(r, ErrorKind::InvalidCredentials) && new == old
        } else {
            match token_row(old, secret) {
                None => fails_with(r, ErrorKind::NotFound) && new == old,
                Some(t) => if t.user_id@ != u.user_id@ {
                    fails_with(r, ErrorKind::NotOwner) && new == old
                } else {
                    &&& r is Ok
                    &&& new.tokens@ == old.tokens@.filter(
                        matching::<UserAPIToken>(COL_ID as int, t.token_id@, false),
                    )
                    &&& new == Database { tokens: new.tokens, ..old }
                },
            }
        },
    }
}

/// Revokes the token `token` after checking the username and password again.
pub fn delete_token(db: &mut Database, token: &String, username: &String, password: &String) -> (r:
    Result<(), CleoErr>)
    ensures
        revokes_token(*old(db), *final(db), token@, username@, password@, r),
{
    let user = match position(&db.users, crate::models::COL_USERNAME, username) {
        Some(i) => db.users[i].clone(),
        None => return Err(CleoErr::with_kind(ErrorKind::NotFound, "No such user.")),
    };
    if !verify_password(password, &user.pwd) {
        return Err(
            CleoErr::with_kind(ErrorKind::InvalidCredentials, "Could not verify the password."),
        );
    }
    let t = get_token(db, token)?;
    if !(t.user_id == user.user_id) {
        return Err(CleoErr::with_kind(ErrorKind::NotOwner, "The token belongs to another user."));
    }
    db.tokens = select(&db.tokens, COL_ID, &t.token_id, false);
    Ok(())
}

} // verus!
