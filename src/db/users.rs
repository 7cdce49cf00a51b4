use vstd::prelude::*;
pub use crate::db::tokens::get_user_from_token;
use crate::db::keys::{key_with_secret, MarkUsed};
use crate::db::tokens::token_holder;
use crate::db::{
    applied, fails_with, find, found, has, matching, position, select, update, update_where, Change,
    Database,
};
use crate::err::{CleoErr, ErrorKind};
use crate::models::{CleoUser, UserKey, COL_ID, COL_SECRET, COL_USERNAME};
use crate::utils::{
    bcrypt_accepts, concat, hash_password, hash_string, sha256_upper_hex, verify_password, TimeNow,
};

verus! {

/// The user whose id is `id`.
pub open spec fn user_with_id(db: Database, id: Seq<char>) -> Option<CleoUser> {
    find(db.users@, has::<CleoUser>(COL_ID as int, id))
}

/// The user whose username is `name`.
pub open spec fn user_named(db: Database, name: Seq<char>) -> Option<CleoUser> {
    find(db.users@, has::<CleoUser>(COL_USERNAME as int, name))
}

/// Whether a key is of kind "admin" with a 16-character secret or of kind
/// "normal" with a 10-character one.
pub open spec fn key_kind_matches(k: UserKey) -> bool {
    ||| k.key_type@ == "admin"@ && k.user_key@.len() == 16
    ||| k.key_type@ == "normal"@ && k.user_key@.len() == 10
}

/// Whether the signup key with secret `secret` lets `username` register: it
/// exists, its kind matches its length, it was issued for `username`, it is
/// unused where keys are single-use, and the username is not taken.
pub open spec fn admits_signup(db: Database, username: Seq<char>, secret: Seq<char>) -> bool {
    match key_with_secret(db, secret) {
        Some(k) => {
            &&& key_kind_matches(k)
            &&& k.username@ == username
            &&& !(db.single_use_keys && k.key_used)
            &&& user_named(db, username) is None
        },
        None => false,
    }
}

/// The outcomes of inserting a user for a signup with the key whose secret is
/// `secret`, given the stored password hash `pwd` and the id `user_id`.
///
/// A key that does not admit the signup is refused with `InvalidInput` and
/// nothing changes. Otherwise the user is appended, unverified and an
/// administrator exactly when the key's secret has 16 characters, and the key
/// is marked used.
pub open spec fn inserts_signup(
    old: Database,
    new: Database,
    username: Seq<char>,
    display_name: Seq<char>,
    pwd: Seq<char>,
    email_addr: Seq<char>,
    pfp_url: Seq<char>,
    secret: Seq<char>,
    user_id: Seq<char>,
    r: Result<CleoUser, CleoErr>,
) -> bool {
    if !admits_signup(old, username, secret) {
        fails_with(r, ErrorKind::InvalidInput) && new == old
    } else {
        match r {
            Ok(u) => {
                let k = key_with_secret(old, secret)->Some_0;
                &&& u.user_id@ == user_id
                &&& u.username@ == username
                &&& u.display_name@ == display_name
                &&& u.pwd@ == pwd
                &&& u.email_addr@ == email_addr
                &&& u.pfp_url@ == pfp_url
                &&& !u.is_verified
                &&& u.is_admin == (secret.len() == 16)
                &&& new.users@ == old.users@.push(u)
                &&& new.keys@ == update_where(
                    old.keys@,
                    has::<UserKey>(COL_ID as int, k.key_id@),
                    applied::<UserKey, MarkUsed>(MarkUsed),
                )
                &&& new == Database { users: new.users, keys: new.keys, ..old }
            },
            Err(_) => false,
        }
    }
}

/// The outcomes of registering a user with a signup key.
///
/// A key that does not admit the signup is refused with `InvalidInput`.
/// Otherwise the password is hashed with bcrypt, which draws a random salt
/// and may fail (`Downstream`, nothing changed); the user's id is the digest
/// of the current time followed by the username; and the user is inserted as
/// `inserts_signup` says, with a stored hash that bcrypt accepts for the
/// password.
pub open spec fn creates_user(
    old: Database,
    new: Database,
    username: Seq<char>,
    display_name: Seq<char>,
    password: Seq<char>,
    email_addr: Seq<char>,
    pfp_url: Seq<char>,
    secret: Seq<char>,
    r: Result<CleoUser, CleoErr>,
) -> bool {
    if !admits_signup(old, username, secret) {
        fails_with(r, ErrorKind::InvalidInput) && new == old
    } else {
        match r {
            Ok(u) => {
                &&& bcrypt_accepts(password, u.pwd@)
                &&& exists|s: Seq<char>| #[trigger] sha256_upper_hex(s + username) == u.user_id@
                &&& inserts_signup(old, new, username, display_name, u.pwd@, email_addr, pfp_url, secret, u.user_id@, r)
            },
            Err(e) => e.kind == ErrorKind::Downstream && new == old,
        }
    }
}

/// Whether the signup key with secret `user_key` lets `username` register.
pub fn signup_admitted(db: &Database, username: &String, user_key: &String) -> (r: bool)
    ensures
        r == admits_signup(*db, username@, user_key@),
{
    let key = match position(&db.keys, COL_SECRET, user_key) {
        Some(i) => &db.keys[i],
        None => return false,
    };
    let len = key.user_key.as_str().unicode_len();
    let admin = "admin".to_owned();
    let normal = "normal".to_owned();
    let kind_ok = (key.key_type == admin && len == 16) || (key.key_type == normal && len == 10);
    kind_ok && key.username == *username && !(db.single_use_keys && key.key_used)
        && position(&db.users, COL_USERNAME, username).is_none()
}

/// Inserts the user of a signup with the key whose secret is `user_key`,
/// given the stored password hash `pwd` and the id `user_id`, and marks the
/// key used.
pub fn insert_signup(
    db: &mut Database,
    username: &String,
    display_name: &String,
    pwd: &String,
    email_addr: &String,
    pfp_url: &String,
    user_key: &String,
    user_id: &String,
) -> (r: Result<CleoUser, CleoErr>)
    ensures
        inserts_signup(
            *old(db),
            *final(db),
            username@,
            display_name@,
            pwd@,
            email_addr@,
            pfp_url@,
            user_key@,
            user_id@,
            r,
        ),
{
    if !signup_admitted(db, username, user_key) {
        return Err(
            CleoErr::with_kind(
                ErrorKind::InvalidInput,
                "Could not create account with the provided information.",
            ),
        );
    }
    let i = position(&db.keys, COL_SECRET, user_key).unwrap();
    let key_id = db.keys[i].key_id.clone();
    let user = CleoUser {
        user_id: user_id.clone(),
        display_name: display_name.clone(),
        is_verified: false,
        username: username.clone(),
        pwd: pwd.clone(),
        email_addr: email_addr.clone(),
        pfp_url: pfp_url.clone(),
        is_admin: user_key.as_str().unicode_len() == 16,
    };
    db.users.push(user.clone());
    db.keys = update(&db.keys, COL_ID, &key_id, &MarkUsed);
    Ok(user)
}

/// Registers a user with the signup key whose secret is `user_key`.
pub fn create_user(
    db: &mut Database,
    username: &String,
    display_name: &String,
    password: &String,
    email_addr: &String,
    pfp_url: &String,
    user_key: &String,
) -> (r: Result<CleoUser, CleoErr>)
    ensures
        creates_user(
            *old(db),
            *final(db),
            username@,
            display_name@,
            password@,
            email_addr@,
            pfp_url@,
            user_key@,
            r,
        ),
{
    if !signup_admitted(db, username, user_key) {
        return Err(
            CleoErr::with_kind(
                ErrorKind::InvalidInput,
                "Could not create account with the provided information.",
            ),
        );
    }
    let pwd = match hash_password(password, db.hash_cost) {
        Some(h) => h,
        None => return Err(CleoErr::new("Could not hash the password.")),
    };
    let now = TimeNow::new().to_string();
    let user_id = hash_string(&concat(now.as_str(), username.as_str()));
    let r = insert_signup(db, username, display_name, &pwd, email_addr, pfp_url, user_key, &user_id);
    assert(sha256_upper_hex(now@ + username@) == user_id@);
    r
}

/// The user whose id is `id`.
pub fn get_user_by_id(db: &Database, id: &String) -> (r: Result<CleoUser, CleoErr>)
    ensures
        found(user_with_id(*db, id@), r),
{
    match position(&db.users, COL_ID, id) {
        Some(i) => Ok(db.users[i].clone()),
        None => Err(CleoErr::with_kind(ErrorKind::NotFound, "No such user.")),
    }
}

/// The user whose username is `username`.
pub fn get_user_by_username(db: &Database, username: &String) -> (r: Result<CleoUser, CleoErr>)
    ensures
        found(user_named(*db, username@), r),
{
    match position(&db.users, COL_USERNAME, username) {
        Some(i) => Ok(db.users[i].clone()),
        None => Err(CleoErr::with_kind(ErrorKind::NotFound, "No such user.")),
    }
}

/// A change of one column of a user's row.
pub enum UserChange {
    Username(String),
    DisplayName(String),
    Email(String),
    Picture(String),
    Password(String),
    Verified(bool),
}

impl Change<CleoUser> for UserChange {
    open spec fn changed(&self, u: CleoUser) -> CleoUser {
        match self {
            UserChange::Username(v) => CleoUser { username: *v, ..u },
            UserChange::DisplayName(v) => CleoUser { display_name: *v, ..u },
            UserChange::Email(v) => CleoUser { email_addr: *v, ..u },
            UserChange::Picture(v) => CleoUser { pfp_url: *v, ..u },
            UserChange::Password(v) => CleoUser { pwd: *v, ..u },
            UserChange::Verified(b) => CleoUser { is_verified: *b, ..u },
        }
    }

    fn apply(&self, u: &CleoUser) -> (r: CleoUser) {
        let mut r = u.clone();
        match self {
            UserChange::Username(v) => r.username = v.clone(),
            UserChange::DisplayName(v) => r.display_name = v.clone(),
            UserChange::Email(v) => r.email_addr = v.clone(),
            UserChange::Picture(v) => r.pfp_url = v.clone(),
            UserChange::Password(v) => r.pwd = v.clone(),
            UserChange::Verified(b) => r.is_verified = *b,
        }
        r
    }
}

/// `new` is `old` with `ch` applied to every user row with id `id`, and no other change.
pub open spec fn user_changed(old: Database, new: Database, id: Seq<char>, ch: UserChange) -> bool {
    &&& new.users@ == update_where(
        old.users@,
        has::<CleoUser>(COL_ID as int, id),
        applied::<CleoUser, UserChange>(ch),
    )
    &&& new == Database { users: new.users, ..old }
}

/// The outcomes of changing the acting user's own row: an unknown token is
/// `NotFound`; otherwise `ch` is applied to the row of the token's holder.
pub open spec fn changes_own_row(old: Database, new: Database, token: Seq<char>, ch: UserChange, r: Result<(), CleoErr>) -> bool {
    match token_holder(old, token) {
        None => fails_with(r, ErrorKind::NotFound) && new == old,
        Some(u) => r is Ok && user_changed(old, new, u.user_id@, ch),
    }
}

fn change_user(db: &mut Database, user_id: &String, ch: &UserChange)
    ensures
        user_changed(*old(db), *final(db), user_id@, *ch),
{
    db.users = update(&db.users, COL_ID, user_id, ch);
}

fn change_own_row(db: &mut Database, api_token: &String, ch: &UserChange) -> (r: Result<(), CleoErr>)
    ensures
        changes_own_row(*old(db), *final(db), api_token@, *ch, r),
{
    let user = get_user_from_token(db, api_token)?;
    change_user(db, &user.user_id, ch);
    Ok(())
}

/// Marks the user with id `user_id` as having confirmed their address.
pub fn set_verified(db: &mut Database, user_id: &str) -> (r: Result<(), CleoErr>)
    ensures
        match user_with_id(*old(db), user_id@) {
            None => fails_with(r, ErrorKind::NotFound) && *final(db) == *old(db),
            Some(u) => r is Ok && user_changed(*old(db), *final(db), user_id@, UserChange::Verified(true)),
        },
{
    let id = user_id.to_owned();
    let _user = get_user_by_id(db, &id)?;
    change_user(db, &id, &UserChange::Verified(true));
    Ok(())
}

/// Renames the acting user. A username that another user holds is refused
/// with `InvalidInput`.
pub fn update_username(db: &mut Database, api_token: &String, new_username: &String) -> (r: Result<(), CleoErr>)
    ensures
        match token_holder(*old(db), api_token@) {
            None => fails_with(r, ErrorKind::NotFound) && *final(db) == *old(db),
            Some(u) => match user_named(*old(db), new_username@) {
                Some(v) if v.user_id@ != u.user_id@ => fails_with(r, ErrorKind::InvalidInput) && *final(db) == *old(db),
                _ => r is Ok && user_changed(*old(db), *final(db), u.user_id@, UserChange::Username(*new_username)),
            },
        },
{
    let user = get_user_from_token(db, api_token)?;
    if let Some(i) = position(&db.users, COL_USERNAME, new_username) {
        if !(db.users[i].user_id == user.user_id) {
            return Err(CleoErr::with_kind(ErrorKind::InvalidInput, "This username is taken."));
        }
    }
    change_user(db, &user.user_id, &UserChange::Username(new_username.clone()));
    Ok(())
}

/// Changes the acting user's email address.
pub fn update_email(db: &mut Database, api_token: &String, new_email: &String) -> (r: Result<(), CleoErr>)
    ensures
        changes_own_row(*old(db), *final(db), api_token@, UserChange::Email(*new_email), r),
{
    change_own_row(db, api_token, &UserChange::Email(new_email.clone()))
}

/// Changes the acting user's display name.
pub fn update_display_name(db: &mut Database, api_token: &String, new_name: &String) -> (r: Result<(), CleoErr>)
    ensures
        changes_own_row(*old(db), *final(db), api_token@, UserChange::DisplayName(*new_name), r),
{
    change_own_row(db, api_token, &UserChange::DisplayName(new_name.clone()))
}

/// Changes the acting user's picture.
pub fn update_pfp(db: &mut Database, api_token: &String, new_pfp_url: &String) -> (r: Result<(), CleoErr>)
    ensures
        changes_own_row(*old(db), *final(db), api_token@, UserChange::Picture(*new_pfp_url), r),
{
    change_own_row(db, api_token, &UserChange::Picture(new_pfp_url.clone()))
}

/// Sets whether the user with id `user_id` has confirmed their address.
pub fn update_verified(db: &mut Database, verified: &bool, user_id: &String) -> (r: Result<(), CleoErr>)
    ensures
        r is Ok,
        user_changed(*old(db), *final(db), user_id@, UserChange::Verified(*verified)),
{
    change_user(db, user_id, &UserChange::Verified(*verified));
    Ok(())
}

/// Changes the acting user's password; the new stored hash is one that bcrypt
/// accepts for `new_password`.
pub fn update_password(db: &mut Database, api_token: &String, new_password: &String) -> (r: Result<(), CleoErr>)
    ensures
        match token_holder(*old(db), api_token@) {
            None => fails_with(r, ErrorKind::NotFound) && *final(db) == *old(db),
            Some(u) => match r {
                Ok(_) => exists|h: String| bcrypt_accepts(new_password@, h@) && user_changed(*old(db), *final(db), u.user_id@, UserChange::Password(h)),
                Err(e) => e.kind == ErrorKind::Downstream && *final(db) == *old(db),
            },
        },
{
    let user = get_user_from_token(db, api_token)?;
    let hashed = match hash_password(new_password, db.hash_cost) {
        Some(h) => h,
        None => return Err(CleoErr::new("Could not hash the password.")),
    };
    set_password_hash(db, &user.user_id, &hashed)
}

/// Stores `pwd` as the password hash of the user with id `user_id`.
pub fn set_password_hash(db: &mut Database, user_id: &String, pwd: &String) -> (r: Result<(), CleoErr>)
    ensures
        r is Ok,
        user_changed(*old(db), *final(db), user_id@, UserChange::Password(*pwd)),
{
    change_user(db, user_id, &UserChange::Password(pwd.clone()));
    Ok(())
}

/// Deletes the user with this username once the password is checked. The
/// user's posts, files, keys and tokens stay where they are.
pub fn delete_user_from_db(db: &mut Database, username: &String, password: &String) -> (r: Result<(), CleoErr>)
    ensures
        match user_named(*old(db), username@) {
            None => fails_with(r, ErrorKind::NotFound) && *final(db) == *old(db),
            Some(u) => if !bcrypt_accepts(password@, u.pwd@) {
                fails_with(r, ErrorKind::InvalidCredentials) && *final(db) == *old(db)
            } else {
                &&& r is Ok
                &&& final(db).users@ == old(db).users@.filter(matching::<CleoUser>(COL_ID as int, u.user_id@, false))
                &&& *final(db) == (Database { users: final(db).users, ..*old(db) })
            },
        },
{
    let user = get_user_by_username(db, username)?;
    if !verify_password(password, &user.pwd) {
        return Err(
            CleoErr::with_kind(ErrorKind::InvalidCredentials, "Could not verify the password."),
        );
    }
    db.users = select(&db.users, COL_ID, &user.user_id, false);
    Ok(())
}

/// Whether a user with id `user_id` exists.
pub fn user_exists_by_user_id(db: &Database, user_id: &String) -> (r: bool)
    ensures
        r == user_with_id(*db, user_id@) is Some,
{
    position(&db.users, COL_ID, user_id).is_some()
}

/// Whether a user with this username exists.
pub fn user_exists_by_username(db: &Database, username: &String) -> (r: bool)
    ensures
        r == user_named(*db, username@) is Some,
{
    position(&db.users, COL_USERNAME, username).is_some()
}

} // verus!
