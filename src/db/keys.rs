use vstd::prelude::*;
use crate::db::tokens::{get_user_from_token, token_holder};
use crate::db::{fails_with, find, found, has, matching, position, select, update, update_where, applied, Change, Database};
use crate::err::{CleoErr, ErrorKind};
use crate::models::{UserKey, COL_HOLDER, COL_ID, COL_SECRET};
use crate::utils::{concat, generate_key, is_key_text, TimeNow};

verus! {

/// The signup key whose secret is `secret`.
pub open spec fn key_with_secret(db: Database, secret: Seq<char>) -> Option<UserKey> {
    find(db.keys@, has::<UserKey>(COL_SECRET as int, secret))
}

/// The signup key whose id is `id`.
pub open spec fn key_with_id(db: Database, id: Seq<char>) -> Option<UserKey> {
    find(db.keys@, has::<UserKey>(COL_ID as int, id))
}

/// The length of the secret of a key of kind `kind`: 16 for "admin", 10 for
/// "normal", none for any other kind.
pub open spec fn key_length(kind: Seq<char>) -> Option<nat> {
    if kind == "admin"@ {
        Some(16)
    } else if kind == "normal"@ {
        Some(10)
    } else {
        None
    }
}

/// Marks a signup key as used.
pub struct MarkUsed;

impl Change<UserKey> for MarkUsed {
    open spec fn changed(&self, k: UserKey) -> UserKey {
        UserKey { key_used: true, ..k }
    }

    fn apply(&self, k: &UserKey) -> (r: UserKey) {
        let mut r = k.clone();
        r.key_used = true;
        r
    }
}

/// The outcomes of issuing a signup key.
///
/// The bearer of `token` must be an administrator (`NotFound`, `NotAdmin`),
/// and `kind` must be "admin" or "normal" (`InvalidInput`). The new key has a
/// secret of the kind's length drawn from the key alphabet and an id that is
/// the secret followed by the current time, is unused,
/// and names the administrator as issuer and `username` as the one it is for.
pub open spec fn issues_key(
    old: Database,
    new: Database,
    username: Seq<char>,
    kind: Seq<char>,
    token: Seq<char>,
    r: Result<UserKey, CleoErr>,
) -> bool {
    match token_holder(old, token) {
        None => fails_with(r, ErrorKind::NotFound) && new == old,
        Some(a) => if !a.is_admin {
            fails_with(r, ErrorKind::NotAdmin) && new == old
        } else if key_length(kind) is None {
            fails_with(r, ErrorKind::InvalidInput) && new == old
        } else {
            match r {
                Ok(k) => {
                    &&& k.user_id == a.user_id
                    &&& k.username@ == username
                    &&& k.key_type@ == kind
                    &&& !k.key_used
                    &&& key_length(kind) == Some(k.user_key@.len())
                    &&& is_key_text(k.user_key@)
                    &&& exists|s: Seq<char>| #[trigger] (k.user_key@ + s) == k.key_id@
                    &&& new.keys@ == old.keys@.push(k)
                    &&& new == Database { keys: new.keys, ..old }
                },
                Err(_) => false,
            }
        },
    }
}

/// Issues a signup key of kind `key_type` for `username`; only an administrator may.
pub fn create_user_key(db: &mut Database, username: &String, key_type: &String, api_token: &String) -> (r:
    Result<UserKey, CleoErr>)
    ensures
        issues_key(*old(db), *final(db), username@, key_type@, api_token@, r),
{
    let user = get_user_from_token(db, api_token)?;
    if !user.is_admin {
        return Err(CleoErr::with_kind(ErrorKind::NotAdmin, "User is not an administrator."));
    }
    let admin = "admin".to_owned();
    let normal = "normal".to_owned();
    let size: usize = if *key_type == admin {
        16
    } else if *key_type == normal {
        10
    } else {
        return Err(
            CleoErr::with_kind(ErrorKind::InvalidInput, "This is not a valid user key type."),
        );
    };
    let user_key = generate_key(&size)?;
    let now = TimeNow::new().to_string();
    let key_id = concat(user_key.as_str(), now.as_str());
    let row = UserKey {
        key_id,
        user_id: user.user_id.clone(),
        user_key,
        key_type: key_type.clone(),
        key_used: false,
        username: username.clone(),
    };
    db.keys.push(row.clone());
    assert(row.user_key@ + now@ == row.key_id@);
    Ok(row)
}

/// The signup key whose id is `user_key_id`.
pub fn get_user_key_by_id(db: &Database, user_key_id: &String) -> (r: Result<UserKey, CleoErr>)
    ensures
        found(key_with_id(*db, user_key_id@), r),
{
    match position(&db.keys, COL_ID, user_key_id) {
        Some(i) => Ok(db.keys[i].clone()),
        None => Err(CleoErr::with_kind(ErrorKind::NotFound, "No such key.")),
    }
}

/// The guard of an operation that only an administrator may perform: an
/// unknown token is `NotFound`, a holder who is no administrator `NotAdmin`,
/// and otherwise the operation succeeds.
pub open spec fn admin_gate<T>(db: Database, token: Seq<char>, r: Result<T, CleoErr>) -> bool {
    match token_holder(db, token) {
        None => fails_with(r, ErrorKind::NotFound),
        Some(a) => if !a.is_admin {
            fails_with(r, ErrorKind::NotAdmin)
        } else {
            r is Ok
        },
    }
}

/// Deletes the signup key with id `key_id`; only an administrator may.
pub fn delete_user_key(db: &mut Database, api_token: &String, key_id: &String) -> (r: Result<(), CleoErr>)
    ensures
        admin_gate(*old(db), api_token@, r),
        r is Err ==> *final(db) == *old(db),
        r is Ok ==> final(db).keys@ == old(db).keys@.filter(
            matching::<UserKey>(COL_ID as int, key_id@, false),
        ),
        r is Ok ==> *final(db) == (Database { keys: final(db).keys, ..*old(db) }),
{
    let user = get_user_from_token(db, api_token)?;
    if !user.is_admin {
        return Err(CleoErr::with_kind(ErrorKind::NotAdmin, "User is not an administrator."));
    }
    db.keys = select(&db.keys, COL_ID, key_id, false);
    Ok(())
}

/// Marks the signup key with id `key_id` as used.
pub fn change_user_key_status(db: &mut Database, key_id: &String) -> (r: Result<(), CleoErr>)
    ensures
        r is Ok,
        final(db).keys@ == update_where(old(db).keys@, has::<UserKey>(COL_ID as int, key_id@), applied::<UserKey, MarkUsed>(MarkUsed)),
        *final(db) == (Database { keys: final(db).keys, ..*old(db) }),
{
    db.keys = update(&db.keys, COL_ID, key_id, &MarkUsed);
    Ok(())
}

/// The signup keys that the acting administrator issued.
pub fn get_user_keys(db: &Database, api_token: &String) -> (r: Result<Vec<UserKey>, CleoErr>)
    ensures
        match token_holder(*db, api_token@) {
            None => fails_with(r, ErrorKind::NotFound),
            Some(a) => if !a.is_admin {
                fails_with(r, ErrorKind::NotAdmin)
            } else {
                r matches Ok(v) && v@ == db.keys@.filter(
                    matching::<UserKey>(COL_HOLDER as int, a.user_id@, true),
                )
            },
        },
{
    let user = get_user_from_token(db, api_token)?;
    if !user.is_admin {
        return Err(CleoErr::with_kind(ErrorKind::NotAdmin, "User is not an administrator."));
    }
    Ok(select(&db.keys, COL_HOLDER, &user.user_id, true))
}

/// Whether some signup key has the secret `user_key`.
pub fn user_key_exists(db: &Database, user_key: &String) -> (r: bool)
    ensures
        r == key_with_secret(*db, user_key@) is Some,
{
    position(&db.keys, COL_SECRET, user_key).is_some()
}

} // verus!
