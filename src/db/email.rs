use vstd::prelude::*;
use crate::db::{find, found, has, matching, position, select, Database};
use crate::err::{CleoErr, ErrorKind};
use crate::models::{EmailToken, COL_ID, COL_SECRET};
use crate::utils::{concat, hash_string, sha256_upper_hex, TimeNow};

verus! {

/// The email token whose secret is `secret`.
pub open spec fn email_token_row(db: Database, secret: Seq<char>) -> Option<EmailToken> {
    find(db.email_tokens@, has::<EmailToken>(COL_SECRET as int, secret))
}

/// The email token whose id is `id`.
pub open spec fn email_token_with_id(db: Database, id: Seq<char>) -> Option<EmailToken> {
    find(db.email_tokens@, has::<EmailToken>(COL_ID as int, id))
}

/// The outcomes of issuing an email token for `user_id`: a token row is
/// appended whose id is the digest of the current time and whose secret is
/// the digest of the user's id, a colon and the same time.
pub open spec fn creates_email_token(old: Database, new: Database, user_id: Seq<char>, r: Result<EmailToken, CleoErr>) -> bool {
    match r {
        Ok(t) => {
            &&& t.user_id@ == user_id
            &&& exists|s: Seq<char>|
                t.etoken_id@ == sha256_upper_hex(s) && #[trigger] sha256_upper_hex(
                    user_id + ":"@ + s,
                ) == t.email_token@
            &&& new.email_tokens@ == old.email_tokens@.push(t)
            &&& new == Database { email_tokens: new.email_tokens, ..old }
        },
        Err(_) => false,
    }
}

/// Issues a single-use secret that confirms the address of user `user_id`.
pub fn create_email_token(db: &mut Database, user_id: &String) -> (r: Result<EmailToken, CleoErr>)
    ensures
        creates_email_token(*old(db), *final(db), user_id@, r),
{
    let now = TimeNow::new().to_string();
    let with_colon = concat(user_id.as_str(), ":");
    let email_token = hash_string(&concat(with_colon.as_str(), now.as_str()));
    let etoken_id = hash_string(&now);
    let row = EmailToken { etoken_id, email_token, user_id: user_id.clone() };
    db.email_tokens.push(row.clone());
    assert(sha256_upper_hex(user_id@ + ":"@ + now@) == row.email_token@);
    Ok(row)
}

/// The email token whose secret is `token`.
pub fn get_object_from_token(db: &Database, token: &String) -> (r: Result<EmailToken, CleoErr>)
    ensures
        found(email_token_row(*db, token@), r),
{
    match position(&db.email_tokens, COL_SECRET, token) {
        Some(i) => Ok(db.email_tokens[i].clone()),
        None => Err(CleoErr::with_kind(ErrorKind::NotFound, "No such email token.")),
    }
}

/// Deletes the email tokens whose secret is `token`.
pub fn delete_email_token(db: &mut Database, token: &String) -> (r: Result<(), CleoErr>)
    ensures
        r is Ok,
        final(db).email_tokens@ == old(db).email_tokens@.filter(
            matching::<EmailToken>(COL_SECRET as int, token@, false),
        ),
        *final(db) == (Database { email_tokens: final(db).email_tokens, ..*old(db) }),
{
    db.email_tokens = select(&db.email_tokens, COL_SECRET, token, false);
    Ok(())
}

} // verus!
