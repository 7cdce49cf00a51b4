//! Properties that relate several operations of the library, proved from
//! the operations' own contracts.
use vstd::prelude::*;
use crate::db::admin::{edits_instance, sets_up_instance, InstanceChange};
use crate::db::email::{creates_email_token, email_token_row};
use crate::db::general::instance_row;
use crate::db::keys::{issues_key, key_with_secret};
use crate::db::ecf::creates_field;
use crate::db::posts::{creates_post, deletes_post, edits_post, post_with_id};
use crate::db::tokens::{issues_token, token_holder};
use crate::db::users::{creates_user, inserts_signup, user_named, user_with_id, UserChange};
use crate::db::{
    applied, fails_with, has, lemma_find_after_removal, lemma_find_after_update, lemma_find_push,
    Change, Database,
};
use crate::err::{CleoErr, ErrorKind};
use crate::models::{
    CleoUser, EmailToken, ExtraContentField, UserAPIToken, UserKey, UserPost, COL_ID, COL_SECRET,
    COL_USERNAME,
};
use crate::responses::StatusResponse;
use crate::services::verifies_email;
use crate::utils::bcrypt_accepts;

verus! {

/// A user who registered with a password can then ask for a token with it:
/// the request succeeds and the token belongs to that user. Asking with a
/// password that the stored hash does not accept fails with
/// `InvalidCredentials`.
pub proof fn lemma_token_after_signup(
    db0: Database,
    db1: Database,
    db2: Database,
    username: Seq<char>,
    display_name: Seq<char>,
    password: Seq<char>,
    email_addr: Seq<char>,
    pfp_url: Seq<char>,
    secret: Seq<char>,
    u: CleoUser,
    attempt: Seq<char>,
    r: Result<UserAPIToken, CleoErr>,
)
    requires
        creates_user(db0, db1, username, display_name, password, email_addr, pfp_url, secret, Ok(u)),
        issues_token(db1, db2, username, attempt, r),
    ensures
        attempt == password ==> r is Ok,
        r matches Ok(t) ==> t.user_id == u.user_id,
        !bcrypt_accepts(attempt, u.pwd@) ==> fails_with(r, ErrorKind::InvalidCredentials),
{
    lemma_find_push(db0.users@, has::<CleoUser>(COL_USERNAME as int, username), u);
    assert(user_named(db1, username) == Some(u));
}

/// On a post that was just created, a token whose holder is not the post's
/// owner can neither change nor delete it (`NotOwner`, nothing changes),
/// while the owner's token, or any token of the owner, succeeds at both.
/// This holds where the new post's id, made from the clock, was not the id of
/// an earlier post.
pub proof fn lemma_only_owner_changes_post(
    db0: Database,
    db1: Database,
    db2: Database,
    db3: Database,
    owner_token: Seq<char>,
    content_type: Seq<char>,
    text: Seq<char>,
    p: UserPost,
    token: Seq<char>,
    new_text: String,
    r_edit: Result<(), CleoErr>,
    r_delete: Result<(), CleoErr>,
)
    requires
        creates_post(db0, db1, owner_token, content_type, text, Ok(p)),
        post_with_id(db0, p.content_id@) is None,
        edits_post(db1, db2, token, p.content_id@, new_text, r_edit),
        deletes_post(db1, db3, token, p.content_id@, r_delete),
    ensures
        token_holder(db1, token) matches Some(v) && v.user_id@ != p.user_id@ ==> {
            &&& fails_with(r_edit, ErrorKind::NotOwner) && db2 == db1
            &&& fails_with(r_delete, ErrorKind::NotOwner) && db3 == db1
        },
        token_holder(db1, token) matches Some(v) && v.user_id@ == p.user_id@ ==> r_edit is Ok
            && r_delete is Ok,
        token == owner_token ==> r_edit is Ok && r_delete is Ok,
{
    lemma_find_push(db0.posts@, has::<UserPost>(COL_ID as int, p.content_id@), p);
    assert(post_with_id(db1, p.content_id@) == Some(p));
    assert(token_holder(db1, owner_token) == token_holder(db0, owner_token));
}

/// A user who creates a post can attach a field to it with their token,
/// while a token of another user is refused with `NotOwner` and changes
/// nothing. This holds where the new post's id, made from the clock, was not
/// the id of an earlier post.
pub proof fn lemma_field_on_own_post(
    db0: Database,
    db1: Database,
    db2: Database,
    db3: Database,
    owner_token: Seq<char>,
    other_token: Seq<char>,
    content_type: Seq<char>,
    text: Seq<char>,
    p: UserPost,
    key: Seq<char>,
    value: Seq<char>,
    r_owner: Result<ExtraContentField, CleoErr>,
    r_other: Result<ExtraContentField, CleoErr>,
)
    requires
        creates_post(db0, db1, owner_token, content_type, text, Ok(p)),
        post_with_id(db0, p.content_id@) is None,
        creates_field(db1, db2, owner_token, p.content_id@, key, value, r_owner),
        creates_field(db2, db3, other_token, p.content_id@, key, value, r_other),
        token_holder(db0, other_token) matches Some(v) && v.user_id@ != p.user_id@,
    ensures
        r_owner matches Ok(f) && f.content_id@ == p.content_id@ && f.field_key@ == key
            && f.field_value@ == value && db2.fields@ == db1.fields@.push(f),
        fails_with(r_other, ErrorKind::NotOwner),
        db3 == db2,
{
    lemma_find_push(db0.posts@, has::<UserPost>(COL_ID as int, p.content_id@), p);
    assert(post_with_id(db1, p.content_id@) == Some(p));
    assert(token_holder(db1, owner_token) == token_holder(db0, owner_token));
    assert(post_with_id(db2, p.content_id@) == post_with_id(db1, p.content_id@));
    assert(token_holder(db2, other_token) == token_holder(db0, other_token));
}

/// A signup key of kind "admin" (16 characters) makes the user who registers
/// with it an administrator, one of kind "normal" (10 characters) a plain
/// user: registering with a key just issued for a free username succeeds
/// unless hashing the password fails. This holds where the new key's random
/// secret was not the secret of an earlier key.
pub proof fn lemma_signup_key_round_trip(
    db0: Database,
    db1: Database,
    db2: Database,
    admin_token: Seq<char>,
    username: Seq<char>,
    kind: Seq<char>,
    k: UserKey,
    display_name: Seq<char>,
    password: Seq<char>,
    email_addr: Seq<char>,
    pfp_url: Seq<char>,
    r: Result<CleoUser, CleoErr>,
)
    requires
        issues_key(db0, db1, username, kind, admin_token, Ok(k)),
        key_with_secret(db0, k.user_key@) is None,
        user_named(db0, username) is None,
        creates_user(db1, db2, username, display_name, password, email_addr, pfp_url, k.user_key@, r),
    ensures
        r is Ok || fails_with(r, ErrorKind::Downstream),
        r matches Ok(u) ==> u.is_admin == (kind == "admin"@),
        r matches Ok(u) ==> kind == "admin"@ || kind == "normal"@,
{
    lemma_find_push(db0.keys@, has::<UserKey>(COL_SECRET as int, k.user_key@), k);
    assert(key_with_secret(db1, k.user_key@) == Some(k));
    assert(user_named(db1, username) == user_named(db0, username));
}

/// Once the password is hashed and the id made, registering with a signup
/// key just issued for a free username always succeeds, and the new user is
/// an administrator exactly when the key is of kind "admin". This holds where
/// the new key's random secret was not the secret of an earlier key.
pub proof fn lemma_signup_key_admits(
    db0: Database,
    db1: Database,
    db2: Database,
    admin_token: Seq<char>,
    username: Seq<char>,
    kind: Seq<char>,
    k: UserKey,
    display_name: Seq<char>,
    pwd: Seq<char>,
    email_addr: Seq<char>,
    pfp_url: Seq<char>,
    user_id: Seq<char>,
    r: Result<CleoUser, CleoErr>,
)
    requires
        issues_key(db0, db1, username, kind, admin_token, Ok(k)),
        key_with_secret(db0, k.user_key@) is None,
        user_named(db0, username) is None,
        inserts_signup(db1, db2, username, display_name, pwd, email_addr, pfp_url, k.user_key@, user_id, r),
    ensures
        r matches Ok(u) && u.is_admin == (kind == "admin"@) && u.username@ == username,
        kind == "admin"@ || kind == "normal"@,
        db2.users@.len() == db1.users@.len() + 1,
{
    lemma_find_push(db0.keys@, has::<UserKey>(COL_SECRET as int, k.user_key@), k);
    assert(key_with_secret(db1, k.user_key@) == Some(k));
    assert(user_named(db1, username) == user_named(db0, username));
}

/// A signup key of any kind but "admin" and "normal" is refused when it is
/// requested by an administrator, and nothing changes.
pub proof fn lemma_unknown_key_kind_refused(
    db0: Database,
    db1: Database,
    admin_token: Seq<char>,
    username: Seq<char>,
    kind: Seq<char>,
    r: Result<UserKey, CleoErr>,
)
    requires
        issues_key(db0, db1, username, kind, admin_token, r),
        token_holder(db0, admin_token) matches Some(a) && a.is_admin,
        kind != "admin"@,
        kind != "normal"@,
    ensures
        fails_with(r, ErrorKind::InvalidInput),
        db1 == db0,
{
}

/// Confirming an address with a token just issued for an existing user
/// deletes the token and marks the user verified; confirming again with the
/// same secret fails with `NotFound`. This holds where the token's secret,
/// made from the clock, was not the secret of an earlier token.
pub proof fn lemma_email_round_trip(
    db0: Database,
    db1: Database,
    db2: Database,
    db3: Database,
    user_id: Seq<char>,
    t: EmailToken,
    r1: Result<StatusResponse, CleoErr>,
    r2: Result<StatusResponse, CleoErr>,
)
    requires
        user_with_id(db0, user_id) is Some,
        creates_email_token(db0, db1, user_id, Ok(t)),
        email_token_row(db0, t.email_token@) is None,
        verifies_email(db1, db2, t.email_token@, r1),
        verifies_email(db2, db3, t.email_token@, r2),
    ensures
        r1 matches Ok(s) && s.is_ok,
        email_token_row(db2, t.email_token@) is None,
        user_with_id(db2, user_id) matches Some(u) && u.is_verified,
        fails_with(r2, ErrorKind::NotFound),
        db3 == db2,
{
    lemma_find_push(db0.email_tokens@, has::<EmailToken>(COL_SECRET as int, t.email_token@), t);
    assert(email_token_row(db1, t.email_token@) == Some(t));
    assert(user_with_id(db1, user_id) == user_with_id(db0, user_id));
    lemma_find_after_removal(db1.email_tokens@, COL_SECRET as int, t.email_token@);
    let ch = UserChange::Verified(true);
    assert forall|x: CleoUser| #[trigger] has::<CleoUser>(COL_ID as int, user_id)(x) implies has::<CleoUser>(
        COL_ID as int,
        user_id,
    )(applied::<CleoUser, UserChange>(ch)(x)) by {}
    lemma_find_after_update(
        db1.users@,
        has::<CleoUser>(COL_ID as int, user_id),
        applied::<CleoUser, UserChange>(ch),
    );
}

/// Once the instance row exists it stays the only row: a change of a setting
/// leaves one row, changed in the one column that the change names where it
/// succeeded and unchanged where it failed.
pub proof fn lemma_instance_row_stays_single(
    old: Database,
    new: Database,
    token: Seq<char>,
    ch: InstanceChange,
    r: Result<(), CleoErr>,
)
    requires
        old.info@.len() == 1,
        edits_instance(old, new, token, ch, r),
    ensures
        new.info@.len() == 1,
        r is Ok ==> instance_row(new) == Some(ch.changed(old.info@[0])),
        r is Err ==> instance_row(new) == instance_row(old),
{
    if r is Ok {
        assert(new.info@[0] == ch.changed(old.info@[0]));
    }
}

/// After the instance row is written, any number of changes of its settings,
/// by anyone, leave exactly one instance row with the same id: the one that
/// `get_instance_info` returns.
pub proof fn lemma_instance_row_after_changes(
    dbs: Seq<Database>,
    tokens: Seq<Seq<char>>,
    changes: Seq<InstanceChange>,
    results: Seq<Result<(), CleoErr>>,
)
    requires
        dbs.len() == changes.len() + 1,
        tokens.len() == changes.len(),
        results.len() == changes.len(),
        dbs[0].info@.len() == 1,
        forall|i: int|
            0 <= i < changes.len() ==> #[trigger] edits_instance(
                dbs[i],
                dbs[i + 1],
                tokens[i],
                changes[i],
                results[i],
            ),
    ensures
        forall|i: int|
            0 <= i < dbs.len() ==> (#[trigger] dbs[i]).info@.len() == 1 && dbs[i].info@[0].instance_id
                == dbs[0].info@[0].instance_id && instance_row(dbs[i]) == Some(dbs[i].info@[0]),
{
    assert forall|i: int| 0 <= i < dbs.len() implies (#[trigger] dbs[i]).info@.len() == 1
        && dbs[i].info@[0].instance_id == dbs[0].info@[0].instance_id && instance_row(dbs[i])
        == Some(dbs[i].info@[0]) by {
        lemma_instance_row_step(dbs, tokens, changes, results, i);
    }
}

proof fn lemma_instance_row_step(
    dbs: Seq<Database>,
    tokens: Seq<Seq<char>>,
    changes: Seq<InstanceChange>,
    results: Seq<Result<(), CleoErr>>,
    n: int,
)
    requires
        dbs.len() == changes.len() + 1,
        tokens.len() == changes.len(),
        results.len() == changes.len(),
        dbs[0].info@.len() == 1,
        forall|i: int|
            0 <= i < changes.len() ==> #[trigger] edits_instance(
                dbs[i],
                dbs[i + 1],
                tokens[i],
                changes[i],
                results[i],
            ),
        0 <= n < dbs.len(),
    ensures
        dbs[n].info@.len() == 1,
        dbs[n].info@[0].instance_id == dbs[0].info@[0].instance_id,
    decreases n,
{
    if n > 0 {
        lemma_instance_row_step(dbs, tokens, changes, results, n - 1);
        let j = n - 1;
        assert(edits_instance(dbs[j], dbs[j + 1], tokens[j], changes[j], results[j]));
        lemma_instance_row_stays_single(dbs[j], dbs[j + 1], tokens[j], changes[j], results[j]);
    }
}

/// Setting the instance up a second time changes nothing: there is at most
/// one instance row whatever the number of runs.
pub proof fn lemma_instance_setup_idempotent(
    old: Database,
    new: Database,
    smtp_server: Seq<char>,
    hostname: Seq<char>,
    instance_name: Seq<char>,
    smtp_username: Seq<char>,
    smtp_pass: Seq<char>,
    file_dir: Seq<char>,
    r: Result<usize, CleoErr>,
)
    requires
        old.info@.len() <= 1,
        sets_up_instance(old, new, smtp_server, hostname, instance_name, smtp_username, smtp_pass, file_dir, r),
    ensures
        new.info@.len() == 1,
        old.info@.len() == 1 ==> new == old,
{
}

} // verus!
