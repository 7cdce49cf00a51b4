use vstd::prelude::*;
use crate::db::posts::{get_post_by_id, post_with_id};
use crate::db::tokens::{get_user_from_token, token_holder};
use crate::db::{
    applied, fails_with, find, found, has, matching, position, select, update, update_where, Change,
    Database,
};
use crate::err::{CleoErr, ErrorKind};
use crate::models::{ExtraContentField, COL_ID};
use crate::utils::{concat, TimeNow};

verus! {

/// The extra field whose id is `id`.
pub open spec fn field_with_id(db: Database, id: Seq<char>) -> Option<ExtraContentField> {
    find(db.fields@, has::<ExtraContentField>(COL_ID as int, id))
}

/// The guard of a change to the fields of post `content_id`: an unknown post
/// or token is `NotFound`, and a post that the token's holder does not own
/// is `NotOwner`. Fields inherit their owner from their post.
pub open spec fn post_gate(db: Database, token: Seq<char>, content_id: Seq<char>) -> Option<ErrorKind> {
    match post_with_id(db, content_id) {
        None => Some(ErrorKind::NotFound),
        Some(p) => match token_holder(db, token) {
            None => Some(ErrorKind::NotFound),
            Some(u) => if p.user_id@ != u.user_id@ {
                Some(ErrorKind::NotOwner)
            } else {
                None
            },
        },
    }
}

/// The guard of a change to field `field_id` of post `content_id`: the post
/// gate, then an unknown field is `NotFound` and a field of another post
/// `NotOwner`.
pub open spec fn field_gate(db: Database, token: Seq<char>, content_id: Seq<char>, field_id: Seq<char>) -> Option<ErrorKind> {
    if post_gate(db, token, content_id) is Some {
        post_gate(db, token, content_id)
    } else {
        match field_with_id(db, field_id) {
            None => Some(ErrorKind::NotFound),
            Some(f) => if f.content_id@ != content_id {
                Some(ErrorKind::NotOwner)
            } else {
                None
            },
        }
    }
}

/// The outcomes of attaching a field to post `content_id`: the post gate,
/// then a field is appended whose id is the value followed by the current time.
pub open spec fn creates_field(
    old: Database,
    new: Database,
    token: Seq<char>,
    content_id: Seq<char>,
    key: Seq<char>,
    value: Seq<char>,
    r: Result<ExtraContentField, CleoErr>,
) -> bool {
    match post_gate(old, token, content_id) {
        Some(k) => fails_with(r, k) && new == old,
        None => match r {
            Ok(f) => {
                &&& f.content_id@ == content_id
                &&& f.field_key@ == key
                &&& f.field_value@ == value
                &&& exists|s: Seq<char>| #[trigger] (value + s) == f.field_id@
                &&& new.fields@ == old.fields@.push(f)
                &&& new == Database { fields: new.fields, ..old }
            },
            Err(_) => false,
        },
    }
}

fn check_post_gate(db: &Database, api_token: &String, content_id: &String) -> (r: Result<(), CleoErr>)
    ensures
        match post_gate(*db, api_token@, content_id@) {
            Some(k) => fails_with(r, k),
            None => r is Ok,
        },
{
    let post = get_post_by_id(db, content_id)?;
    let user = get_user_from_token(db, api_token)?;
    if !(user.user_id == post.user_id) {
        return Err(
            CleoErr::with_kind(ErrorKind::NotOwner, "Could not verify ownership of token."),
        );
    }
    Ok(())
}

fn check_field_gate(db: &Database, api_token: &String, content_id: &String, field_id: &String) -> (r:
    Result<(), CleoErr>)
    ensures
        match field_gate(*db, api_token@, content_id@, field_id@) {
            Some(k) => fails_with(r, k),
            None => r is Ok,
        },
{
    check_post_gate(db, api_token, content_id)?;
    let field = get_extra_field_by_id(db, field_id)?;
    if !(field.content_id == *content_id) {
        return Err(
            CleoErr::with_kind(ErrorKind::NotOwner, "The field belongs to another post."),
        );
    }
    Ok(())
}

/// Attaches the field `field_key` = `field_value` to post `content_id`; only
/// the post's owner may.
pub fn create_extra_field_for_post(
    db: &mut Database,
    api_token: &String,
    content_id: &String,
    field_key: &String,
    field_value: &String,
) -> (r: Result<ExtraContentField, CleoErr>)
    ensures
        creates_field(*old(db), *final(db), api_token@, content_id@, field_key@, field_value@, r),
{
    check_post_gate(db, api_token, content_id)?;
    let now = TimeNow::new().to_string();
    let field_id = concat(field_value.as_str(), now.as_str());
    let row = ExtraContentField {
        field_id,
        content_id: content_id.clone(),
        field_key: field_key.clone(),
        field_value: field_value.clone(),
    };
    db.fields.push(row.clone());
    assert(field_value@ + now@ == row.field_id@);
    Ok(row)
}

/// The extra field whose id is `field_id`.
pub fn get_extra_field_by_id(db: &Database, field_id: &String) -> (r: Result<ExtraContentField, CleoErr>)
    ensures
        found(field_with_id(*db, field_id@), r),
{
    match position(&db.fields, COL_ID, field_id) {
        Some(i) => Ok(db.fields[i].clone()),
        None => Err(CleoErr::with_kind(ErrorKind::NotFound, "No such field.")),
    }
}

/// A change of the key or the value of an extra field.
pub enum FieldChange {
    Key(String),
    Value(String),
}

impl Change<ExtraContentField> for FieldChange {
    open spec fn changed(&self, f: ExtraContentField) -> ExtraContentField {
        match self {
            FieldChange::Key(v) => ExtraContentField { field_key: *v, ..f },
            FieldChange::Value(v) => ExtraContentField { field_value: *v, ..f },
        }
    }

    fn apply(&self, f: &ExtraContentField) -> (r: ExtraContentField) {
        let mut r = f.clone();
        match self {
            FieldChange::Key(v) => r.field_key = v.clone(),
            FieldChange::Value(v) => r.field_value = v.clone(),
        }
        r
    }
}

/// The outcomes of changing field `field_id` of post `content_id` by `ch`.
pub open spec fn edits_field(old: Database, new: Database, token: Seq<char>, content_id: Seq<char>, field_id: Seq<char>, ch: FieldChange, r: Result<(), CleoErr>) -> bool {
    match field_gate(old, token, content_id, field_id) {
        Some(k) => fails_with(r, k) && new == old,
        None => {
            &&& r is Ok
            &&& new.fields@ == update_where(
                old.fields@,
                has::<ExtraContentField>(COL_ID as int, field_id),
                applied::<ExtraContentField, FieldChange>(ch),
            )
            &&& new == Database { fields: new.fields, ..old }
        },
    }
}

fn edit_field(db: &mut Database, api_token: &String, content_id: &String, field_id: &String, ch: &FieldChange) -> (r:
    Result<(), CleoErr>)
    ensures
        edits_field(*old(db), *final(db), api_token@, content_id@, field_id@, *ch, r),
{
    check_field_gate(db, api_token, content_id, field_id)?;
    db.fields = update(&db.fields, COL_ID, field_id, ch);
    Ok(())
}

/// Deletes field `field_id` of post `content_id`; only the post's owner may.
pub fn delete_extra_field_for_post(db: &mut Database, api_token: &String, content_id: &String, field_id: &String) -> (r:
    Result<(), CleoErr>)
    ensures
        match field_gate(*old(db), api_token@, content_id@, field_id@) {
            Some(k) => fails_with(r, k) && *final(db) == *old(db),
            None => {
                &&& r is Ok
                &&& final(db).fields@ == old(db).fields@.filter(
                    matching::<ExtraContentField>(COL_ID as int, field_id@, false),
                )
                &&& *final(db) == (Database { fields: final(db).fields, ..*old(db) })
            },
        },
{
    check_field_gate(db, api_token, content_id, field_id)?;
    db.fields = select(&db.fields, COL_ID, field_id, false);
    Ok(())
}

/// Renames the key of field `field_id` of post `content_id`; only the post's owner may.
pub fn edit_extra_field_key_for_post(
    db: &mut Database,
    api_token: &String,
    content_id: &String,
    field_id: &String,
    field_key_new: &String,
) -> (r: Result<(), CleoErr>)
    ensures
        edits_field(*old(db), *final(db), api_token@, content_id@, field_id@, FieldChange::Key(*field_key_new), r),
{
    edit_field(db, api_token, content_id, field_id, &FieldChange::Key(field_key_new.clone()))
}

/// Replaces the value of field `field_id` of post `content_id`; only the post's owner may.
pub fn edit_extra_field_value_for_post(
    db: &mut Database,
    api_token: &String,
    content_id: &String,
    field_id: &String,
    field_value_new: &String,
) -> (r: Result<(), CleoErr>)
    ensures
        edits_field(*old(db), *final(db), api_token@, content_id@, field_id@, FieldChange::Value(*field_value_new), r),
{
    edit_field(db, api_token, content_id, field_id, &FieldChange::Value(field_value_new.clone()))
}

} // verus!
