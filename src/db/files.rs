use vstd::prelude::*;
use crate::db::tokens::{get_user_from_token, token_holder};
use crate::db::{fails_with, find, found, has, matching, position, select, Database};
use crate::err::{CleoErr, ErrorKind};
use crate::models::{UserFile, COL_ID, COL_OWNER};
use crate::utils::{concat, TimeNow};

verus! {

/// The file whose id is `id`.
pub open spec fn file_with_id(db: Database, id: Seq<char>) -> Option<UserFile> {
    find(db.files@, has::<UserFile>(COL_ID as int, id))
}

/// The outcomes of recording an uploaded file: an unknown token is
/// `NotFound`; otherwise a file row of the token's holder is appended, whose
/// id is the current time followed by the path.
pub open spec fn creates_file(
    old: Database,
    new: Database,
    token: Seq<char>,
    file_path: Seq<char>,
    file_url: Seq<char>,
    r: Result<UserFile, CleoErr>,
) -> bool {
    match token_holder(old, token) {
        None => fails_with(r, ErrorKind::NotFound) && new == old,
        Some(u) => match r {
            Ok(f) => {
                &&& f.user_id == u.user_id
                &&& f.file_path@ == file_path
                &&& f.file_url@ == file_url
                &&& exists|s: Seq<char>| #[trigger] (s + file_path) == f.file_id@
                &&& new.files@ == old.files@.push(f)
                &&& new == Database { files: new.files, ..old }
            },
            Err(_) => false,
        },
    }
}

/// Records a file stored at `file_path` and served at `file_url` for the bearer of `api_token`.
pub fn create_user_file(db: &mut Database, api_token: &String, file_path: &String, file_url: &String) -> (r:
    Result<UserFile, CleoErr>)
    ensures
        creates_file(*old(db), *final(db), api_token@, file_path@, file_url@, r),
{
    let user = get_user_from_token(db, api_token)?;
    let now = TimeNow::new().to_string();
    let file_id = concat(now.as_str(), file_path.as_str());
    let row = UserFile {
        file_id,
        user_id: user.user_id.clone(),
        file_path: file_path.clone(),
        file_url: file_url.clone(),
    };
    db.files.push(row.clone());
    assert(now@ + file_path@ == row.file_id@);
    Ok(row)
}

/// The file whose id is `file_id`.
pub fn get_file_by_id(db: &Database, file_id: &String) -> (r: Result<UserFile, CleoErr>)
    ensures
        found(file_with_id(*db, file_id@), r),
{
    match position(&db.files, COL_ID, file_id) {
        Some(i) => Ok(db.files[i].clone()),
        None => Err(CleoErr::with_kind(ErrorKind::NotFound, "No such file.")),
    }
}

/// Deletes the record of file `file_id`; only the user who uploaded it may.
///
/// Ownership is checked against the file's owner, so a user cannot remove
/// another user's file by knowing its id.
pub fn delete_user_file(db: &mut Database, api_token: &String, file_id: &String) -> (r: Result<(), CleoErr>)
    ensures
        match token_holder(*old(db), api_token@) {
            None => fails_with(r, ErrorKind::NotFound) && *final(db) == *old(db),
            Some(u) => match file_with_id(*old(db), file_id@) {
                None => fails_with(r, ErrorKind::NotFound) && *final(db) == *old(db),
                Some(f) => if f.user_id@ != u.user_id@ {
                    fails_with(r, ErrorKind::NotOwner) && *final(db) == *old(db)
                } else {
                    &&& r is Ok
                    &&& final(db).files@ == old(db).files@.filter(
                        matching::<UserFile>(COL_ID as int, file_id@, false),
                    )
                    &&& *final(db) == (Database { files: final(db).files, ..*old(db) })
                },
            },
        },
{
    let user = get_user_from_token(db, api_token)?;
    let file = get_file_by_id(db, file_id)?;
    if !(user.user_id == file.user_id) {
        return Err(
            CleoErr::with_kind(ErrorKind::NotOwner, "Could not verify ownership of the file."),
        );
    }
    db.files = select(&db.files, COL_ID, file_id, false);
    Ok(())
}

/// The files of the bearer of `api_token`, in the order they were recorded.
pub fn get_user_files(db: &Database, api_token: &String) -> (r: Result<Vec<UserFile>, CleoErr>)
    ensures
        match token_holder(*db, api_token@) {
            None => fails_with(r, ErrorKind::NotFound),
            Some(u) => r matches Ok(v) && v@ == db.files@.filter(
                matching::<UserFile>(COL_OWNER as int, u.user_id@, true),
            ),
        },
{
    let user = get_user_from_token(db, api_token)?;
    Ok(select(&db.files, COL_OWNER, &user.user_id, true))
}

} // verus!
