use vstd::prelude::*;
use crate::db::tokens::{get_user_from_token, token_holder};
use crate::db::{
    applied, fails_with, find, found, has, matching, position, select, update, update_where, Change,
    Database,
};
use crate::err::{CleoErr, ErrorKind};
use crate::models::{UserPost, COL_ID, COL_OWNER};
use crate::utils::{concat, hash_string, sha256_upper_hex, TimeNow};

verus! {

/// The post whose id is `id`.
pub open spec fn post_with_id(db: Database, id: Seq<char>) -> Option<UserPost> {
    find(db.posts@, has::<UserPost>(COL_ID as int, id))
}

/// Whether `t` names a kind of content: "page" or "post".
pub open spec fn is_content_type(t: Seq<char>) -> bool {
    t == "page"@ || t == "post"@
}

/// The first 16 characters of `text`, or all of it where it is shorter.
pub open spec fn snippet(text: Seq<char>) -> Seq<char> {
    if text.len() <= 16 {
        text
    } else {
        text.take(16)
    }
}

/// The outcomes of creating a post: an unknown token is `NotFound`, an
/// unknown kind of content `InvalidInput`; otherwise a post of the token's
/// holder is appended, whose id is the digest of the current time followed
/// by the first 16 characters of the text. Such digests are taken to be
/// unique and are not checked.
pub open spec fn creates_post(
    old: Database,
    new: Database,
    token: Seq<char>,
    content_type: Seq<char>,
    text: Seq<char>,
    r: Result<UserPost, CleoErr>,
) -> bool {
    match token_holder(old, token) {
        None => fails_with(r, ErrorKind::NotFound) && new == old,
        Some(u) => if !is_content_type(content_type) {
            fails_with(r, ErrorKind::InvalidInput) && new == old
        } else {
            match r {
                Ok(p) => {
                    &&& p.user_id == u.user_id
                    &&& p.content_type@ == content_type
                    &&& p.content_text@ == text
                    &&& exists|s: Seq<char>| #[trigger] sha256_upper_hex(s + snippet(text)) == p.content_id@
                    &&& new.posts@ == old.posts@.push(p)
                    &&& new == Database { posts: new.posts, ..old }
                },
                Err(_) => false,
            }
        },
    }
}

/// The first 16 characters of `text`.
pub fn content_snippet(text: &String) -> (r: String)
    ensures
        r@ == snippet(text@),
{
    let n = text.as_str().unicode_len();
    if n <= 16 {
        text.clone()
    } else {
        text.as_str().substring_char(0, 16).to_owned()
    }
}

/// Creates a post of kind `content_type` ("page" or "post") for the bearer of `api_token`.
pub fn create_user_post(
    db: &mut Database,
    api_token: &String,
    content_type: &String,
    content_text: &String,
) -> (r: Result<UserPost, CleoErr>)
    ensures
        creates_post(*old(db), *final(db), api_token@, content_type@, content_text@, r),
{
    let user = get_user_from_token(db, api_token)?;
    let page = "page".to_owned();
    let post = "post".to_owned();
    if !(*content_type == page || *content_type == post) {
        return Err(CleoErr::with_kind(ErrorKind::InvalidInput, "Unknown content type."));
    }
    let now = TimeNow::new().to_string();
    let source = concat(now.as_str(), content_snippet(content_text).as_str());
    let content_id = hash_string(&source);
    let row = UserPost {
        content_id,
        user_id: user.user_id.clone(),
        content_type: content_type.clone(),
        content_text: content_text.clone(),
    };
    db.posts.push(row.clone());
    assert(sha256_upper_hex(now@ + snippet(content_text@)) == row.content_id@);
    Ok(row)
}

/// The post whose id is `content_id`.
pub fn get_post_by_id(db: &Database, content_id: &String) -> (r: Result<UserPost, CleoErr>)
    ensures
        found(post_with_id(*db, content_id@), r),
{
    match position(&db.posts, COL_ID, content_id) {
        Some(i) => Ok(db.posts[i].clone()),
        None => Err(CleoErr::with_kind(ErrorKind::NotFound, "No such post.")),
    }
}

/// The ownership guard of a post: an unknown token or post is `NotFound`, a
/// post that the token's holder does not own is `NotOwner`, and otherwise
/// the operation succeeds.
pub open spec fn post_owner_gate<T>(db: Database, token: Seq<char>, content_id: Seq<char>, r: Result<T, CleoErr>) -> bool {
    match token_holder(db, token) {
        None => fails_with(r, ErrorKind::NotFound),
        Some(u) => match post_with_id(db, content_id) {
            None => fails_with(r, ErrorKind::NotFound),
            Some(p) => if p.user_id@ != u.user_id@ {
                fails_with(r, ErrorKind::NotOwner)
            } else {
                r is Ok
            },
        },
    }
}

/// Replaces the text of a post.
pub struct NewText(pub String);

impl Change<UserPost> for NewText {
    open spec fn changed(&self, p: UserPost) -> UserPost {
        UserPost { content_text: self.0, ..p }
    }

    fn apply(&self, p: &UserPost) -> (r: UserPost) {
        let mut r = p.clone();
        r.content_text = self.0.clone();
        r
    }
}

/// The outcomes of replacing the text of post `content_id` by `text`.
pub open spec fn edits_post(old: Database, new: Database, token: Seq<char>, content_id: Seq<char>, text: String, r: Result<(), CleoErr>) -> bool {
    &&& post_owner_gate(old, token, content_id, r)
    &&& r is Err ==> new == old
    &&& r is Ok ==> new.posts@ == update_where(
        old.posts@,
        has::<UserPost>(COL_ID as int, content_id),
        applied::<UserPost, NewText>(NewText(text)),
    )
    &&& r is Ok ==> new == Database { posts: new.posts, ..old }
}

/// The outcomes of deleting post `content_id`.
pub open spec fn deletes_post(old: Database, new: Database, token: Seq<char>, content_id: Seq<char>, r: Result<(), CleoErr>) -> bool {
    &&& post_owner_gate(old, token, content_id, r)
    &&& r is Err ==> new == old
    &&& r is Ok ==> new.posts@ == old.posts@.filter(matching::<UserPost>(COL_ID as int, content_id, false))
    &&& r is Ok ==> new == Database { posts: new.posts, ..old }
}

fn check_post_owner(db: &Database, api_token: &String, content_id: &String) -> (r: Result<(), CleoErr>)
    ensures
        post_owner_gate(*db, api_token@, content_id@, r),
{
    let user = get_user_from_token(db, api_token)?;
    let post = get_post_by_id(db, content_id)?;
    if !(user.user_id == post.user_id) {
        return Err(
            CleoErr::with_kind(ErrorKind::NotOwner, "Could not verify ownership of the post."),
        );
    }
    Ok(())
}

/// Replaces the text of post `content_id`; only its owner may.
pub fn update_post_text(db: &mut Database, api_token: &String, content_id: &String, text: &String) -> (r:
    Result<(), CleoErr>)
    ensures
        edits_post(*old(db), *final(db), api_token@, content_id@, *text, r),
{
    check_post_owner(db, api_token, content_id)?;
    db.posts = update(&db.posts, COL_ID, content_id, &NewText(text.clone()));
    Ok(())
}

/// Deletes post `content_id`; only its owner may.
pub fn delete_post(db: &mut Database, api_token: &String, content_id: &String) -> (r: Result<(), CleoErr>)
    ensures
        deletes_post(*old(db), *final(db), api_token@, content_id@, r),
{
    check_post_owner(db, api_token, content_id)?;
    db.posts = select(&db.posts, COL_ID, content_id, false);
    Ok(())
}

/// The posts of the bearer of `api_token`, in the order they were created.
pub fn get_user_posts(db: &Database, api_token: &String) -> (r: Result<Vec<UserPost>, CleoErr>)
    ensures
        match token_holder(*db, api_token@) {
            None => fails_with(r, ErrorKind::NotFound),
            Some(u) => r matches Ok(v) && v@ == db.posts@.filter(
                matching::<UserPost>(COL_OWNER as int, u.user_id@, true),
            ),
        },
{
    let user = get_user_from_token(db, api_token)?;
    Ok(select(&db.posts, COL_OWNER, &user.user_id, true))
}

} // verus!
