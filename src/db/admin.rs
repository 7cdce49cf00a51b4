use vstd::prelude::*;
use crate::db::general::{get_instance_info, instance_row};
use crate::db::keys::admin_gate;
use crate::db::tokens::{get_user_from_token, token_holder};
use crate::db::{applied, fails_with, has, update, update_where, Change, Database};
use crate::err::{CleoErr, ErrorKind};
use crate::models::{CleoUser, InstanceInformation, COL_ID};
use crate::utils::{concat, hash_string, sha256_upper_hex};

verus! {

/// The users whose administrator flag is `is_admin`.
pub open spec fn with_role(is_admin: bool) -> spec_fn(CleoUser) -> bool {
    |u: CleoUser| u.is_admin == is_admin
}

/// The users of `users` whose administrator flag is `is_admin`, in their order.
pub fn select_by_role(users: &Vec<CleoUser>, is_admin: bool) -> (r: Vec<CleoUser>)
    ensures
        r@ == users@.filter(with_role(is_admin)),
{
    let mut out: Vec<CleoUser> = Vec::new();
    let mut i: usize = 0;
    while i < users.len()
        invariant
            i <= users@.len(),
            out@ == users@.take(i as int).filter(with_role(is_admin)),
        decreases users@.len() - i,
    {
        assert(users@.take(i as int + 1) =~= users@.take(i as int).push(users@[i as int]));
        proof {
            users@.take(i as int).lemma_filter_push(users@[i as int], with_role(is_admin));
        }
        if users[i].is_admin == is_admin {
            out.push(users[i].clone());
        }
        i += 1;
    }
    assert(users@.take(i as int) =~= users@);
    out
}

/// The users who are not administrators; only an administrator may list them.
pub fn get_instance_users(db: &Database, api_token: &String) -> (r: Result<Vec<CleoUser>, CleoErr>)
    ensures
        admin_gate(*db, api_token@, r),
        r matches Ok(v) ==> v@ == db.users@.filter(with_role(false)),
{
    let user = get_user_from_token(db, api_token)?;
    if !user.is_admin {
        return Err(CleoErr::with_kind(ErrorKind::NotAdmin, "User is not an administrator."));
    }
    Ok(select_by_role(&db.users, false))
}

/// The administrators; only an administrator may list them.
pub fn get_instance_admins(db: &Database, api_token: &String) -> (r: Result<Vec<CleoUser>, CleoErr>)
    ensures
        admin_gate(*db, api_token@, r),
        r matches Ok(v) ==> v@ == db.users@.filter(with_role(true)),
{
    let user = get_user_from_token(db, api_token)?;
    if !user.is_admin {
        return Err(CleoErr::with_kind(ErrorKind::NotAdmin, "User is not an administrator."));
    }
    Ok(select_by_role(&db.users, true))
}

/// The outcomes of writing the instance row: where the table already holds a
/// row nothing changes and the result is 1; otherwise the row is inserted,
/// with an id that is the digest of the hostname followed by the instance
/// name, and the result is 0.
pub open spec fn sets_up_instance(
    old: Database,
    new: Database,
    smtp_server: Seq<char>,
    hostname: Seq<char>,
    instance_name: Seq<char>,
    smtp_username: Seq<char>,
    smtp_pass: Seq<char>,
    file_dir: Seq<char>,
    r: Result<usize, CleoErr>,
) -> bool {
    if old.info@.len() > 0 {
        r matches Ok(n) && n == 1 && new == old
    } else {
        &&& r matches Ok(n) && n == 0
        &&& new.info@.len() == 1
        &&& new == Database { info: new.info, ..old }
        &&& new.info@[0].instance_id@ == sha256_upper_hex(hostname + instance_name)
        &&& new.info@[0].hostname@ == hostname
        &&& new.info@[0].instance_name@ == instance_name
        &&& new.info@[0].smtp_server@ == smtp_server
        &&& new.info@[0].smtp_username@ == smtp_username
        &&& new.info@[0].smtp_pass@ == smtp_pass
        &&& new.info@[0].file_dir@ == file_dir
    }
}

/// Writes the instance row once.
///
/// Where the table already holds a row nothing changes and the result is 1;
/// otherwise the row is inserted, with an id that is the digest of the
/// hostname followed by the instance name, and the result is 0.
pub fn create_instance_info(
    db: &mut Database,
    smtp_server: &String,
    hostname: &String,
    instance_name: &String,
    smtp_username: &String,
    smtp_pass: &String,
    file_dir: &String,
) -> (r: Result<usize, CleoErr>)
    ensures
        sets_up_instance(
            *old(db),
            *final(db),
            smtp_server@,
            hostname@,
            instance_name@,
            smtp_username@,
            smtp_pass@,
            file_dir@,
            r,
        ),
{
    if db.info.len() > 0 {
        return Ok(1);
    }
    let instance_id = hash_string(&concat(hostname.as_str(), instance_name.as_str()));
    db.info.push(
        InstanceInformation {
            instance_id,
            hostname: hostname.clone(),
            instance_name: instance_name.clone(),
            smtp_server: smtp_server.clone(),
            smtp_username: smtp_username.clone(),
            smtp_pass: smtp_pass.clone(),
            file_dir: file_dir.clone(),
        },
    );
    Ok(0)
}

/// A change of one column of the instance row.
pub enum InstanceChange {
    Hostname(String),
    Name(String),
    SmtpServer(String),
    SmtpUsername(String),
    SmtpPass(String),
}

impl Change<InstanceInformation> for InstanceChange {
    open spec fn changed(&self, i: InstanceInformation) -> InstanceInformation {
        match self {
            InstanceChange::Hostname(v) => InstanceInformation { hostname: *v, ..i },
            InstanceChange::Name(v) => InstanceInformation { instance_name: *v, ..i },
            InstanceChange::SmtpServer(v) => InstanceInformation { smtp_server: *v, ..i },
            InstanceChange::SmtpUsername(v) => InstanceInformation { smtp_username: *v, ..i },
            InstanceChange::SmtpPass(v) => InstanceInformation { smtp_pass: *v, ..i },
        }
    }

    fn apply(&self, i: &InstanceInformation) -> (r: InstanceInformation) {
        let mut r = i.clone();
        match self {
            InstanceChange::Hostname(v) => r.hostname = v.clone(),
            InstanceChange::Name(v) => r.instance_name = v.clone(),
            InstanceChange::SmtpServer(v) => r.smtp_server = v.clone(),
            InstanceChange::SmtpUsername(v) => r.smtp_username = v.clone(),
            InstanceChange::SmtpPass(v) => r.smtp_pass = v.clone(),
        }
        r
    }
}

/// The outcomes of changing a setting of the instance. The guard runs first:
/// an unknown token is `NotFound` and a holder who is no administrator
/// `NotAdmin`. Then a missing instance row is `NotFound`; otherwise `ch` is
/// applied to the rows with the instance's id.
pub open spec fn edits_instance(old: Database, new: Database, token: Seq<char>, ch: InstanceChange, r: Result<(), CleoErr>) -> bool {
    match token_holder(old, token) {
        None => fails_with(r, ErrorKind::NotFound) && new == old,
        Some(a) => if !a.is_admin {
            fails_with(r, ErrorKind::NotAdmin) && new == old
        } else {
            match instance_row(old) {
                None => fails_with(r, ErrorKind::NotFound) && new == old,
                Some(i) => {
                    &&& r is Ok
                    &&& new.info@ == update_where(
                        old.info@,
                        has::<InstanceInformation>(COL_ID as int, i.instance_id@),
                        applied::<InstanceInformation, InstanceChange>(ch),
                    )
                    &&& new == Database { info: new.info, ..old }
                },
            }
        },
    }
}

fn edit_instance(db: &mut Database, api_token: &String, ch: &InstanceChange) -> (r: Result<(), CleoErr>)
    ensures
        edits_instance(*old(db), *final(db), api_token@, *ch, r),
{
    let user = get_user_from_token(db, api_token)?;
    if !user.is_admin {
        return Err(
            CleoErr::with_kind(ErrorKind::NotAdmin, "The acting user must be an administrator."),
        );
    }
    let info = get_instance_info(db)?;
    db.info = update(&db.info, COL_ID, &info.instance_id, ch);
    Ok(())
}

/// Changes the hostname of the instance; only an administrator may.
pub fn edit_instance_hostname(db: &mut Database, api_token: &String, new_hostname: &String) -> (r:
    Result<(), CleoErr>)
    ensures
        edits_instance(*old(db), *final(db), api_token@, InstanceChange::Hostname(*new_hostname), r),
{
    edit_instance(db, api_token, &InstanceChange::Hostname(new_hostname.clone()))
}

/// Changes the name of the instance; only an administrator may.
pub fn edit_instance_name(db: &mut Database, api_token: &String, new_name: &String) -> (r: Result<(), CleoErr>)
    ensures
        edits_instance(*old(db), *final(db), api_token@, InstanceChange::Name(*new_name), r),
{
    edit_instance(db, api_token, &InstanceChange::Name(new_name.clone()))
}

/// Changes the user name for the mail relay; only an administrator may.
pub fn edit_smtp_username(db: &mut Database, api_token: &String, new_name: &String) -> (r: Result<(), CleoErr>)
    ensures
        edits_instance(*old(db), *final(db), api_token@, InstanceChange::SmtpUsername(*new_name), r),
{
    edit_instance(db, api_token, &InstanceChange::SmtpUsername(new_name.clone()))
}

/// Changes the password for the mail relay; only an administrator may.
pub fn edit_smtp_pass(db: &mut Database, api_token: &String, new_name: &String) -> (r: Result<(), CleoErr>)
    ensures
        edits_instance(*old(db), *final(db), api_token@, InstanceChange::SmtpPass(*new_name), r),
{
    edit_instance(db, api_token, &InstanceChange::SmtpPass(new_name.clone()))
}

/// Changes the mail relay of the instance; only an administrator may.
pub fn edit_instance_smtp_server(db: &mut Database, api_token: &String, new_smtp_server: &String) -> (r:
    Result<(), CleoErr>)
    ensures
        edits_instance(*old(db), *final(db), api_token@, InstanceChange::SmtpServer(*new_smtp_server), r),
{
    edit_instance(db, api_token, &InstanceChange::SmtpServer(new_smtp_server.clone()))
}

} // verus!
