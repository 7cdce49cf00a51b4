//! Setting up an instance: the first administrator and the instance row.
use vstd::prelude::*;
use crate::db::admin::{create_instance_info, sets_up_instance};
use crate::db::users::user_named;
use crate::db::{fails_with, position, Database};
use crate::err::{CleoErr, ErrorKind};
use crate::models::{CleoUser, COL_USERNAME};
use crate::utils::{bcrypt_accepts, concat, hash_password, hash_string, sha256_upper_hex, TimeNow};

verus! {

/// The settings that an instance is started with.
#[derive(Debug)]
pub struct Config {
    pub local_host: String,
    pub local_port: String,
    pub hostname: String,
    pub instance_name: String,
    pub smtp_server: String,
    pub smtp_username: String,
    pub smtp_pass: String,
    pub admin_username: String,
    pub admin_email: String,
    pub admin_password: String,
    pub admin_display_name: String,
    pub postgres_user: String,
    pub postgres_port: String,
    pub postgres_host: String,
    pub postgres_pass: String,
    pub file_storage_dir: String,
}

/// What setting up yields: the address of the database, the address to listen on, the first
/// administrator, and 0 where the instance row was written now or 1 where it
/// was there already.
#[derive(Debug)]
pub struct AdminInfo {
    pub db_url: String,
    pub app_addr: String,
    pub admin: CleoUser,
    pub instance: usize,
}

/// The address of the instance's Postgres database, built from its settings.
pub open spec fn database_url_of(c: Config) -> Seq<char> {
    "postgres://"@ + c.postgres_user@ + ":"@ + c.postgres_pass@ + "@"@ + c.postgres_host@ + ":"@
        + c.postgres_port@ + "/cleo"@
}

/// The address of the instance's Postgres database: user, password, host and
/// port in a `postgres://` URL for the database `cleo`.
pub fn database_url(config: &Config) -> (r: String)
    ensures
        r@ == database_url_of(*config),
{
    let a = concat("postgres://", config.postgres_user.as_str());
    let b = concat(a.as_str(), ":");
    let c = concat(b.as_str(), config.postgres_pass.as_str());
    let d = concat(c.as_str(), "@");
    let e = concat(d.as_str(), config.postgres_host.as_str());
    let f = concat(e.as_str(), ":");
    let g = concat(f.as_str(), config.postgres_port.as_str());
    concat(g.as_str(), "/cleo")
}

/// The address to listen on: host, a colon, port.
pub fn app_address(config: &Config) -> (r: String)
    ensures
        r@ == config.local_host@ + ":"@ + config.local_port@,
{
    let host = concat(config.local_host.as_str(), ":");
    concat(host.as_str(), config.local_port.as_str())
}

/// The outcomes of creating the first administrator: a taken username is
/// `InvalidInput`; otherwise an administrator (not yet verified, no picture)
/// with a hash that bcrypt accepts for the password and an id that is the
/// digest of the current time followed by the username is appended. Hashing
/// draws a random salt and may fail (`Downstream`, nothing changed).
pub open spec fn creates_admin(
    old: Database,
    new: Database,
    username: Seq<char>,
    display_name: Seq<char>,
    password: Seq<char>,
    email_addr: Seq<char>,
    r: Result<CleoUser, CleoErr>,
) -> bool {
    if user_named(old, username) is Some {
        fails_with(r, ErrorKind::InvalidInput) && new == old
    } else {
        match r {
            Ok(u) => {
                &&& bcrypt_accepts(password, u.pwd@)
                &&& exists|s: Seq<char>| #[trigger] sha256_upper_hex(s + username) == u.user_id@
                &&& inserts_admin(old, new, username, display_name, u.pwd@, email_addr, u.user_id@, r)
            },
            Err(e) => e.kind == ErrorKind::Downstream && new == old,
        }
    }
}

/// The outcomes of inserting an administrator with the stored password hash
/// `pwd` and the id `user_id`: a taken username is `InvalidInput` and nothing
/// changes; otherwise the administrator (not yet verified, no picture) is
/// appended.
pub open spec fn inserts_admin(
    old: Database,
    new: Database,
    username: Seq<char>,
    display_name: Seq<char>,
    pwd: Seq<char>,
    email_addr: Seq<char>,
    user_id: Seq<char>,
    r: Result<CleoUser, CleoErr>,
) -> bool {
    if user_named(old, username) is Some {
        fails_with(r, ErrorKind::InvalidInput) && new == old
    } else {
        match r {
            Ok(u) => {
                &&& u.user_id@ == user_id
                &&& u.username@ == username
                &&& u.display_name@ == display_name
                &&& u.pwd@ == pwd
                &&& u.email_addr@ == email_addr
                &&& u.pfp_url@.len() == 0
                &&& !u.is_verified
                &&& u.is_admin
                &&& new.users@ == old.users@.push(u)
                &&& new == Database { users: new.users, ..old }
            },
            Err(_) => false,
        }
    }
}

/// Inserts an administrator with the stored password hash `pwd` and the id
/// `user_id`.
pub fn insert_admin(
    db: &mut Database,
    username: &String,
    display_name: &String,
    pwd: &String,
    email_addr: &String,
    user_id: &String,
) -> (r: Result<CleoUser, CleoErr>)
    ensures
        inserts_admin(*old(db), *final(db), username@, display_name@, pwd@, email_addr@, user_id@, r),
{
    if position(&db.users, COL_USERNAME, username).is_some() {
        return Err(CleoErr::with_kind(ErrorKind::InvalidInput, "This username is taken."));
    }
    let user = CleoUser {
        user_id: user_id.clone(),
        display_name: display_name.clone(),
        is_verified: false,
        username: username.clone(),
        pwd: pwd.clone(),
        email_addr: email_addr.clone(),
        pfp_url: String::new(),
        is_admin: true,
    };
    db.users.push(user.clone());
    Ok(user)
}

/// Creates an administrator without a signup key: the first account of an instance.
pub fn create_admin_user(
    db: &mut Database,
    username: &String,
    display_name: &String,
    password: &String,
    email_addr: &String,
) -> (r: Result<CleoUser, CleoErr>)
    ensures
        creates_admin(*old(db), *final(db), username@, display_name@, password@, email_addr@, r),
{
    if position(&db.users, COL_USERNAME, username).is_some() {
        return Err(CleoErr::with_kind(ErrorKind::InvalidInput, "This username is taken."));
    }
    let pwd = match hash_password(password, db.hash_cost) {
        Some(h) => h,
        None => return Err(CleoErr::new("Could not hash the password.")),
    };
    let now = TimeNow::new().to_string();
    let user_id = hash_string(&concat(now.as_str(), username.as_str()));
    let r = insert_admin(db, username, display_name, &pwd, email_addr, &user_id);
    assert(sha256_upper_hex(now@ + username@) == user_id@);
    r
}

/// The outcomes of setting an instance up from `config`.
///
/// Where the instance row exists, nothing changes: the administrator named
/// in the settings is looked up (`NotFound` where there is none) and the
/// result says 1. Otherwise the administrator is created and then the
/// instance row is written, and the result says 0.
pub open spec fn bootstraps(old: Database, new: Database, config: Config, r: Result<AdminInfo, CleoErr>) -> bool {
    &&& r matches Ok(a) ==> a.app_addr@ == config.local_host@ + ":"@ + config.local_port@
    &&& r matches Ok(a) ==> a.db_url@ == database_url_of(config)
    &&& if old.info@.len() > 0 {
        &&& new == old
        &&& match user_named(old, config.admin_username@) {
            Some(u) => r matches Ok(a) && a.admin == u && a.instance == 1,
            None => fails_with(r, ErrorKind::NotFound),
        }
    } else {
        match r {
            Ok(a) => {
                &&& a.instance == 0
                &&& exists|mid: Database|
                    {
                        &&& #[trigger] creates_admin(
                            old,
                            mid,
                            config.admin_username@,
                            config.admin_display_name@,
                            config.admin_password@,
                            config.admin_email@,
                            Ok(a.admin),
                        )
                        &&& sets_up_instance(
                            mid,
                            new,
                            config.smtp_server@,
                            config.hostname@,
                            config.instance_name@,
                            config.smtp_username@,
                            config.smtp_pass@,
                            config.file_storage_dir@,
                            Ok(0),
                        )
                    }
            },
            Err(e) => creates_admin(
                old,
                new,
                config.admin_username@,
                config.admin_display_name@,
                config.admin_password@,
                config.admin_email@,
                Err(e),
            ),
        }
    }
}

/// Sets an instance up once: the first administrator and the instance row.
/// Running it again on a set-up store changes nothing.
pub fn create_admin_info(db: &mut Database, config: &Config) -> (r: Result<AdminInfo, CleoErr>)
    ensures
        bootstraps(*old(db), *final(db), *config, r),
{
    let db_url = database_url(config);
    let app_addr = app_address(config);
    if db.info.len() > 0 {
        let admin = match position(&db.users, COL_USERNAME, &config.admin_username) {
            Some(i) => db.users[i].clone(),
            None => return Err(CleoErr::with_kind(ErrorKind::NotFound, "No such administrator.")),
        };
        return Ok(AdminInfo { db_url, app_addr, admin, instance: 1 });
    }
    let ghost before = *db;
    let admin = create_admin_user(
        db,
        &config.admin_username,
        &config.admin_display_name,
        &config.admin_password,
        &config.admin_email,
    )?;
    let ghost mid = *db;
    let instance = create_instance_info(
        db,
        &config.smtp_server,
        &config.hostname,
        &config.instance_name,
        &config.smtp_username,
        &config.smtp_pass,
        &config.file_storage_dir,
    )?;
    assert(instance == 0);
    assert(creates_admin(
        before,
        mid,
        config.admin_username@,
        config.admin_display_name@,
        config.admin_password@,
        config.admin_email@,
        Ok(admin),
    ));
    assert(sets_up_instance(
        mid,
        *db,
        config.smtp_server@,
        config.hostname@,
        config.instance_name@,
        config.smtp_username@,
        config.smtp_pass@,
        config.file_storage_dir@,
        Ok(0),
    ));
    let info = AdminInfo { db_url, app_addr, admin, instance };
    assert(before == *old(db));
    assert(info.admin == admin);
    assert(exists|m: Database|
        #[trigger] creates_admin(
            *old(db),
            m,
            config.admin_username@,
            config.admin_display_name@,
            config.admin_password@,
            config.admin_email@,
            Ok(info.admin),
        ) && sets_up_instance(
            m,
            *db,
            config.smtp_server@,
            config.hostname@,
            config.instance_name@,
            config.smtp_username@,
            config.smtp_pass@,
            config.file_storage_dir@,
            Ok(0),
        ));
    Ok(info)
}

} // verus!
