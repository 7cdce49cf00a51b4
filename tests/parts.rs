use cleo::db::posts::content_snippet;
use cleo::err::{CleoErr, ErrorKind};
use cleo::models::{EmailToken, InstanceInformation, UserFile};
use cleo::payloads::ContentType;
use cleo::services::{file_list_response, status, upload_location, user_creation_response, verification_mail};
use cleo::models::CleoUser;
use cleo::utils::{generate_id, generate_key, hash_string, TimeNow};

fn s(v: &str) -> String {
    v.to_string()
}

fn info() -> InstanceInformation {
    InstanceInformation {
        instance_id: s("id"),
        hostname: s("https://cleo.blog"),
        instance_name: s("Cleo"),
        smtp_server: s("smtp.cleo.blog"),
        smtp_username: s("mailer@cleo.blog"),
        smtp_pass: s("pw"),
        file_dir: s("/srv/files"),
    }
}

#[test]
fn sha256_digest_in_upper_hex() {
    let d = hash_string(&s("abc"));
    assert_eq!(d, "BA7816BF8F01CFEA414140DE5DAE2223B00361A396177A9CB410FF61F20015AD");
    assert_eq!(hash_string(&s("")).len(), 64);
}

#[test]
fn short_id_is_last_four() {
    assert_eq!(generate_id(&s("BA7816BF8F01CFEA")), "CFEA");
    assert_eq!(generate_id(&s("abcd")), "abcd");
}

#[test]
fn keys_have_the_asked_length() {
    for n in [0usize, 10, 16] {
        let k = generate_key(&n).unwrap();
        assert_eq!(k.chars().count(), n);
        assert!(k.chars().all(|c| c.is_ascii_uppercase() || c.is_ascii_digit()));
    }
}

#[test]
fn time_parts_are_joined() {
    let t = TimeNow {
        year: s("2024"),
        month: s("01"),
        day: s("02"),
        hours: s("03"),
        minutes: s("04"),
        seconds: s("05"),
        millis: s("123456789"),
    };
    assert_eq!(t.to_string(), "20240102030405123456789");
    let now = TimeNow::new();
    assert_eq!(now.month.len(), 2);
    assert!(now.to_string().len() >= 14);
}

#[test]
fn snippet_takes_sixteen_characters() {
    assert_eq!(content_snippet(&s("<h1>Hello World</h1>")), "<h1>Hello World<");
    assert_eq!(content_snippet(&s("short")), "short");
}

#[test]
fn content_type_text() {
    assert_eq!(ContentType::Page.as_text(), "page");
    assert_eq!(ContentType::Post.as_text(), "post");
}

#[test]
fn verification_mail_text() {
    let t = EmailToken { etoken_id: s("e"), email_token: s("ABC"), user_id: s("u") };
    let m = verification_mail(&info(), &t, &s("alice@example.com"));
    assert_eq!(m.subject, "Account verification for Cleo");
    assert_eq!(m.body, "Please copy and paste this link into your browser: https://cleo.blog/email/ABC");
    assert_eq!(m.receiver, "alice@example.com");
    assert_eq!(m.sender, "mailer@cleo.blog");
    assert_eq!(m.server, "smtp.cleo.blog");
}

#[test]
fn upload_paths() {
    let (path, url) = upload_location(&info(), &s("cat.png"));
    assert_eq!(path, "/srv/files/cat.png");
    assert_eq!(url, "https://cleo.blog/files/serve/cat.png");
    let files = vec![UserFile { file_id: s("f"), user_id: s("u"), file_path: s("/a.png"), file_url: s("x") }];
    let listed = file_list_response(&info(), &files);
    assert_eq!(listed.files[0].file_url, "https://cleo.blog/a.png");
    assert_eq!(listed.files[0].file_name, "/a.png");
}

#[test]
fn creation_response_needs_the_mail() {
    let u = CleoUser {
        user_id: s("u"),
        display_name: s("Aly Shang"),
        is_verified: false,
        username: s("alyshang"),
        pwd: s("hash"),
        email_addr: s("example@example.com"),
        pfp_url: s(""),
        is_admin: false,
    };
    let e = user_creation_response(&u, false, true).unwrap_err();
    assert_eq!(e.kind, ErrorKind::Downstream);
    assert_eq!(e.to_string(), "Account creation failure.");
    let r = user_creation_response(&u, true, true).unwrap();
    assert_eq!(r.username, "alyshang");
    assert!(r.key_status_updated);
}

#[test]
fn errors_carry_their_message() {
    let e = CleoErr::new("boom");
    assert_eq!(e.kind, ErrorKind::Downstream);
    assert_eq!(e.to_string(), "boom");
    let e = CleoErr::with_kind(ErrorKind::NotAdmin, "no");
    assert_eq!(e.kind, ErrorKind::NotAdmin);
    assert!(status(&Ok::<(), CleoErr>(())).is_ok);
    assert!(!status(&Err::<(), CleoErr>(CleoErr::new("x"))).is_ok);
}

#[test]
fn default_cost_is_bcrypts() {
    assert_eq!(cleo::db::DEFAULT_COST, bcrypt::DEFAULT_COST);
}
