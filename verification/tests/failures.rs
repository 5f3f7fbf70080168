use user_accounts::db::{InsertableUser, UserPassword};
use user_accounts::guard::{JwtGuard, JwtGuardError};
use user_accounts::routing::is_id_segment;
use user_accounts::service::{
    change_password, delete, get_by_email, login, lookup_segment, register, update_profile,
    LookupResponse, LoginUser, ServiceError,
};
use user_accounts::store::UserStore;
use user_accounts::token::TokenCodec;

fn codec() -> TokenCodec {
    TokenCodec::new(b"test-signing-secret".to_vec())
}

fn ins(name: &str, email: &str, password: &str) -> InsertableUser {
    InsertableUser {
        name: name.to_string(),
        email: email.to_string(),
        password: password.to_string(),
    }
}

fn pw(password: &str) -> UserPassword {
    UserPassword { password: password.to_string(), new_password: None }
}

fn creds(email: &str, password: &str) -> LoginUser {
    LoginUser { email: email.to_string(), password: password.to_string() }
}

#[test]
fn user_list_rt_fail() {
    // A protected route without a login: no cookie, so the guard rejects the
    // request before any account operation runs
    let codec = codec();
    let guard = JwtGuard::from_cookie(&codec, None);
    assert_eq!(guard.err(), Some(JwtGuardError::Missing));
}

#[test]
fn info_user_rt_fail() {
    let mut store = UserStore::new();
    let codec = codec();

    // New insertion must be correct
    let response_new_user = register(&mut store, ins("Jay Doe", "jay.doe@m.com", "123456"));
    assert!(response_new_user.is_ok());
    let mut id = response_new_user.unwrap().id;
    let real_id = id.clone();

    // First test: before login the guard rejects the request
    let guard = JwtGuard::from_cookie(&codec, None);
    assert!(guard.is_err());

    // Login
    let login_response = login(&store, &codec, &creds("jay.doe@m.com", "123456"));
    assert!(login_response.is_ok());

    // Second test: fake id. We keep it looking like an id, otherwise it would
    // be classified as an email lookup.
    if id.remove(0) != 'a' {
        id.insert(0, 'a');
    } else {
        id.insert(0, 'b');
    }
    let response = user_accounts::service::get_by_id(&store, &id);
    assert!(response.is_err());
    let err = response.unwrap_err();
    assert_eq!(err.message(), format!("id {} not found", id));

    // Cleanup
    let res = delete(&mut store, &real_id, &pw("123456"));
    assert!(res.is_ok());
}

#[test]
fn update_user_rt_fail() {
    let mut store = UserStore::new();
    let codec = codec();

    // New insertion must be correct
    let response_new_user = register(
        &mut store,
        ins("Jack S. Doe", "jack.s.doe@m.com", "quertyuiop"),
    );
    assert!(response_new_user.is_ok());
    let id = response_new_user.unwrap().id;

    // First test: before login the guard rejects the request
    let guard = JwtGuard::from_cookie(&codec, None);
    assert!(guard.is_err());

    // Login
    let login_response = login(&store, &codec, &creds("jack.s.doe@m.com", "quertyuiop"));
    assert!(login_response.is_ok());

    // Second test: wrong password
    let response = update_profile(&mut store, &id, &ins("Jack S. Doe", "jack.s.doe@m.com", "123456"));
    assert!(response.is_err());
    assert_eq!(response.unwrap_err().message(), "user not authenticated");

    // Cleanup
    let res = delete(&mut store, &id, &pw("quertyuiop"));
    assert!(res.is_ok());
}

#[test]
fn delete_user_rt_fail() {
    let mut store = UserStore::new();
    let codec = codec();

    // New user
    let response_new_user = register(&mut store, ins("Jerome M. Doe", "jm85@m.com", "asdfghjkl"));
    assert!(response_new_user.is_ok());
    let id = response_new_user.unwrap().id;

    // First test: before login the guard rejects the request
    let guard = JwtGuard::from_cookie(&codec, None);
    assert!(guard.is_err());

    // Login
    let login_response = login(&store, &codec, &creds("jm85@m.com", "asdfghjkl"));
    assert!(login_response.is_ok());

    // Second test: wrong password
    let response = delete(&mut store, &id, &pw("qwertyuiop"));
    assert!(response.is_err());
    assert_eq!(response.unwrap_err().message(), "user not authenticated");

    // Cleanup
    let res = delete(&mut store, &id, &pw("asdfghjkl"));
    assert!(res.is_ok());
}

#[test]
fn patch_user_rt_fail() {
    let mut store = UserStore::new();
    let codec = codec();

    // New user
    let response_new_user = register(
        &mut store,
        ins("Jonathan M. Doe", "jondonmagic@m.com", "123456"),
    );
    assert!(response_new_user.is_ok());
    let id = response_new_user.unwrap().id;

    // First test: before login the guard rejects the request
    let guard = JwtGuard::from_cookie(&codec, None);
    assert!(guard.is_err());

    // Login
    let login_response = login(&store, &codec, &creds("jondonmagic@m.com", "123456"));
    assert!(login_response.is_ok());

    // Second test: wrong password
    let body = UserPassword {
        password: "zxcvbnm".to_string(),
        new_password: Some("quertyuiop".to_string()),
    };
    let response = change_password(&mut store, &id, &body);
    assert!(response.is_err());
    assert_eq!(response.unwrap_err().message(), "user not authenticated");

    // Third test: no new password provided
    let response = change_password(&mut store, &id, &pw("123456"));
    assert!(response.is_err());
    assert_eq!(response.unwrap_err().message(), "Password not provided");

    // Cleanup
    let res = delete(&mut store, &id, &pw("123456"));
    assert!(res.is_ok());
}

#[test]
fn id_user_rt_fail() {
    let mut store = UserStore::new();
    let codec = codec();

    let response_new_user = register(
        &mut store,
        ins("Janet Eveline Doe", "janetev.doe@m.com", "zxcvbnm"),
    );
    assert!(response_new_user.is_ok());
    let id = response_new_user.unwrap().id;

    // First test: before login the guard rejects the request
    let guard = JwtGuard::from_cookie(&codec, None);
    assert!(guard.is_err());

    // Login
    let login_response = login(&store, &codec, &creds("janetev.doe@m.com", "zxcvbnm"));
    assert!(login_response.is_ok());

    // Second test: wrong email == no user found
    let response = get_by_email(&store, &"janetta@l.com".to_string());
    assert!(response.is_err());
    assert_eq!(response.unwrap_err().message(), "user janetta@l.com not found");

    // Cleanup
    let res = delete(&mut store, &id, &pw("zxcvbnm"));
    assert!(res.is_ok());
}

#[test]
fn get_rank_fail() {
    let mut store = UserStore::new();
    let codec = codec();

    // We need a user, logged in
    let response_new_user = register(&mut store, ins("Jolanda Maria Doe", "jomado@m.com", "123456"));
    assert!(response_new_user.is_ok());
    let id = response_new_user.unwrap().id;

    // A purposely false email resembling an id: exact group lengths, but
    // formatted as an email at the end. It must fail classification because
    // of the invalid characters '@' and '.'
    let deceptive_email = "7b8f9f31-d70c-4834-8164-ca20b8@b.989";
    assert!(!is_id_segment(deceptive_email));

    // Login
    let login_response = login(&store, &codec, &creds("jomado@m.com", "123456"));
    assert!(login_response.is_ok());

    // The dispatcher must hand the segment to the by-email lookup, not the
    // by-id lookup, and that lookup must fail
    let response = lookup_segment(&store, &deceptive_email.to_string());
    match response {
        LookupResponse::ByEmail(res) => {
            assert!(res.is_err());
            let body = res.unwrap_err().message();
            assert_ne!(body, format!("id {} not found", deceptive_email));
            assert_eq!(body, format!("user {} not found", deceptive_email));
        }
        LookupResponse::ById(_) => panic!("classified as an id lookup"),
    }

    // Cleanup
    let res = delete(&mut store, &id, &pw("123456"));
    assert!(res.is_ok());
}

#[test]
fn unique_emails_insertion_fail() {
    let mut store = UserStore::new();
    let codec = codec();

    // First user with its own email
    let response_new_user = register(&mut store, ins("Jared Doe", "jthebest@m.com", "123456"));
    assert!(response_new_user.is_ok());
    let id = response_new_user.unwrap().id;

    // Second user with the same email
    let response_second_user = register(&mut store, ins("Joy Doe", "jthebest@m.com", "qwertyuiop"));
    assert!(response_second_user.is_err());
    let err = response_second_user.unwrap_err();
    assert_eq!(err, ServiceError::EmailInUse);
    assert_eq!(err.message(), "email already in use");

    // Login
    let login_response = login(&store, &codec, &creds("jthebest@m.com", "123456"));
    assert!(login_response.is_ok());

    // Cleanup
    let res = delete(&mut store, &id, &pw("123456"));
    assert!(res.is_ok());
}

#[test]
fn unique_emails_update_fail() {
    let mut store = UserStore::new();
    let codec = codec();

    // First user with its email
    let response_first_user = register(&mut store, ins("Joe Doe", "jeffreyd@m.com", "123456"));
    assert!(response_first_user.is_ok());
    let first_id = response_first_user.unwrap().id;

    // Second user, with its other email
    let response_second_user = register(&mut store, ins("Jolanda Doe", "jo_me@m.com", "qwertyuiop"));
    assert!(response_second_user.is_ok());
    let second_id = response_second_user.unwrap().id;

    // Login first user
    let login_response = login(&store, &codec, &creds("jeffreyd@m.com", "123456"));
    assert!(login_response.is_ok());

    // We try to change the first user to have the same email as the second one
    let response = update_profile(&mut store, &first_id, &ins("Joe K. Doe", "jo_me@m.com", "123456"));
    assert!(response.is_err());
    assert_eq!(response.unwrap_err().message(), "email already in use");

    // Both records are left unchanged
    let first = get_by_email(&store, &"jeffreyd@m.com".to_string()).unwrap();
    assert_eq!(first.name, "Joe Doe");
    assert_eq!(first.id, first_id);
    let second = get_by_email(&store, &"jo_me@m.com".to_string()).unwrap();
    assert_eq!(second.name, "Jolanda Doe");
    assert_eq!(second.id, second_id);

    // Cleanup (double trouble)
    let res1 = delete(&mut store, &first_id, &pw("123456"));
    assert!(res1.is_ok());
    let login_response = login(&store, &codec, &creds("jo_me@m.com", "qwertyuiop"));
    assert!(login_response.is_ok());
    let res2 = delete(&mut store, &second_id, &pw("qwertyuiop"));
    assert!(res2.is_ok());
}
