//! Sessions and logins, and static files.

use imkitchen::admin::auth as admin;
use imkitchen::web::assets::{asset_reply, serve_asset, AssetReply, AssetsService};
use imkitchen::web::auth::{
    chef_of, login_as, login_submit, parse_session, premium_of, session_value, user_of, Login,
    Role, User,
};

#[test]
fn parse_session_round_trip() {
    let (role, id) = parse_session("chef:01HZ8K7P00000000000000000A").unwrap();
    assert_eq!(role, Role::Chef);
    assert_eq!(id, "01HZ8K7P00000000000000000A");
}

#[test]
fn parse_session_rejects_missing_id() {
    assert!(parse_session("chef:").is_none());
}

#[test]
fn parse_session_rejects_missing_colon() {
    assert!(parse_session("chef").is_none());
}

#[test]
fn parse_session_rejects_unknown_role() {
    assert!(parse_session("admin:01HZ").is_none());
}

#[test]
fn parse_session_keeps_id_intact_with_extra_colons() {
    let (role, id) = parse_session("user:abc:def").unwrap();
    assert_eq!(role, Role::User);
    assert_eq!(id, "abc:def");
}

#[test]
fn what_a_login_writes_is_read_back() {
    for role in [Role::User, Role::Chef, Role::Premium] {
        let value = session_value(role, "x:y");
        assert_eq!(parse_session(&value), Some((role, "x:y".to_string())));
        assert_eq!(login_as(role.as_str(), "x:y"), Login::SignedIn(value));
    }
}

#[test]
fn a_login_makes_a_new_id() {
    let value = match login_submit("premium") {
        Login::SignedIn(value) => value,
        other => panic!("{:?}", other),
    };
    let (role, id) = parse_session(&value).unwrap();
    assert_eq!(role, Role::Premium);
    assert_eq!(id.len(), 26);
    assert!(id.chars().all(|c| "0123456789ABCDEFGHJKMNPQRSTVWXYZ".contains(c)));
    assert!(id.as_bytes()[0] <= b'7');
    assert_ne!(login_submit("premium"), Login::SignedIn(value));
    assert_eq!(login_submit("admin"), Login::Refused(400, "unknown role"));
}

#[test]
fn roles_gate_what_a_user_is() {
    assert_eq!(user_of(None), None);
    assert_eq!(user_of(Some("user")), None);
    let user = user_of(Some("chef:7")).unwrap();
    assert_eq!(user, User { id: "7".into(), role: Role::Chef });
    assert!(premium_of(user.clone()).is_none());
    assert_eq!(chef_of(user).unwrap().id, "7");
    let user = User { id: "8".into(), role: Role::Premium };
    assert!(chef_of(user.clone()).is_none());
    assert_eq!(premium_of(user).unwrap().id, "8");
}

#[test]
fn only_the_administrator_is_let_in() {
    assert!(admin::admin_of(Some("admin")).is_some());
    assert!(admin::admin_of(Some("Admin")).is_none());
    assert!(admin::admin_of(None).is_none());
    assert_eq!(admin::login_submit("admin"), Login::SignedIn("admin".into()));
    assert_eq!(admin::login_submit("user"), Login::Refused(400, "unknown role"));
    assert_eq!(admin::SESSION_COOKIE, "imkitchen_admin_session");
}

#[test]
fn files_have_the_type_of_their_extension() {
    assert_eq!(serve_asset("/app.css", true), AssetReply::Found("text/css".into()));
    assert_eq!(serve_asset("/img/logo.png", true), AssetReply::Found("image/png".into()));
    assert_eq!(
        serve_asset("/LICENSE", true),
        AssetReply::Found("application/octet-stream".into())
    );
    assert_eq!(serve_asset("/app.css", false), AssetReply::NotFound(404, "404 Not Found"));
    assert_eq!(asset_reply(None), AssetReply::NotFound(404, "404 Not Found"));
    assert!(AssetsService::new().inner.is_none());
}
