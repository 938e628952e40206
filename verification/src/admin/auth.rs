//! The session of the administrator.

use vstd::prelude::*;
use vstd::string::*;

use crate::text;
use crate::web::auth::Login;

verus! {

/// The name of the session cookie.
pub const SESSION_COOKIE: &'static str = "imkitchen_admin_session";

/// What the cookie holds, and what a login has to name.
pub const ADMIN_VALUE: &'static str = "admin";

/// The signed-in administrator.
#[derive(Debug, PartialEq)]
pub struct Admin;

/// Whether a session cookie is that of the administrator.
pub open spec fn is_admin(cookie: Option<&str>) -> bool {
    cookie matches Some(value) && value@ == ADMIN_VALUE@
}

/// The administrator of a request, from the value of its session cookie. A
/// request without one is sent to the login page.
pub fn admin_of(cookie: Option<&str>) -> (res: Option<Admin>)
    ensures
        res is Some <==> is_admin(cookie),
{
    match cookie {
        Some(value) => {
            if text::same_text(value, ADMIN_VALUE) {
                Some(Admin)
            } else {
                None
            }
        },
        None => None,
    }
}

/// Whether `res` answers a login of the administrator.
pub open spec fn answers_login(role: Seq<char>, res: Login) -> bool {
    if role == ADMIN_VALUE@ {
        res matches Login::SignedIn(value) && value@ == ADMIN_VALUE@
    } else {
        res matches Login::Refused(status, body) && status == 400 && body@ == "unknown role"@
    }
}

/// A login: only the role of the administrator is known.
pub fn login_submit(role: &str) -> (res: Login)
    ensures
        answers_login(role@, res),
{
    if !text::same_text(role, ADMIN_VALUE) {
        return Login::Refused(400, "unknown role");
    }
    Login::SignedIn(ADMIN_VALUE.to_owned())
}

/// Only a login as `admin` sets a cookie, and a request with that cookie is
/// one of the administrator's; without a cookie none is.
pub proof fn law_admin_logins_are_read_back(role: Seq<char>, res: Login, cookie: &str)
    requires
        answers_login(role, res),
    ensures
        res is SignedIn <==> role == "admin"@,
        res matches Login::SignedIn(value) ==> cookie@ == value@ ==> is_admin(Some(cookie)),
        res matches Login::Refused(status, _) ==> status == 400,
        !is_admin(None),
        is_admin(Some(cookie)) ==> cookie@ == "admin"@,
{
}

} // verus!
