//! Sessions.
//!
//! A session cookie holds `<role>:<id>`. The role gates which pages a user
//! can reach; the id, new at every login, is what the user's recipes and
//! imports belong to.

use vstd::prelude::*;
use vstd::string::*;

use crate::text;

verus! {

/// The name of the session cookie.
pub const SESSION_COOKIE: &'static str = "imkitchen_session";

/// What a user may do.
#[derive(Debug, Clone, Copy, PartialEq, Eq, Structural)]
pub enum Role {
    User,
    Chef,
    Premium,
}

impl Role {
    /// The stable name of a role.
    pub open spec fn text(self) -> Seq<char> {
        match self {
            Role::User => "user"@,
            Role::Chef => "chef"@,
            Role::Premium => "premium"@,
        }
    }

    pub fn as_str(self) -> (res: &'static str)
        ensures
            res@ == self.text(),
    {
        match self {
            Role::User => "user",
            Role::Chef => "chef",
            Role::Premium => "premium",
        }
    }

    /// The role with the name `s`, if there is one.
    pub fn parse(s: &str) -> (res: Option<Self>)
        ensures
            res == role_of(s@),
    {
        if text::same_text(s, "user") {
            Some(Role::User)
        } else if text::same_text(s, "chef") {
            Some(Role::Chef)
        } else if text::same_text(s, "premium") {
            Some(Role::Premium)
        } else {
            None
        }
    }
}

/// The role with the name `s`, if there is one.
pub open spec fn role_of(s: Seq<char>) -> Option<Role> {
    if s == Role::User.text() {
        Some(Role::User)
    } else if s == Role::Chef.text() {
        Some(Role::Chef)
    } else if s == Role::Premium.text() {
        Some(Role::Premium)
    } else {
        None
    }
}

/// Reading the name of a role gives the role back, and every text that is
/// read as a role is its name.
pub proof fn law_role_round_trip(role: Role, s: Seq<char>)
    ensures
        role_of(role.text()) == Some(role),
        role_of(s) == Some(role) ==> s == role.text(),
        !role.text().contains(':'),
{
    reveal_strlit("user");
    reveal_strlit("chef");
    reveal_strlit("premium");
    assert("user"@.len() == 4 && "chef"@.len() == 4 && "premium"@.len() == 7);
    assert("user"@[0] == 'u' && "chef"@[0] == 'c');
}

/// A signed-in user of any role.
#[derive(Debug, PartialEq)]
pub struct User {
    /// New at every login and the same within a session.
    pub id: String,
    pub role: Role,
}

/// What a [`User`] holds, as mathematical values.
#[verifier::ext_equal]
pub struct UserModel {
    pub id: Seq<char>,
    pub role: Role,
}

impl View for User {
    type V = UserModel;

    open spec fn view(&self) -> UserModel {
        UserModel {
            id: self.id@,
            role: self.role,
        }
    }
}

impl Clone for User {
    fn clone(&self) -> (res: Self)
        ensures
            res@ == self@,
    {
        User {
            id: self.id.clone(),
            role: self.role,
        }
    }
}

/// A user who may share recipes.
#[derive(Debug, PartialEq)]
pub struct Chef {
    pub id: String,
}

/// What a [`Chef`] holds, as mathematical values.
#[verifier::ext_equal]
pub struct ChefModel {
    pub id: Seq<char>,
}

impl View for Chef {
    type V = ChefModel;

    open spec fn view(&self) -> ChefModel {
        ChefModel {
            id: self.id@,
        }
    }
}

impl Clone for Chef {
    fn clone(&self) -> (res: Self)
        ensures
            res@ == self@,
    {
        Chef {
            id: self.id.clone(),
        }
    }
}

/// A user with a premium subscription.
#[derive(Debug, PartialEq)]
pub struct Premium {
    pub id: String,
}

/// What a [`Premium`] holds, as mathematical values.
#[verifier::ext_equal]
pub struct PremiumModel {
    pub id: Seq<char>,
}

impl View for Premium {
    type V = PremiumModel;

    open spec fn view(&self) -> PremiumModel {
        PremiumModel {
            id: self.id@,
        }
    }
}

impl Clone for Premium {
    fn clone(&self) -> (res: Self)
        ensures
            res@ == self@,
    {
        Premium {
            id: self.id.clone(),
        }
    }
}

/// The text that a session cookie holds.
pub open spec fn session_text(role: Role, id: Seq<char>) -> Seq<char> {
    role.text().push(':') + id
}

/// The text that a session cookie holds for a login under `id`.
pub fn session_value(role: Role, id: &str) -> (res: String)
    ensures
        res@ == session_text(role, id@),
{
    proof {
        reveal_strlit(":");
    }
    let res: String = text::join3(role.as_str(), ":", id);
    assert(res@ =~= session_text(role, id@));
    res
}

/// Whether a cookie value is that of the session of `role` under `id`.
pub open spec fn is_session(value: Seq<char>, role: Role, id: Seq<char>) -> bool {
    id.len() > 0 && value == session_text(role, id)
}

/// The role and the id of the session that a cookie value holds, if it holds
/// one.
pub open spec fn session_in(value: Seq<char>) -> Option<(Role, Seq<char>)> {
    if exists|role: Role, id: Seq<char>| is_session(value, role, id) {
        Some(choose|role: Role, id: Seq<char>| is_session(value, role, id))
    } else {
        None
    }
}

/// Reads the value of a session cookie: a role, a colon and an id that is not
/// empty. The first colon ends the role; the id may hold more of them. Any
/// other value is no session.
pub fn parse_session(value: &str) -> (res: Option<(Role, String)>)
    ensures
        match res {
            Some(session) => is_session(value@, session.0, session.1@),
            None => forall|role: Role, id: Seq<char>| !#[trigger] is_session(value@, role, id),
        },
        session_in(value@) == match res {
            Some(session) => Some((session.0, session.1@)),
            None => None,
        },
{
    match text::split_first(value, ':') {
        None => {
            proof {
                assert forall|role: Role, id: Seq<char>| !#[trigger] is_session(
                    value@,
                    role,
                    id,
                ) by {
                    if is_session(value@, role, id) {
                        assert(value@[role.text().len() as int] == ':');
                    }
                }
            }
            None
        },
        Some(parts) => {
            let (name, id): (&str, &str) = parts;
            proof {
                assert forall|role: Role, other: Seq<char>| #[trigger]
                    is_session(value@, role, other) implies name@ == role.text() && other
                    == id@ by {
                    law_role_round_trip(role, name@);
                    text::lemma_split_first_unique(':', name@, id@, role.text(), other);
                }
                assert forall|role: Role| role_of(#[trigger] role.text()) == Some(role) by {
                    law_role_round_trip(role, name@);
                }
            }
            match Role::parse(name) {
                None => None,
                Some(role) => {
                    proof {
                        law_role_round_trip(role, name@);
                    }
                    if id.is_empty() {
                        return None;
                    }
                    proof {
                        assert(value@ =~= session_text(role, id@));
                        law_session_is_read_back(value@, role, id@);
                    }
                    Some((role, id.to_owned()))
                },
            }
        },
    }
}

/// A cookie value is the session of at most one role and id: what a login
/// writes is read back as it was written, and as nothing else.
pub proof fn law_session_is_unique(
    value: Seq<char>,
    role1: Role,
    id1: Seq<char>,
    role2: Role,
    id2: Seq<char>,
)
    requires
        is_session(value, role1, id1),
        is_session(value, role2, id2),
    ensures
        role1 == role2,
        id1 == id2,
{
    law_role_round_trip(role1, role2.text());
    law_role_round_trip(role2, role1.text());
    text::lemma_split_first_unique(':', role1.text(), id1, role2.text(), id2);
}

/// The session that a cookie value was made for is the one that is read from
/// it.
pub proof fn law_session_is_read_back(value: Seq<char>, role: Role, id: Seq<char>)
    requires
        is_session(value, role, id),
    ensures
        session_in(value) == Some((role, id)),
{
    let found = session_in(value)->0;
    assert(is_session(value, found.0, found.1));
    law_session_is_unique(value, role, id, found.0, found.1);
}

/// The user whose session a cookie holds, if it holds one.
pub open spec fn user_in(cookie: Option<&str>) -> Option<UserModel> {
    match cookie {
        Some(value) => match session_in(value@) {
            Some(session) => Some(UserModel { id: session.1, role: session.0 }),
            None => None,
        },
        None => None,
    }
}

/// The user of a request, from the value of its session cookie. A request
/// without a session is sent to the login page.
pub fn user_of(cookie: Option<&str>) -> (res: Option<User>)
    ensures
        match res {
            Some(user) => cookie matches Some(value) && is_session(
                value@,
                user@.role,
                user@.id,
            ),
            None => cookie matches Some(value) ==> forall|role: Role, id: Seq<char>|
                !#[trigger] is_session(value@, role, id),
        },
        text::opt_view(res) == user_in(cookie),
{
    match cookie {
        Some(value) => match parse_session(value) {
            Some((role, id)) => Some(User { id, role }),
            None => None,
        },
        None => None,
    }
}

/// The chef that a user is, if it is one.
pub open spec fn chef_in(user: UserModel) -> Option<ChefModel> {
    if user.role == Role::Chef {
        Some(ChefModel { id: user.id })
    } else {
        None
    }
}

/// The chef that a user is, if it is one.
pub fn chef_of(user: User) -> (res: Option<Chef>)
    ensures
        text::opt_view(res) == chef_in(user@),
{
    match user.role {
        Role::Chef => Some(Chef { id: user.id }),
        _ => None,
    }
}

/// The premium user that a user is, if it is one.
pub open spec fn premium_in(user: UserModel) -> Option<PremiumModel> {
    if user.role == Role::Premium {
        Some(PremiumModel { id: user.id })
    } else {
        None
    }
}

/// The premium user that a user is, if it is one.
pub fn premium_of(user: User) -> (res: Option<Premium>)
    ensures
        text::opt_view(res) == premium_in(user@),
{
    match user.role {
        Role::Premium => Some(Premium { id: user.id }),
        _ => None,
    }
}

// ── Signing in ──────────────────────────────────────────────────────────

/// The characters of an id: digits and upper-case letters but for I, L, O
/// and U.
pub open spec fn is_id_char(c: char) -> bool {
    &&& ('0' <= c <= '9' || 'A' <= c <= 'Z')
    &&& c != 'I' && c != 'L' && c != 'O' && c != 'U'
}

/// The form of an id: 26 characters, the first of them at most a seven.
pub open spec fn is_id(s: Seq<char>) -> bool {
    &&& s.len() == 26
    &&& '0' <= s[0] <= '7'
    &&& forall|i: int| 0 <= i < s.len() ==> is_id_char(#[trigger] s[i])
}

/// Calls `ulid::Ulid::new` and writes the result out. Trusted: the text is in
/// the form of an id. Which id it is rests on the time and on chance, and
/// nothing is said of it.
#[verifier::external_body]
fn new_id() -> (res: String)
    ensures
        is_id(res@),
{
    ulid::Ulid::new().to_string()
}

/// What a login leads to.
#[derive(Debug, PartialEq)]
pub enum Login {
    /// The value that the session cookie is set to; the user is sent to the
    /// front page.
    SignedIn(String),
    /// The role is unknown: status 400 and this text.
    Refused(u16, &'static str),
}

/// Whether `res` answers a login for a role under the id `id`.
pub open spec fn logs_in(role: Seq<char>, id: Seq<char>, res: Login) -> bool {
    match role_of(role) {
        Some(r) => res matches Login::SignedIn(value) && value@ == session_text(r, id),
        None => res matches Login::Refused(status, body) && status == 400 && body@
            == "unknown role"@,
    }
}

/// A login for a role, under the id `id`.
pub fn login_as(role: &str, id: &str) -> (res: Login)
    ensures
        logs_in(role@, id@, res),
{
    match Role::parse(role) {
        Some(r) => Login::SignedIn(session_value(r, id)),
        None => Login::Refused(400, "unknown role"),
    }
}

/// Whether `res` answers a login for a role: the cookie is the session of that
/// role under an id; an unknown role is refused, and no cookie is set.
pub open spec fn answers_login(role: Seq<char>, res: Login) -> bool {
    match role_of(role) {
        Some(r) => res matches Login::SignedIn(value) && exists|id: Seq<char>|
            is_id(id) && #[trigger] is_session(value@, r, id),
        None => res matches Login::Refused(status, body) && status == 400 && body@
            == "unknown role"@,
    }
}

/// A login for a role, under a new id. Which id it is rests on the time and on
/// chance.
pub fn login_submit(role: &str) -> (res: Login)
    ensures
        answers_login(role@, res),
{
    let id: String = new_id();
    let res: Login = login_as(role, id.as_str());
    proof {
        match role_of(role@) {
            Some(r) => {
                assert(is_session(session_text(r, id@), r, id@));
            },
            None => {},
        }
    }
    res
}

/// A login is read back: the cookie that it sets holds a session of the role
/// that was asked for, under a well-formed id. A login for an unknown role is
/// refused with status 400, and sets none.
pub proof fn law_logins_are_read_back(role: Seq<char>, res: Login)
    requires
        answers_login(role, res),
    ensures
        match role_of(role) {
            Some(r) => res matches Login::SignedIn(value) && (session_in(value@) matches Some(
                session,
            ) && session.0 == r && is_id(session.1)),
            None => res matches Login::Refused(status, _) && status == 400,
        },
{
    if let Some(r) = role_of(role) {
        let value = res->SignedIn_0@;
        let id = choose|id: Seq<char>| is_id(id) && #[trigger] is_session(value, r, id);
        law_session_is_read_back(value, r, id);
    }
}

/// What each role is called.
pub proof fn law_roles_are_called(value: Role)
    ensures
        value == Role::User ==> value.text() == "user"@,
        value == Role::Chef ==> value.text() == "chef"@,
        value == Role::Premium ==> value.text() == "premium"@,
{
}

/// Whoever signs in for a role under an id is the user with that role and that
/// id in every request that brings the cookie back; without a cookie there is
/// no user, and a role that is not known signs nobody in.
pub proof fn law_users_are_who_signed_in(
    name: Seq<char>,
    role: Role,
    id: Seq<char>,
    res: Login,
    cookie: &str,
)
    requires
        logs_in(name, id, res),
        id.len() > 0,
    ensures
        name == role.text() ==> (res matches Login::SignedIn(value) && (cookie@ == value@
            ==> user_in(Some(cookie)) == Some(UserModel { id, role }))),
        role_of(name) is None ==> res is Refused,
        user_in(None) is None,
{
    law_role_round_trip(role, name);
    if name == role.text() {
        let value = session_text(role, id);
        assert(is_session(value, role, id));
        law_session_is_read_back(value, role, id);
    }
}

/// A session cookie holds the role, a colon and the id.
pub proof fn law_sessions_name_role_and_id(role: Role, id: Seq<char>)
    ensures
        session_text(role, id) == role.text() + ":"@ + id,
{
    reveal_strlit(":");
    assert(session_text(role, id) =~= role.text() + ":"@ + id);
}

/// A user is a chef or a premium user by role alone, under the same id, and
/// never both.
pub proof fn law_roles_grant_what_they_say(user: UserModel)
    ensures
        chef_in(user) is Some <==> user.role == Role::Chef,
        premium_in(user) is Some <==> user.role == Role::Premium,
        chef_in(user) matches Some(chef) ==> chef.id == user.id && premium_in(user) is None,
        premium_in(user) matches Some(premium) ==> premium.id == user.id && chef_in(user) is None,
{
}

/// A model has every field of the value that it stands for.
pub proof fn law_models_have_every_field(
    user: User,
    chef: Chef,
    premium: Premium,
)
    ensures
        user@.id == user.id@,
        user@.role == user.role,
        chef@.id == chef.id@,
        premium@.id == premium.id@,
{
}

} // verus!
