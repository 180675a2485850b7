//! User accounts: what is shown of them and who may do what.
use crate::entities::user;
use vstd::prelude::*;

verus! {

/// A request to create a user.
pub struct CreateUserRequest {
    pub name: String,
    pub email: String,
    pub password: String,
    pub user_type: Option<String>,
}

/// What is shown of a user: everything but the password hash.
pub struct UserResponse {
    pub id: i32,
    pub name: String,
    pub email: String,
    pub user_type: String,
}

pub open spec fn response_of(model: user::Model) -> UserResponse {
    UserResponse { id: model.id, name: model.name, email: model.email, user_type: model.user_type }
}

impl From<user::Model> for UserResponse {
    fn from(model: user::Model) -> (r: Self) {
        UserResponse {
            id: model.id,
            name: model.name,
            email: model.email,
            user_type: model.user_type,
        }
    }
}

impl vstd::std_specs::convert::FromSpecImpl<user::Model> for UserResponse {
    open spec fn obeys_from_spec() -> bool {
        true
    }

    open spec fn from_spec(v: user::Model) -> UserResponse {
        response_of(v)
    }
}

/// A listing filter: only these ids, where given.
pub struct UsersQuery {
    pub ids: Option<Vec<u64>>,
}

pub struct LoginRequest {
    pub username: String,
    pub password: String,
}

pub struct LoginResponse {
    pub access_token: String,
}

/// The user type of administrators.
pub open spec fn administrator() -> Seq<char> {
    "administrator"@
}

/// The user type given where none is asked for.
pub open spec fn plain_user() -> Seq<char> {
    "user"@
}

/// Whether a user type is the administrator's.
pub fn is_administrator_type(user_type: &str) -> (r: bool)
    ensures
        r == (user_type@ == administrator()),
{
    let admin = "administrator";
    proof {
        reveal_strlit("administrator");
    }
    let n = user_type.unicode_len();
    if n != 13 {
        return false;
    }
    let mut i: usize = 0;
    while i < 13
        invariant
            n == 13 == user_type@.len(),
            admin@ == administrator(),
            admin@.len() == 13,
            i <= 13,
            user_type@.subrange(0, i as int) == admin@.subrange(0, i as int),
        decreases 13 - i,
    {
        if user_type.get_char(i) != admin.get_char(i) {
            return false;
        }
        proof {
            assert(user_type@.subrange(0, i + 1) =~= user_type@.subrange(0, i as int).push(
                user_type@[i as int],
            ));
            assert(admin@.subrange(0, i + 1) =~= admin@.subrange(0, i as int).push(
                admin@[i as int],
            ));
        }
        i = i + 1;
    }
    proof {
        assert(user_type@ =~= user_type@.subrange(0, 13));
        assert(admin@ =~= admin@.subrange(0, 13));
    }
    true
}

/// The type of a new user: the first user is always an administrator;
/// later ones get the type asked for, or the plain user type.
pub fn new_user_type(user_count: u64, requested: Option<String>) -> (r: String)
    ensures
        user_count == 0 ==> r@ == administrator(),
        user_count > 0 ==> match requested {
            Some(t) => r@ == t@,
            None => r@ == plain_user(),
        },
{
    if user_count == 0 {
        String::from_str("administrator")
    } else {
        match requested {
            Some(t) => t,
            None => String::from_str("user"),
        }
    }
}

/// Whether a user may be created: the first one by anybody, later ones by
/// administrators only.
pub fn may_create_user(user_count: u64, is_admin: bool) -> (r: bool)
    ensures
        r == (user_count == 0 || is_admin),
{
    user_count == 0 || is_admin
}

/// Whether `acting` may ban `target`: nobody can ban themselves.
pub fn may_ban(target: i32, acting: i32) -> (r: bool)
    ensures
        r == (target != acting),
{
    target != acting
}

/// The access decision that a user's role settles by itself:
/// administrators are allowed, banned users denied; for anyone else the
/// instance's policy decides (`None`).
pub fn role_permission(user_type: &str, banned: bool) -> (r: Option<bool>)
    ensures
        user_type@ == administrator() ==> r == Some(true),
        user_type@ != administrator() && banned ==> r == Some(false),
        user_type@ != administrator() && !banned ==> r is None,
{
    if is_administrator_type(user_type) {
        Some(true)
    } else if banned {
        Some(false)
    } else {
        None
    }
}

} // verus!
