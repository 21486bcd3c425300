//! Role-based access control for the supervisor API: roles, permissions,
//! which role grants which permission, and the request checks that run
//! before every authenticated call.
use vstd::prelude::*;
use crate::text::{chars_of, str_eq, string_of_range};

verus! {

/// A role that an API token holds.
#[derive(Debug, Clone, Copy, PartialEq, Eq, Structural)]
pub enum Role {
    Owner,
    Admin,
    Operator,
    Viewer,
}

/// A permission that a request needs.
#[derive(Debug, Clone, Copy, PartialEq, Eq, Structural)]
pub enum Permission {
    Read,
    Operate,
    Admin,
    Owner,
}

/// The error of `role_from_str`: the text names no role.
#[derive(Debug, Clone, Copy, PartialEq, Eq, Structural)]
pub struct InvalidRole;

impl InvalidRole {
    /// The message the error carries.
    pub fn message(&self) -> (res: &'static str)
        ensures
            res@ == "invalid role"@,
    {
        "invalid role"
    }
}

/// The role that a lower-case role name stands for.
pub open spec fn parse_role(s: Seq<char>) -> Option<Role> {
    if s == "owner"@ {
        Some(Role::Owner)
    } else if s == "admin"@ {
        Some(Role::Admin)
    } else if s == "operator"@ {
        Some(Role::Operator)
    } else if s == "viewer"@ {
        Some(Role::Viewer)
    } else {
        None
    }
}

/// Parses a role name: exactly `owner`, `admin`, `operator` or `viewer`.
pub fn role_from_str(s: &str) -> (res: Result<Role, InvalidRole>)
    ensures
        match parse_role(s@) {
            Some(r) => res == Ok::<Role, InvalidRole>(r),
            None => res is Err,
        },
{
    if str_eq(s, "owner") {
        Ok(Role::Owner)
    } else if str_eq(s, "admin") {
        Ok(Role::Admin)
    } else if str_eq(s, "operator") {
        Ok(Role::Operator)
    } else if str_eq(s, "viewer") {
        Ok(Role::Viewer)
    } else {
        Err(InvalidRole)
    }
}

/// Which permissions each role grants.
pub open spec fn grants(role: Role, permission: Permission) -> bool {
    match role {
        Role::Owner => true,
        Role::Admin => permission != Permission::Owner,
        Role::Operator => permission == Permission::Read || permission == Permission::Operate,
        Role::Viewer => permission == Permission::Read,
    }
}

/// Whether `role` grants `permission`.
pub fn role_allows(role: Role, permission: Permission) -> (res: bool)
    ensures
        res == grants(role, permission),
{
    match role {
        Role::Owner => true,
        Role::Admin => !matches!(permission, Permission::Owner),
        Role::Operator => matches!(permission, Permission::Read | Permission::Operate),
        Role::Viewer => matches!(permission, Permission::Read),
    }
}

/// The rank of a role, from viewer (0) to owner (3).
pub open spec fn role_rank(role: Role) -> int {
    match role {
        Role::Viewer => 0,
        Role::Operator => 1,
        Role::Admin => 2,
        Role::Owner => 3,
    }
}

/// The rank of a permission, from read (0) to owner (3).
pub open spec fn permission_rank(permission: Permission) -> int {
    match permission {
        Permission::Read => 0,
        Permission::Operate => 1,
        Permission::Admin => 2,
        Permission::Owner => 3,
    }
}

/// Roles and permissions form one ladder: a role grants a permission
/// exactly when the permission's rank is at most the role's.
pub proof fn lemma_grants_is_rank_order(role: Role, permission: Permission)
    ensures
        grants(role, permission) <==> permission_rank(permission) <= role_rank(role),
{
}

/// A role that grants a permission also grants every lower permission,
/// and every higher role grants it too.
pub proof fn lemma_grants_monotone(r1: Role, r2: Role, p1: Permission, p2: Permission)
    requires
        grants(r1, p1),
        role_rank(r1) <= role_rank(r2),
        permission_rank(p2) <= permission_rank(p1),
    ensures
        grants(r2, p2),
{
}

/// Every role may read, and the owner role may do everything.
pub proof fn lemma_read_for_all_owner_for_everything(role: Role, permission: Permission)
    ensures
        grants(role, Permission::Read),
        grants(Role::Owner, permission),
        grants(role, Permission::Owner) ==> role == Role::Owner,
{
}

/// The HTTP method of a request, as far as access control tells them
/// apart.
#[derive(Debug, Clone, Copy, PartialEq, Eq, Structural)]
pub enum HttpMethod {
    Get,
    Post,
    Delete,
    Other,
}

/// The permission a request needs: reads need `Read`, a POST marked as an
/// owner operation needs `Owner`, other POSTs need `Operate`, and every
/// other method needs `Admin`.
pub open spec fn needed_permission(method: HttpMethod, owner_op: bool) -> Permission {
    match method {
        HttpMethod::Get => Permission::Read,
        HttpMethod::Post => if owner_op {
            Permission::Owner
        } else {
            Permission::Operate
        },
        HttpMethod::Delete => Permission::Admin,
        HttpMethod::Other => Permission::Admin,
    }
}

/// The permission a request with `method` needs; `owner_op` tells whether
/// it carries the owner-operation header.
pub fn required_permission(method: HttpMethod, owner_op: bool) -> (res: Permission)
    ensures
        res == needed_permission(method, owner_op),
{
    match method {
        HttpMethod::Get => Permission::Read,
        HttpMethod::Post => if owner_op {
            Permission::Owner
        } else {
            Permission::Operate
        },
        HttpMethod::Delete => Permission::Admin,
        HttpMethod::Other => Permission::Admin,
    }
}

/// Why a request is refused.
#[derive(Debug, Clone, Copy, PartialEq, Eq, Structural)]
pub enum AuthError {
    MissingToken,
    MalformedToken,
    UnknownToken,
    InvalidRole,
    InsufficientPermissions,
}

/// The HTTP status of each refusal: 401 when the caller is not known,
/// 403 when it is known but may not act.
pub open spec fn auth_status(e: AuthError) -> u16 {
    match e {
        AuthError::MissingToken => 401,
        AuthError::MalformedToken => 401,
        AuthError::UnknownToken => 401,
        AuthError::InvalidRole => 403,
        AuthError::InsufficientPermissions => 403,
    }
}

/// The message of each refusal.
pub open spec fn auth_message(e: AuthError) -> Seq<char> {
    match e {
        AuthError::MissingToken => "missing bearer token"@,
        AuthError::MalformedToken => "invalid bearer token"@,
        AuthError::UnknownToken => "token not found"@,
        AuthError::InvalidRole => "invalid role"@,
        AuthError::InsufficientPermissions => "insufficient permissions"@,
    }
}

impl AuthError {
    /// The HTTP status code of the refusal.
    pub fn status_code(&self) -> (res: u16)
        ensures
            res == auth_status(*self),
    {
        match self {
            AuthError::MissingToken => 401,
            AuthError::MalformedToken => 401,
            AuthError::UnknownToken => 401,
            AuthError::InvalidRole => 403,
            AuthError::InsufficientPermissions => 403,
        }
    }

    /// The message of the refusal.
    pub fn message(&self) -> (res: &'static str)
        ensures
            res@ == auth_message(*self),
    {
        match self {
            AuthError::MissingToken => "missing bearer token",
            AuthError::MalformedToken => "invalid bearer token",
            AuthError::UnknownToken => "token not found",
            AuthError::InvalidRole => "invalid role",
            AuthError::InsufficientPermissions => "insufficient permissions",
        }
    }
}

/// The token carried by an `Authorization` header value: the text after
/// a leading `Bearer `.
pub open spec fn bearer_of(header: Seq<char>) -> Option<Seq<char>> {
    let prefix = "Bearer "@;
    if header.len() >= prefix.len() && header.subrange(0, prefix.len() as int) == prefix {
        Some(header.subrange(prefix.len() as int, header.len() as int))
    } else {
        None
    }
}

/// Takes the bearer token out of the `Authorization` header, which is
/// `None` when the request has none that is readable text.
pub fn bearer_token(header: Option<&str>) -> (res: Result<String, AuthError>)
    ensures
        match header {
            None => res == Err::<String, AuthError>(AuthError::MissingToken),
            Some(h) => match bearer_of(h@) {
                Some(t) => res matches Ok(s) && s@ == t,
                None => res == Err::<String, AuthError>(AuthError::MalformedToken),
            },
        },
{
    match header {
        None => Err(AuthError::MissingToken),
        Some(h) => {
            let v = chars_of(h);
            let p = chars_of("Bearer ");
            let n = p.len();
            if v.len() < n {
                return Err(AuthError::MalformedToken);
            }
            let head = string_of_range(&v, 0, n);
            if str_eq(head.as_str(), "Bearer ") {
                Ok(string_of_range(&v, n, v.len()))
            } else {
                Err(AuthError::MalformedToken)
            }
        },
    }
}

/// Checks the role stored with a token against the permission a request
/// needs.
pub fn authorize(role_text: &str, permission: Permission) -> (res: Result<Role, AuthError>)
    ensures
        match parse_role(role_text@) {
            None => res == Err::<Role, AuthError>(AuthError::InvalidRole),
            Some(r) => if grants(r, permission) {
                res == Ok::<Role, AuthError>(r)
            } else {
                res == Err::<Role, AuthError>(AuthError::InsufficientPermissions)
            },
        },
{
    match role_from_str(role_text) {
        Err(_) => Err(AuthError::InvalidRole),
        Ok(r) => if role_allows(r, permission) {
            Ok(r)
        } else {
            Err(AuthError::InsufficientPermissions)
        },
    }
}

/// The whole access decision for a request: the `Authorization` header
/// (if readable), the role stored with the token record found under the
/// hash of its bearer token (`None` when no record was found), the
/// method, and whether the owner-operation header is present. The checks
/// run in this order: a header is needed, it must carry a bearer token,
/// the token must be known, its role must be valid, and the role must
/// grant the permission the request needs.
pub open spec fn access_decision(
    header: Option<Seq<char>>,
    stored_role: Option<Seq<char>>,
    method: HttpMethod,
    owner_op: bool,
) -> Result<Role, AuthError> {
    match header {
        None => Err(AuthError::MissingToken),
        Some(h) => match bearer_of(h) {
            None => Err(AuthError::MalformedToken),
            Some(_) => match stored_role {
                None => Err(AuthError::UnknownToken),
                Some(r) => match parse_role(r) {
                    None => Err(AuthError::InvalidRole),
                    Some(role) => if grants(role, needed_permission(method, owner_op)) {
                        Ok(role)
                    } else {
                        Err(AuthError::InsufficientPermissions)
                    },
                },
            },
        },
    }
}

/// Decides whether a request may proceed, given its `Authorization`
/// header (if readable), the role stored with the token record found
/// under the hash of its bearer token (`None` when there is none), its
/// method and whether it carries the owner-operation header.
pub fn authenticate(
    header: Option<&str>,
    stored_role: Option<&str>,
    method: HttpMethod,
    owner_op: bool,
) -> (res: Result<Role, AuthError>)
    ensures
        res == access_decision(
            match header {
                Some(h) => Some(h@),
                None => None,
            },
            match stored_role {
                Some(r) => Some(r@),
                None => None,
            },
            method,
            owner_op,
        ),
{
    match bearer_token(header) {
        Err(e) => Err(e),
        Ok(_) => match stored_role {
            None => Err(AuthError::UnknownToken),
            Some(r) => authorize(r, required_permission(method, owner_op)),
        },
    }
}

/// Any valid role may read: a request that carries a bearer token whose
/// record holds a valid role is let through on GET, whether or not it
/// carries the owner-operation header.
pub proof fn lemma_any_valid_role_may_read(h: Seq<char>, r: Seq<char>, owner_op: bool)
    requires
        bearer_of(h) is Some,
        parse_role(r) is Some,
    ensures
        needed_permission(HttpMethod::Get, owner_op) == Permission::Read,
        access_decision(Some(h), Some(r), HttpMethod::Get, owner_op) == Ok::<Role, AuthError>(
            parse_role(r)->0,
        ),
{
}

/// Who may do what, for a known token with a valid role: every role may
/// GET; a POST is let through for operators, admins and owners, and only
/// for owners when it is marked as an owner operation; DELETE and other
/// methods are let through for admins and owners only. Every other
/// request with a valid role is refused as lacking permission.
pub proof fn lemma_who_may_do_what(h: Seq<char>, r: Seq<char>, method: HttpMethod, owner_op: bool)
    requires
        bearer_of(h) is Some,
        parse_role(r) is Some,
    ensures
        ({
            let role = parse_role(r)->0;
            let allowed = match method {
                HttpMethod::Get => true,
                HttpMethod::Post => if owner_op {
                    role == Role::Owner
                } else {
                    role != Role::Viewer
                },
                HttpMethod::Delete => role == Role::Admin || role == Role::Owner,
                HttpMethod::Other => role == Role::Admin || role == Role::Owner,
            };
            &&& allowed ==> access_decision(Some(h), Some(r), method, owner_op) == Ok::<
                Role,
                AuthError,
            >(role)
            &&& !allowed ==> access_decision(Some(h), Some(r), method, owner_op) == Err::<
                Role,
                AuthError,
            >(AuthError::InsufficientPermissions)
        }),
{
}

} // verus!
