//! Role grants: the normalized string derived from each role a user holds,
//! and the rule by which a route's required grants admit a request.

use vstd::prelude::*;
use crate::errors::GenericError;
use crate::users::models::Role;

verus! {

/// An ASCII lower-case letter as its upper-case letter; any other character
/// as itself.
pub open spec fn ascii_upper_char(c: char) -> char {
    if 'a' <= c && c <= 'z' {
        ((c as u8 - 32) as u8) as char
    } else {
        c
    }
}

/// A string with its ASCII letters in upper case.
pub open spec fn ascii_upper(s: Seq<char>) -> Seq<char> {
    Seq::new(s.len(), |i: int| ascii_upper_char(s[i]))
}

/// The role's name in upper case.
pub open spec fn upper_name(role: Role) -> Seq<char> {
    match role {
        Role::User => "USER"@,
        Role::Admin => "ADMIN"@,
    }
}

/// The grant derived from a role: the prefix `ROLE_` and the role's name in
/// upper case.
pub open spec fn grant_of(role: Role) -> Seq<char> {
    "ROLE_"@ + upper_name(role)
}

/// The grants derived from a list of roles: one per role, in the same
/// order.
pub open spec fn grants_of(roles: Seq<Role>) -> Seq<Seq<char>> {
    Seq::new(roles.len(), |i: int| grant_of(roles[i]))
}

/// The upper-case name of a role is its name with the letters in upper
/// case.
pub proof fn lemma_upper_name(role: Role)
    ensures
        upper_name(role) == ascii_upper(role.name()),
{
    reveal_strlit("User");
    reveal_strlit("USER");
    reveal_strlit("Admin");
    reveal_strlit("ADMIN");
    assert(upper_name(role) =~= ascii_upper(role.name()));
}

/// The two grants written out.
pub proof fn lemma_grant_names()
    ensures
        grant_of(Role::User) == "ROLE_USER"@,
        grant_of(Role::Admin) == "ROLE_ADMIN"@,
        grant_of(Role::User) != grant_of(Role::Admin),
{
    reveal_strlit("ROLE_");
    reveal_strlit("USER");
    reveal_strlit("ADMIN");
    reveal_strlit("ROLE_USER");
    reveal_strlit("ROLE_ADMIN");
    assert(grant_of(Role::User) =~= "ROLE_USER"@);
    assert(grant_of(Role::Admin) =~= "ROLE_ADMIN"@);
    assert(grant_of(Role::User).len() != grant_of(Role::Admin).len());
}

/// Derives the grant of a role.
pub fn role_grant(role: Role) -> (grant: String)
    ensures
        grant@ == grant_of(role),
{
    let mut grant = "ROLE_".to_owned();
    match role {
        Role::User => grant.append("USER"),
        Role::Admin => grant.append("ADMIN"),
    }
    grant
}

/// Derives the grants of a list of roles. Defined for every list, and a
/// function of the list alone.
pub fn derive_grants(roles: &Vec<Role>) -> (grants: Vec<String>)
    ensures
        grants.deep_view() == grants_of(roles@),
{
    let mut grants: Vec<String> = Vec::new();
    let mut i: usize = 0;
    while i < roles.len()
        invariant
            i <= roles.len(),
            grants@.len() == i,
            forall|k: int| 0 <= k < i ==> (#[trigger] grants@[k])@ == grant_of(roles@[k]),
        decreases roles.len() - i,
    {
        grants.push(role_grant(roles[i]));
        i = i + 1;
    }
    assert(grants.deep_view() =~= grants_of(roles@));
    grants
}

/// The rule of the access control enforcer: a request is admitted when the
/// route requires nothing, or when some required grant is among the
/// request's grants.
pub open spec fn access_allowed(required: Seq<Seq<char>>, grants: Seq<Seq<char>>) -> bool {
    required.len() == 0 || exists|g: Seq<char>| #[trigger]
        required.contains(g) && grants.contains(g)
}

/// Whether a grant is among the given ones.
pub fn holds_grant(grants: &Vec<String>, grant: &String) -> (b: bool)
    ensures
        b == grants.deep_view().contains(grant@),
{
    let mut i: usize = 0;
    while i < grants.len()
        invariant
            i <= grants.len(),
            forall|k: int| 0 <= k < i ==> (#[trigger] grants.deep_view()[k]) != grant@,
        decreases grants.len() - i,
    {
        if grants[i] == *grant {
            assert(grants.deep_view()[i as int] == grant@);
            return true;
        }
        i = i + 1;
    }
    false
}

/// Decides whether a request with the given grants is admitted to a route
/// with the given required grants.
pub fn has_any_permission(required: &Vec<String>, grants: &Vec<String>) -> (allowed: bool)
    ensures
        allowed == access_allowed(required.deep_view(), grants.deep_view()),
{
    if required.len() == 0 {
        return true;
    }
    let mut i: usize = 0;
    while i < required.len()
        invariant
            i <= required.len(),
            forall|k: int|
                0 <= k < i ==> !grants.deep_view().contains(#[trigger] required.deep_view()[k]),
        decreases required.len() - i,
    {
        if holds_grant(grants, &required[i]) {
            assert(required.deep_view().contains(required.deep_view()[i as int]));
            return true;
        }
        i = i + 1;
    }
    false
}

/// Admits a request or refuses it as `Forbidden`.
pub fn enforce(required: &Vec<String>, grants: &Vec<String>) -> (result: Result<(), GenericError>)
    ensures
        access_allowed(required.deep_view(), grants.deep_view()) ==> result is Ok,
        !access_allowed(required.deep_view(), grants.deep_view()) ==> result == Err::<
            (),
            GenericError,
        >(GenericError::spec_forbidden()),
{
    if has_any_permission(required, grants) {
        Ok(())
    } else {
        Err(GenericError::forbidden())
    }
}

/// The access rule looks only at which grants a request holds, not at
/// their order or number.
pub proof fn lemma_access_ignores_order(
    required: Seq<Seq<char>>,
    grants_a: Seq<Seq<char>>,
    grants_b: Seq<Seq<char>>,
)
    requires
        forall|g: Seq<char>| grants_a.contains(g) <==> grants_b.contains(g),
    ensures
        access_allowed(required, grants_a) == access_allowed(required, grants_b),
{
    if required.len() > 0 {
        if access_allowed(required, grants_a) {
            let g = choose|g: Seq<char>| #[trigger] required.contains(g) && grants_a.contains(g);
            assert(required.contains(g) && grants_b.contains(g));
        }
        if access_allowed(required, grants_b) {
            let g = choose|g: Seq<char>| #[trigger] required.contains(g) && grants_b.contains(g);
            assert(required.contains(g) && grants_a.contains(g));
        }
    }
}

/// A grant is derived from a list of roles exactly when it is the grant of
/// one of the roles.
pub proof fn lemma_grants_of_contains(roles: Seq<Role>, grant: Seq<char>)
    ensures
        grants_of(roles).contains(grant) <==> exists|role: Role| #[trigger]
            roles.contains(role) && grant_of(role) == grant,
{
    if grants_of(roles).contains(grant) {
        let i = choose|i: int| 0 <= i < grants_of(roles).len() && grants_of(roles)[i] == grant;
        assert(roles.contains(roles[i]) && grant_of(roles[i]) == grant);
    }
    if exists|role: Role| #[trigger] roles.contains(role) && grant_of(role) == grant {
        let role = choose|role: Role| #[trigger] roles.contains(role) && grant_of(role) == grant;
        let i = choose|i: int| 0 <= i < roles.len() && roles[i] == role;
        assert(grants_of(roles)[i] == grant);
    }
}

/// Two users that hold the same roles, in whatever order, are admitted to
/// the same routes.
pub proof fn lemma_access_ignores_role_order(
    required: Seq<Seq<char>>,
    roles_a: Seq<Role>,
    roles_b: Seq<Role>,
)
    requires
        forall|role: Role| roles_a.contains(role) <==> roles_b.contains(role),
    ensures
        access_allowed(required, grants_of(roles_a)) == access_allowed(
            required,
            grants_of(roles_b),
        ),
{
    assert forall|g: Seq<char>| grants_of(roles_a).contains(g) <==> grants_of(roles_b).contains(
        g,
    ) by {
        lemma_grants_of_contains(roles_a, g);
        lemma_grants_of_contains(roles_b, g);
        if grants_of(roles_a).contains(g) {
            let role = choose|role: Role| #[trigger]
                roles_a.contains(role) && grant_of(role) == g;
            assert(roles_b.contains(role) && grant_of(role) == g);
        }
        if grants_of(roles_b).contains(g) {
            let role = choose|role: Role| #[trigger]
                roles_b.contains(role) && grant_of(role) == g;
            assert(roles_a.contains(role) && grant_of(role) == g);
        }
    }
    lemma_access_ignores_order(required, grants_of(roles_a), grants_of(roles_b));
}

} // verus!
