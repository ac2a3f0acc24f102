//! Access to the administrative paths: a request may reach a path under `/admin` only
//! if it carries claims and one of their groups is the infrastructure group.
use vstd::prelude::*;
use crate::auth::claims::KeycloakClaims;
use crate::numeric::{decimal, decimal_string};
use crate::utils::starts_with;

verus! {

/// The group whose members may use the administrative paths.
pub open spec fn admin_group() -> Seq<char> {
    "/TI/Infraestrutura"@
}

/// The prefix of the administrative paths.
pub open spec fn admin_prefix() -> Seq<char> {
    "/admin"@
}

/// Some group of `groups` is `group`.
pub open spec fn has_group(groups: Seq<String>, group: Seq<char>) -> bool {
    exists|i: int| 0 <= i < groups.len() && (#[trigger] groups[i])@ == group
}

/// Whether a request may reach `path`: a path under `/admin` needs claims with the
/// infrastructure group; every other path is open.
pub open spec fn spec_admin_allowed(claims: Option<KeycloakClaims>, path: Seq<char>) -> bool {
    !admin_prefix().is_prefix_of(path) || match claims {
        None => false,
        Some(c) => has_group(c.groups@, admin_group()),
    }
}

/// Whether some group of `groups` is `group`.
pub fn contains_group(groups: &Vec<String>, group: &str) -> (found: bool)
    ensures
        found == has_group(groups@, group@),
{
    let target = String::from_str(group);
    let n = groups.len();
    let mut i: usize = 0;
    while i < n
        invariant
            n == groups@.len(),
            i <= n,
            target@ == group@,
            forall|j: int| 0 <= j < i ==> (#[trigger] groups@[j])@ != group@,
        decreases n - i,
    {
        if groups[i] == target {
            assert(groups@[i as int]@ == group@);
            return true;
        }
        i = i + 1;
    }
    false
}

/// Decides whether the request for `path`, with the claims it carries (if any), may
/// go on; `false` is answered 403.
pub fn admin_allowed(claims: Option<&KeycloakClaims>, path: &str) -> (allowed: bool)
    ensures
        allowed == spec_admin_allowed(
            match claims {
                Some(c) => Some(*c),
                None => None,
            },
            path@,
        ),
{
    if !starts_with(path, "/admin") {
        return true;
    }
    match claims {
        None => false,
        Some(c) => contains_group(&c.groups, "/TI/Infraestrutura"),
    }
}

/// The status label under which a response is counted: its code in decimal.
pub fn status_label(code: u16) -> (label: String)
    ensures
        label@ == decimal(code as nat),
{
    decimal_string(code as u64)
}

/// A path under `/admin` is reached only by a request whose claims hold the
/// infrastructure group (never by one without claims), and every other path is reached
/// by anyone.
pub proof fn lemma_admin_paths_need_group(claims: Option<KeycloakClaims>, path: Seq<char>)
    ensures
        admin_prefix().is_prefix_of(path) ==> (spec_admin_allowed(claims, path) <==> (claims is Some
            && has_group(claims->Some_0.groups@, admin_group()))),
        !admin_prefix().is_prefix_of(path) ==> spec_admin_allowed(claims, path),
{
}

/// A group is found wherever it stands in the list: if the entry at any position `i`
/// is `group`, the list has the group; and a list none of whose entries is `group`
/// does not.
pub proof fn lemma_group_found_at_any_position(groups: Seq<String>, group: Seq<char>, i: int)
    ensures
        0 <= i < groups.len() && groups[i]@ == group ==> has_group(groups, group),
        (forall|j: int| 0 <= j < groups.len() ==> (#[trigger] groups[j])@ != group) ==> !has_group(
            groups,
            group,
        ),
{
}

/// Whoever holds `/TI/Infraestrutura` at any position of its group list reaches every
/// path, `/admin` ones included (a one-group list of just that group among them); a
/// request for a path under `/admin` whose claims hold no such group, or that carries
/// no claims, is refused.
pub proof fn lemma_infrastructure_member_reaches_admin(claims: KeycloakClaims, path: Seq<char>, i: int)
    ensures
        0 <= i < claims.groups@.len() && claims.groups@[i]@ == "/TI/Infraestrutura"@
            ==> spec_admin_allowed(Some(claims), path),
        "/admin"@.is_prefix_of(path) && (forall|j: int|
            0 <= j < claims.groups@.len() ==> (#[trigger] claims.groups@[j])@ != "/TI/Infraestrutura"@)
            ==> !spec_admin_allowed(Some(claims), path),
        "/admin"@.is_prefix_of(path) ==> !spec_admin_allowed(None, path),
{
}

} // verus!
