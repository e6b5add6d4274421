use vstd::prelude::*;

use crate::types::{LiveRole, RoleId};

verus! {

/// The first role in the list whose name is exactly `name`, if any.
/// Lookup is by name, case-sensitively, so that an administrator can
/// recreate a deleted role and have the stored configuration bind to
/// it again without being re-run.
pub open spec fn find_spec(roles: Seq<LiveRole>, name: Seq<char>) -> Option<RoleId>
    decreases roles.len(),
{
    if roles.len() == 0 {
        None
    } else if roles[0].name@ == name {
        Some(roles[0].id)
    } else {
        find_spec(roles.drop_first(), name)
    }
}

/// Returns the id of the first role in `roles` named exactly `name`,
/// or `None` if no live role carries that name.
pub fn find_role_by_name(roles: &Vec<LiveRole>, name: &str) -> (r: Option<RoleId>)
    ensures
        r == find_spec(roles@, name@),
{
    let wanted: String = name.to_owned();
    let n = roles.len();
    let mut i: usize = 0;
    proof {
        assert(roles@.skip(0) =~= roles@);
    }
    while i < n
        invariant
            n == roles.len(),
            i <= n,
            wanted@ == name@,
            find_spec(roles@, name@) == find_spec(roles@.skip(i as int), name@),
        decreases n - i,
    {
        proof {
            assert(roles@.skip(i as int)[0] == roles@[i as int]);
            assert(roles@.skip(i as int).drop_first() =~= roles@.skip(i + 1));
        }
        if roles[i].name == wanted {
            return Some(roles[i].id);
        }
        i += 1;
    }
    None
}

/// Ensuring a role is idempotent: when no live role matches `name` and
/// one is therefore created with exactly that name, every later lookup
/// for `name` over the extended role list finds the created role, so a
/// second `ensure` with the same name returns the same role id and
/// creates nothing further.
pub proof fn lemma_ensure_idempotent(roles: Seq<LiveRole>, name: Seq<char>, created: LiveRole)
    requires
        find_spec(roles, name) is None,
        created.name@ == name,
    ensures
        find_spec(roles.push(created), name) == Some(created.id),
    decreases roles.len(),
{
    if roles.len() == 0 {
        assert(roles.push(created)[0] == created);
    } else {
        assert(roles.push(created).drop_first() =~= roles.drop_first().push(created));
        lemma_ensure_idempotent(roles.drop_first(), name, created);
    }
}

} // verus!
