use vstd::prelude::*;

use crate::resolver::{find_role_by_name, find_spec};
use crate::store::{RoleDb, StoreError};
use crate::types::{GuildId, LiveRole, Reply, RoleId, RoleKind};

verus! {

/// The three terminal outcomes of an authorization check, in the order
/// they are ruled out: no stored entry, a stored name without a live
/// role, or a usable live role id.
#[derive(Clone, Copy, PartialEq, Eq, Structural, Debug)]
pub enum GateOutcome {
    NotConfigured,
    RoleMissing,
    Resolved(RoleId),
}

/// Checks whether the given kind of role is set up for the guild:
/// reads the stored name and resolves it against the guild's live role
/// list. A role id is returned exactly when an entry is stored and a
/// live role carries the stored name; the id is always the first
/// matching live role's, never an invented one.
pub fn resolve(db: &RoleDb, kind: RoleKind, guild: GuildId, roles: &Vec<LiveRole>)
    -> (r: Result<GateOutcome, StoreError>)
    ensures
        r matches Ok(o) ==> match o {
            GateOutcome::NotConfigured => !db.view_of(kind).contains_key(guild.0),
            GateOutcome::RoleMissing => db.view_of(kind).contains_key(guild.0)
                && find_spec(roles@, db.view_of(kind)[guild.0]) is None,
            GateOutcome::Resolved(id) => db.view_of(kind).contains_key(guild.0)
                && find_spec(roles@, db.view_of(kind)[guild.0]) == Some(id),
        },
{
    let stored = match db.get(kind, guild) {
        Ok(s) => s,
        Err(e) => { return Err(e); },
    };
    match stored {
        None => Ok(GateOutcome::NotConfigured),
        Some(name) => match find_role_by_name(roles, name.as_str()) {
            None => Ok(GateOutcome::RoleMissing),
            Some(id) => Ok(GateOutcome::Resolved(id)),
        },
    }
}

/// The text of the diagnostic for an outcome that yields no usable
/// role: which situation was hit, and the administrative command that
/// repairs it.
pub open spec fn gate_diagnostic_spec(kind: RoleKind, outcome: GateOutcome) -> Seq<char> {
    match outcome {
        GateOutcome::NotConfigured => kind.label_spec()
            + " role not known for this server"@
            + ". Have an admin set up the app with /renamer admin set_roles."@,
        GateOutcome::RoleMissing => kind.label_spec()
            + " role does not exist in this server"@
            + ". Have an admin set up the app with /renamer admin set_roles."@,
        GateOutcome::Resolved(_) => Seq::empty(),
    }
}

/// Law: the two failure outcomes collapse into one caller-facing
/// contract but keep distinguishable user-facing text — the
/// diagnostic for a missing entry never equals the one for a stored
/// name whose live role is gone, whichever kind is checked.
pub proof fn lemma_diagnostics_distinct(kind: RoleKind)
    ensures
        gate_diagnostic_spec(kind, GateOutcome::NotConfigured)
            != gate_diagnostic_spec(kind, GateOutcome::RoleMissing),
{
    reveal_strlit(" role not known for this server");
    reveal_strlit(" role does not exist in this server");
    assert(gate_diagnostic_spec(kind, GateOutcome::NotConfigured).len()
        != gate_diagnostic_spec(kind, GateOutcome::RoleMissing).len());
}

/// The reply owed for a gate outcome: none when a role was resolved,
/// otherwise an ephemeral diagnostic telling the invoker how the
/// mapping can be repaired. Callers that get `None` proceed; callers
/// that get a reply deliver it and stop.
pub fn gate_reply(kind: RoleKind, outcome: &GateOutcome) -> (r: Option<Reply>)
    ensures
        r is None <==> outcome is Resolved,
        r matches Some(rep) ==> rep.ephemeral
            && rep.text@ == gate_diagnostic_spec(kind, *outcome),
{
    let cause: &'static str = match outcome {
        GateOutcome::NotConfigured => " role not known for this server",
        GateOutcome::RoleMissing => " role does not exist in this server",
        GateOutcome::Resolved(_) => { return None; },
    };
    let text = String::from_str(kind.label())
        .concat(cause)
        .concat(". Have an admin set up the app with /renamer admin set_roles.");
    Some(Reply { text, ephemeral: true })
}

} // verus!
