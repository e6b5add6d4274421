use vstd::prelude::*;

use crate::store::{RoleDb, StoreError};
use crate::types::{GuildId, RoleKind};

verus! {

/// What a configuration update did to the store: left an equal entry
/// alone, set a fresh entry, or overwrote a different previous name.
#[derive(Clone, Debug)]
pub enum StoreChange {
    NoChange,
    Fresh,
    Replaced(String),
}

/// Updates the stored role name for a kind and guild. When the stored
/// entry already equals `name` nothing is written; otherwise the entry
/// is overwritten and the previous name, if any, is reported for
/// diffing. Either way the store maps the guild to `name` afterwards,
/// and the other kind's partition is untouched. Re-running with the
/// same name is therefore a no-op at the store layer.
pub fn apply_set_role(db: &mut RoleDb, kind: RoleKind, guild: GuildId, name: &str)
    -> (r: Result<StoreChange, StoreError>)
    ensures
        r is Ok ==> final(db).view_of(kind).contains_key(guild.0)
            && final(db).view_of(kind)[guild.0] == name@,
        r is Ok ==> forall|k: RoleKind| k != kind
            ==> final(db).view_of(k) == old(db).view_of(k),
        r matches Ok(c) ==> match c {
            StoreChange::NoChange => old(db).view_of(kind).contains_key(guild.0)
                && old(db).view_of(kind)[guild.0] == name@
                && *final(db) == *old(db),
            StoreChange::Fresh => !old(db).view_of(kind).contains_key(guild.0),
            StoreChange::Replaced(prev) => old(db).view_of(kind).contains_key(guild.0)
                && prev@ == old(db).view_of(kind)[guild.0]
                && prev@ != name@,
        },
{
    let stored = match db.get(kind, guild) {
        Ok(s) => s,
        Err(e) => { return Err(e); },
    };
    if let Some(stored_name) = stored {
        let wanted: String = name.to_owned();
        if stored_name == wanted {
            return Ok(StoreChange::NoChange);
        }
    }
    match db.insert(kind, guild, name) {
        Ok(Some(prev)) => Ok(StoreChange::Replaced(prev)),
        Ok(None) => Ok(StoreChange::Fresh),
        Err(e) => Err(e),
    }
}

/// The report line for what the store update did.
pub open spec fn store_change_message_spec(kind: RoleKind, name: Seq<char>, change: StoreChange) -> Seq<char> {
    match change {
        StoreChange::NoChange => kind.label_spec() + " role is already set to "@ + name
            + "; no change made."@,
        StoreChange::Fresh => kind.label_spec() + " role was set to "@ + name + "."@,
        StoreChange::Replaced(prev) => kind.label_spec() + " role was changed from "@
            + prev@ + " to "@ + name + "."@,
    }
}

pub fn store_change_message(kind: RoleKind, name: &str, change: &StoreChange) -> (r: String)
    ensures
        r@ == store_change_message_spec(kind, name@, *change),
{
    match change {
        StoreChange::NoChange => String::from_str(kind.label())
            .concat(" role is already set to ")
            .concat(name)
            .concat("; no change made."),
        StoreChange::Fresh => String::from_str(kind.label())
            .concat(" role was set to ")
            .concat(name)
            .concat("."),
        StoreChange::Replaced(prev) => String::from_str(kind.label())
            .concat(" role was changed from ")
            .concat(prev.as_str())
            .concat(" to ")
            .concat(name)
            .concat("."),
    }
}

/// The report line for the live-role reconciliation step: whether a
/// same-named server role was reused or a new one had to be created.
pub open spec fn role_set_message_spec(name: Seq<char>, created: bool) -> Seq<char> {
    if created {
        "Created new server role "@ + name + "."@
    } else {
        "Using existing server role "@ + name + "."@
    }
}

pub fn role_set_message(name: &str, created: bool) -> (r: String)
    ensures
        r@ == role_set_message_spec(name@, created),
{
    if created {
        String::from_str("Created new server role ").concat(name).concat(".")
    } else {
        String::from_str("Using existing server role ").concat(name).concat(".")
    }
}

/// The combined report for one kind: the store line, then the
/// reconciliation line.
pub fn compose_report(db_msg: &str, role_msg: &str) -> (r: String)
    ensures
        r@ == db_msg@ + "\n"@ + role_msg@,
{
    String::from_str(db_msg).concat("\n").concat(role_msg)
}

/// Law: setting the same name twice in succession reports a change
/// only once. After a first `set` of `name` for a guild with no prior
/// entry, the store maps the guild to exactly `name` — which is the
/// condition under which `apply_set_role` reports no change and
/// writes nothing on its second run.
pub proof fn lemma_set_twice_no_change(pre: RoleDb, mid: RoleDb, kind: RoleKind, guild: GuildId, name: Seq<char>)
    requires
        !pre.view_of(kind).contains_key(guild.0),
        mid.view_of(kind) == pre.view_of(kind).insert(guild.0, name),
    ensures
        mid.view_of(kind).contains_key(guild.0),
        mid.view_of(kind)[guild.0] == name,
{
}

} // verus!
