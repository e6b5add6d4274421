use renamer::gate::{gate_reply, resolve, GateOutcome};
use renamer::resolver::find_role_by_name;
use renamer::store::RoleDb;
use renamer::types::{GuildId, LiveRole, RoleId, RoleKind};

fn role(id: u64, name: &str) -> LiveRole {
    LiveRole {
        id: RoleId(id),
        name: String::from(name),
    }
}

#[test]
fn unconfigured_guild_resolves_to_not_configured() {
    let db = RoleDb::open_temporary().unwrap();
    let roles = vec![role(1, "Mods")];
    let outcome = resolve(&db, RoleKind::Renamer, GuildId(1), &roles).unwrap();
    assert_eq!(outcome, GateOutcome::NotConfigured);
    let reply = gate_reply(RoleKind::Renamer, &outcome).unwrap();
    assert!(reply.ephemeral);
    assert_eq!(
        reply.text,
        "Renamer role not known for this server. \
         Have an admin set up the app with /renamer admin set_roles."
    );
}

#[test]
fn stored_name_without_live_role_is_role_missing() {
    let mut db = RoleDb::open_temporary().unwrap();
    db.insert(RoleKind::Allow, GuildId(1), "OptIn").unwrap();
    let roles = vec![role(1, "Mods"), role(2, "Admins")];
    let outcome = resolve(&db, RoleKind::Allow, GuildId(1), &roles).unwrap();
    assert_eq!(outcome, GateOutcome::RoleMissing);
    let reply = gate_reply(RoleKind::Allow, &outcome).unwrap();
    assert!(reply.ephemeral);
    assert_eq!(
        reply.text,
        "Allow role does not exist in this server. \
         Have an admin set up the app with /renamer admin set_roles."
    );
}

#[test]
fn stored_name_with_live_role_resolves_to_its_id() {
    let mut db = RoleDb::open_temporary().unwrap();
    db.insert(RoleKind::Renamer, GuildId(1), "Mods").unwrap();
    let roles = vec![role(10, "Admins"), role(20, "Mods"), role(30, "Mods")];
    let outcome = resolve(&db, RoleKind::Renamer, GuildId(1), &roles).unwrap();
    assert_eq!(outcome, GateOutcome::Resolved(RoleId(20)));
    assert!(gate_reply(RoleKind::Renamer, &outcome).is_none());
}

#[test]
fn lookup_is_case_sensitive_and_exact() {
    let roles = vec![role(1, "mods"), role(2, "Mods "), role(3, "Mods")];
    assert_eq!(find_role_by_name(&roles, "Mods"), Some(RoleId(3)));
    assert_eq!(find_role_by_name(&roles, "MODS"), None);
}

#[test]
fn ensure_twice_reuses_the_created_role() {
    let mut roles = vec![role(1, "Admins")];
    // First ensure: no live role named "Mods", so one is created.
    assert_eq!(find_role_by_name(&roles, "Mods"), None);
    roles.push(role(50, "Mods"));
    let first = find_role_by_name(&roles, "Mods");
    assert_eq!(first, Some(RoleId(50)));
    // Second ensure with the same name: finds the same role, creates nothing.
    let second = find_role_by_name(&roles, "Mods");
    assert_eq!(second, Some(RoleId(50)));
    assert_eq!(roles.len(), 2);
}
