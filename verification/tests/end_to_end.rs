use renamer::actions::{plan_rename, rename_precheck};
use renamer::config::{apply_set_role, compose_report, role_set_message, store_change_message};
use renamer::gate::{gate_reply, resolve, GateOutcome};
use renamer::resolver::find_role_by_name;
use renamer::store::RoleDb;
use renamer::types::{GuildId, LiveRole, RoleId, RoleKind};

/// An administrator sets the `Renamer` role to "Mods" in a guild where
/// no such role exists yet; a member holding "Mods" renames a unique
/// target; a member without "Mods" is denied.
#[test]
fn configure_then_rename_then_deny() {
    let guild = GuildId(77);
    let mut db = RoleDb::open_temporary().unwrap();
    // The guild's live roles before configuration: no "Mods" yet.
    let mut live_roles = vec![LiveRole {
        id: RoleId(1),
        name: String::from("Admins"),
    }];

    // Administrative configuration: store update, then reconciliation.
    let change = apply_set_role(&mut db, RoleKind::Renamer, guild, "Mods").unwrap();
    let db_msg = store_change_message(RoleKind::Renamer, "Mods", &change);
    assert_eq!(db_msg, "Renamer role was set to Mods.");
    let created = find_role_by_name(&live_roles, "Mods").is_none();
    assert!(created);
    // The directory creates the role and hands back its id.
    live_roles.push(LiveRole {
        id: RoleId(42),
        name: String::from("Mods"),
    });
    let role_msg = role_set_message("Mods", created);
    assert_eq!(role_msg, "Created new server role Mods.");
    assert_eq!(
        compose_report(&db_msg, &role_msg),
        "Renamer role was set to Mods.\nCreated new server role Mods."
    );

    // A member holding "Mods" renames a uniquely-matching target.
    let outcome = resolve(&db, RoleKind::Renamer, guild, &live_roles).unwrap();
    assert_eq!(outcome, GateOutcome::Resolved(RoleId(42)));
    assert!(gate_reply(RoleKind::Renamer, &outcome).is_none());
    let invoker_holds_mods = true;
    assert!(rename_precheck(invoker_holds_mods, "Al").is_none());
    let found = vec![String::from("Bob")];
    let plan = plan_rename("Carol", "bob", "Al", &found);
    assert!(plan.proceed);
    assert!(!plan.reply.ephemeral);
    assert_eq!(plan.reply.text, "Carol set Bob's nickname to Al.");

    // A member without "Mods" attempting the same is denied ephemerally
    // and nothing proceeds to mutation.
    let stranger_holds_mods = false;
    let denial = rename_precheck(stranger_holds_mods, "Al").unwrap();
    assert!(denial.ephemeral);
    assert_eq!(denial.text, "You do not have permission to use this command.");
}
