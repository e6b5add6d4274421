use vstd::prelude::*;

verus! {

/// The logical purpose of a configured role: `Renamer` marks the members
/// allowed to rename others, `Allow` marks the members who have opted in
/// to being renamed. Each kind names its own storage partition.
#[derive(Clone, Copy, PartialEq, Eq, Structural, Debug)]
pub enum RoleKind {
    Renamer,
    Allow,
}

impl RoleKind {
    /// The label under which this kind appears in user-facing messages.
    pub open spec fn label_spec(self) -> Seq<char> {
        match self {
            RoleKind::Renamer => "Renamer"@,
            RoleKind::Allow => "Allow"@,
        }
    }

    pub fn label(&self) -> (r: &'static str)
        ensures
            r@ == self.label_spec(),
    {
        match self {
            RoleKind::Renamer => "Renamer",
            RoleKind::Allow => "Allow",
        }
    }
}

/// Opaque identifier of a guild (server); the partition key of all
/// per-guild configuration.
#[derive(Clone, Copy, PartialEq, Eq, Structural, Hash, Debug)]
pub struct GuildId(pub u64);

/// Opaque identifier of a role in the guild directory.
#[derive(Clone, Copy, PartialEq, Eq, Structural, Hash, Debug)]
pub struct RoleId(pub u64);

/// A role that currently exists in the guild directory: its identity and
/// its display name. The directory owns these; a snapshot of its role
/// list is passed in wherever a stored name must be resolved.
#[derive(Clone, Debug)]
pub struct LiveRole {
    pub id: RoleId,
    pub name: String,
}

/// A message addressed to the invoking user. An ephemeral reply is
/// visible to the invoker alone; a broadcast reply is visible to all.
#[derive(Clone, Debug)]
pub struct Reply {
    pub text: String,
    pub ephemeral: bool,
}

} // verus!
