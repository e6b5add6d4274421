use vstd::prelude::*;

use crate::types::{GuildId, RoleKind};

verus! {

/// Failure of the configuration store. `Storage` is an I/O failure of
/// the underlying tree; `Encoding` means a stored value could not be
/// read back as text.
#[derive(Clone, Copy, PartialEq, Eq, Structural, Debug)]
pub enum StoreError {
    Storage,
    Encoding,
}

/// One durable key-value partition: guild id to configured role name.
/// The contents live in a sled tree on disk; this struct is the only
/// handle to them.
#[verifier::external_body]
pub struct Partition {
    db: sled::Db,
}

/// What a partition currently holds: guild id to the stored role name.
pub uninterp spec fn partition_view(p: Partition) -> Map<u64, Seq<char>>;

/// The contents of a partition that holds nothing yet.
pub open spec fn empty_view() -> Map<u64, Seq<char>> {
    Map::empty()
}

impl Partition {
    /// Relies on sled::Config::open with `temporary`: the database is
    /// created fresh at a generated path, starts empty, and is removed
    /// when the handle is dropped.
    #[verifier::external_body]
    pub(crate) fn open_temporary() -> (r: Result<Partition, StoreError>)
        ensures
            r is Ok ==> partition_view(r->Ok_0) == empty_view(),
    {
        match sled::Config::new().temporary(true).open() {
            Ok(db) => Ok(Partition { db }),
            Err(_) => Err(StoreError::Storage),
        }
    }

    /// Relies on sled::open: opens the tree stored at `path`, creating
    /// it if absent. What it holds is whatever earlier runs persisted,
    /// so nothing is promised of the contents.
    #[verifier::external_body]
    pub(crate) fn open(path: &str) -> (r: Result<Partition, StoreError>)
    {
        match sled::open(path) {
            Ok(db) => Ok(Partition { db }),
            Err(_) => Err(StoreError::Storage),
        }
    }

    /// Relies on sled::Tree::get: returns the value stored under the
    /// key, or `None` if the key was never set.
    #[verifier::external_body]
    pub(crate) fn get(&self, key: u64) -> (r: Result<Option<String>, StoreError>)
        ensures
            r matches Ok(Some(s)) ==> partition_view(*self).contains_key(key)
                && s@ == partition_view(*self)[key],
            r matches Ok(None) ==> !partition_view(*self).contains_key(key),
    {
        match self.db.get(key.to_be_bytes()) {
            Ok(Some(v)) => match String::from_utf8(v.to_vec()) {
                Ok(s) => Ok(Some(s)),
                Err(_) => Err(StoreError::Encoding),
            },
            Ok(None) => Ok(None),
            Err(_) => Err(StoreError::Storage),
        }
    }

    /// Relies on sled::Tree::insert: stores the value under the key and
    /// returns the value previously stored there, if any.
    #[verifier::external_body]
    pub(crate) fn insert(&mut self, key: u64, value: &str) -> (r: Result<Option<String>, StoreError>)
        ensures
            r is Ok ==> partition_view(*final(self))
                == partition_view(*old(self)).insert(key, value@),
            r matches Ok(Some(s)) ==> partition_view(*old(self)).contains_key(key)
                && s@ == partition_view(*old(self))[key],
            r matches Ok(None) ==> !partition_view(*old(self)).contains_key(key),
    {
        match self.db.insert(key.to_be_bytes(), value.as_bytes()) {
            Ok(Some(v)) => match String::from_utf8(v.to_vec()) {
                Ok(s) => Ok(Some(s)),
                Err(_) => Err(StoreError::Encoding),
            },
            Ok(None) => Ok(None),
            Err(_) => Err(StoreError::Storage),
        }
    }
}

/// The configuration store: one partition per role kind, so that the
/// `Renamer` and `Allow` mappings for the same guild never collide.
pub struct RoleDb {
    renamer_roles: Partition,
    allow_roles: Partition,
}

impl RoleDb {
    /// What the store maps each guild to, for the given kind.
    pub closed spec fn view_of(self, kind: RoleKind) -> Map<u64, Seq<char>> {
        match kind {
            RoleKind::Renamer => partition_view(self.renamer_roles),
            RoleKind::Allow => partition_view(self.allow_roles),
        }
    }

    /// A store whose partitions start empty and vanish when dropped.
    pub fn open_temporary() -> (r: Result<RoleDb, StoreError>)
        ensures
            r matches Ok(db) ==> forall|k: RoleKind| db.view_of(k) == empty_view(),
    {
        let renamer_roles = match Partition::open_temporary() {
            Ok(p) => p,
            Err(e) => { return Err(e); },
        };
        let allow_roles = match Partition::open_temporary() {
            Ok(p) => p,
            Err(e) => { return Err(e); },
        };
        Ok(RoleDb { renamer_roles, allow_roles })
    }

    /// A store persisted on disk, one directory per partition. The
    /// contents are whatever earlier runs left there.
    pub fn open(renamer_path: &str, allow_path: &str) -> (r: Result<RoleDb, StoreError>)
    {
        let renamer_roles = match Partition::open(renamer_path) {
            Ok(p) => p,
            Err(e) => { return Err(e); },
        };
        let allow_roles = match Partition::open(allow_path) {
            Ok(p) => p,
            Err(e) => { return Err(e); },
        };
        Ok(RoleDb { renamer_roles, allow_roles })
    }

    /// The role name configured for this kind and guild, if any.
    pub fn get(&self, kind: RoleKind, guild: GuildId) -> (r: Result<Option<String>, StoreError>)
        ensures
            r matches Ok(Some(s)) ==> self.view_of(kind).contains_key(guild.0)
                && s@ == self.view_of(kind)[guild.0],
            r matches Ok(None) ==> !self.view_of(kind).contains_key(guild.0),
    {
        match kind {
            RoleKind::Renamer => self.renamer_roles.get(guild.0),
            RoleKind::Allow => self.allow_roles.get(guild.0),
        }
    }

    /// Overwrites the entry for this kind and guild and returns the
    /// previously stored name, if any; the other kind's partition is
    /// untouched.
    pub fn insert(&mut self, kind: RoleKind, guild: GuildId, value: &str)
        -> (r: Result<Option<String>, StoreError>)
        ensures
            r is Ok ==> final(self).view_of(kind)
                == old(self).view_of(kind).insert(guild.0, value@),
            r is Ok ==> forall|k: RoleKind| k != kind
                ==> final(self).view_of(k) == old(self).view_of(k),
            r matches Ok(Some(s)) ==> old(self).view_of(kind).contains_key(guild.0)
                && s@ == old(self).view_of(kind)[guild.0],
            r matches Ok(None) ==> !old(self).view_of(kind).contains_key(guild.0),
    {
        match kind {
            RoleKind::Renamer => self.renamer_roles.insert(guild.0, value),
            RoleKind::Allow => self.allow_roles.insert(guild.0, value),
        }
    }
}

/// Law: a `set` followed immediately by a `get` for the same kind and
/// guild returns the name just set. A successful `insert` leaves the
/// store mapping the guild to `name`, and `get`'s contract then forces
/// it to return exactly that name.
pub proof fn lemma_set_then_get(pre: RoleDb, post: RoleDb, kind: RoleKind, guild: GuildId, name: Seq<char>)
    requires
        post.view_of(kind) == pre.view_of(kind).insert(guild.0, name),
    ensures
        post.view_of(kind).contains_key(guild.0),
        post.view_of(kind)[guild.0] == name,
{
}

/// Law: with no prior `set` for a kind and guild there is no entry, so
/// `get` must return absent, and an authorization check must report
/// the not-configured outcome.
pub proof fn lemma_fresh_store_unconfigured(db: RoleDb, kind: RoleKind, guild: GuildId)
    requires
        db.view_of(kind) == empty_view(),
    ensures
        !db.view_of(kind).contains_key(guild.0),
{
}

} // verus!
