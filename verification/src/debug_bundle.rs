//! Debug bundles: results of the diagnostic tasks that a bundle collects, and the names of the
//! directories they are collected in.

pub mod command;
pub mod populate_tasks;
pub mod task;

use rand::distributions::Alphanumeric;
use rand::Rng;
use vstd::prelude::*;

verus! {

/// How the names of debug bundle directories begin.
pub const DIR_PREFIX: &'static str = "obscura-debug-bundle-";

/// How many random characters follow `DIR_PREFIX` in a temporary bundle directory's name.
pub const RANDOM_NAME_LEN: usize = 24;

/// An ASCII letter or digit.
pub open spec fn is_ascii_alphanumeric(c: char) -> bool {
    ('0' <= c && c <= '9') || ('a' <= c && c <= 'z') || ('A' <= c && c <= 'Z')
}

/// A temporary bundle directory's name: the prefix, then `RANDOM_NAME_LEN` letters and digits.
pub open spec fn is_temp_bundle_dir_name(name: Seq<char>) -> bool {
    &&& name.len() == DIR_PREFIX@.len() + RANDOM_NAME_LEN
    &&& name.subrange(0, DIR_PREFIX@.len() as int) == DIR_PREFIX@
    &&& forall|i: int| DIR_PREFIX@.len() <= i < name.len() ==> is_ascii_alphanumeric(#[trigger] name[i])
}

/// `len` characters drawn by `rand`'s thread-local generator from its `Alphanumeric`
/// distribution, which the crate documents as uniform over `a-z`, `A-Z` and `0-9`. Which
/// characters come out is left open.
#[verifier::external_body]
fn random_alphanumeric(len: usize) -> (r: String)
    ensures
        r@.len() == len,
        forall|i: int| 0 <= i < len ==> is_ascii_alphanumeric(#[trigger] r@[i]),
{
    rand::thread_rng().sample_iter(&Alphanumeric).take(len).map(char::from).collect()
}

/// A fresh name for a temporary bundle directory, random after the prefix so that bundles made
/// at the same time do not collide.
pub fn temp_bundle_dir_name() -> (r: String)
    ensures
        is_temp_bundle_dir_name(r@),
{
    let suffix = random_alphanumeric(RANDOM_NAME_LEN);
    let mut name = String::from_str(DIR_PREFIX);
    name.append(suffix.as_str());
    proof {
        reveal_strlit("obscura-debug-bundle-");
        assert(name@.subrange(0, DIR_PREFIX@.len() as int) =~= DIR_PREFIX@);
        assert forall|i: int| DIR_PREFIX@.len() <= i < name@.len() implies is_ascii_alphanumeric(
            #[trigger] name@[i],
        ) by {
            assert(name@[i] == suffix@[i - DIR_PREFIX@.len()]);
        }
    }
    name
}

/// What a directory entry of a bundle is.
#[derive(Debug, Clone, Copy, PartialEq, Eq, Structural)]
pub enum EntryKind {
    Dir,
    File,
    /// A symlink or a special file: left as it is.
    Other,
}

/// What to do to a bundle entry when widening its permissions.
#[derive(Debug, Clone, Copy, PartialEq, Eq, Structural)]
pub struct EntryPermissions {
    /// The Unix mode to set.
    pub mode: u32,
    /// Whether to go on into the entry, a directory.
    pub descend: bool,
    /// Whether to give the entry to the user who asked for the bundle.
    pub give_to_peer: bool,
}

/// The mode of a daemon bundle's own directory, readable by the group that may read bundles.
pub const GROUP_READABLE_DIR_MODE: u32 = 0o750;

/// The mode of the files in a daemon bundle.
pub const GROUP_READABLE_FILE_MODE: u32 = 0o640;

/// The mode of a service bundle's directories, handed to the user who asked for it.
pub const USER_READABLE_DIR_MODE: u32 = 0o755;

/// The mode of the files of a service bundle, owned by the user who asked for it.
pub const USER_READABLE_FILE_MODE: u32 = 0o400;

/// What to do to an entry of kind `kind` to make a daemon bundle readable by its group:
/// directories become `GROUP_READABLE_DIR_MODE` and are visited, files `GROUP_READABLE_FILE_MODE`,
/// anything else is skipped.
pub fn group_readable_entry(kind: EntryKind) -> (r: Option<EntryPermissions>)
    ensures
        kind == EntryKind::Dir ==> r == Some(
            EntryPermissions { mode: GROUP_READABLE_DIR_MODE, descend: true, give_to_peer: false },
        ),
        kind == EntryKind::File ==> r == Some(
            EntryPermissions { mode: GROUP_READABLE_FILE_MODE, descend: false, give_to_peer: false },
        ),
        kind == EntryKind::Other ==> r is None,
{
    match kind {
        EntryKind::Dir => Some(EntryPermissions { mode: GROUP_READABLE_DIR_MODE, descend: true, give_to_peer: false }),
        EntryKind::File => Some(EntryPermissions { mode: GROUP_READABLE_FILE_MODE, descend: false, give_to_peer: false }),
        EntryKind::Other => None,
    }
}

/// What to do to an entry of kind `kind` to hand a service bundle to the user who asked for it:
/// directories become `USER_READABLE_DIR_MODE` and are visited, files `USER_READABLE_FILE_MODE`
/// and are given to that user, anything else is skipped.
pub fn user_readable_entry(kind: EntryKind) -> (r: Option<EntryPermissions>)
    ensures
        kind == EntryKind::Dir ==> r == Some(
            EntryPermissions { mode: USER_READABLE_DIR_MODE, descend: true, give_to_peer: false },
        ),
        kind == EntryKind::File ==> r == Some(
            EntryPermissions { mode: USER_READABLE_FILE_MODE, descend: false, give_to_peer: true },
        ),
        kind == EntryKind::Other ==> r is None,
{
    match kind {
        EntryKind::Dir => Some(EntryPermissions { mode: USER_READABLE_DIR_MODE, descend: true, give_to_peer: false }),
        EntryKind::File => Some(EntryPermissions { mode: USER_READABLE_FILE_MODE, descend: false, give_to_peer: true }),
        EntryKind::Other => None,
    }
}

/// Refuses a fetch that is to use the backend's known addresses when none are known; a fetch that
/// resolves its host, or has addresses, may go on.
pub fn check_known_addresses<A>(addrs: &Option<Vec<A>>) -> (r: Result<(), &'static str>)
    ensures
        r is Err <==> (addrs matches Some(v) && v@.len() == 0),
        r matches Err(e) ==> e@ == "no known addresses"@,
{
    match addrs {
        Some(v) => if v.len() == 0 {
            Err("no known addresses")
        } else {
            Ok(())
        },
        None => Ok(()),
    }
}

} // verus!
