//! The capability plugins that the host registers before the commands become
//! reachable. They do not depend on one another, so the order of registration
//! carries no meaning.

use vstd::prelude::*;

verus! {

/// A capability granted to the user interface by a host plugin.
#[derive(Clone, Copy, Debug, PartialEq, Eq, Structural)]
pub enum Plugin {
    /// Opens links and files in the system's default handler.
    Opener,
    /// Runs shell commands.
    Shell,
    /// Reads and writes the filesystem.
    Fs,
    /// Shows native dialogs.
    Dialog,
}

/// Returns the plugins to register at startup: each one exactly once.
pub fn registered_plugins() -> (r: Vec<Plugin>)
    ensures
        forall|p: Plugin| r@.contains(p),
        r@.no_duplicates(),
        r@.len() == 4,
{
    let r = vec![Plugin::Opener, Plugin::Shell, Plugin::Fs, Plugin::Dialog];
    assert forall|p: Plugin| r@.contains(p) by {
        match p {
            Plugin::Opener => assert(r@[0] == p),
            Plugin::Shell => assert(r@[1] == p),
            Plugin::Fs => assert(r@[2] == p),
            Plugin::Dialog => assert(r@[3] == p),
        }
    }
    r
}

} // verus!
