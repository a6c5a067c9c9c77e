use vstd::prelude::*;
use crate::capability::Capability;

verus! {

/// The capabilities granted to one session. It has no mutating method:
/// once built, a session's grants never change.
#[derive(Clone, Copy, Debug, PartialEq, Eq, Structural)]
pub struct PermissionSet {
    fs_read: bool,
    fs_write: bool,
    network: bool,
}

impl View for PermissionSet {
    type V = Set<Capability>;

    open spec fn view(&self) -> Set<Capability> {
        Set::new(|c: Capability| self.spec_is_granted(c))
    }
}

impl PermissionSet {
    pub closed spec fn spec_is_granted(&self, c: Capability) -> bool {
        match c {
            Capability::FilesystemRead => self.fs_read,
            Capability::FilesystemWrite => self.fs_write,
            Capability::Network => self.network,
        }
    }

    /// Builds the set from one explicit flag per capability.
    pub fn new(fs_read: bool, fs_write: bool, network: bool) -> (r: Self)
        ensures
            r.spec_is_granted(Capability::FilesystemRead) == fs_read,
            r.spec_is_granted(Capability::FilesystemWrite) == fs_write,
            r.spec_is_granted(Capability::Network) == network,
    {
        PermissionSet { fs_read, fs_write, network }
    }

    /// The set that grants nothing.
    pub fn none() -> (r: Self)
        ensures
            forall|c: Capability| !r.spec_is_granted(c),
            r@ == Set::<Capability>::empty(),
    {
        let r = PermissionSet { fs_read: false, fs_write: false, network: false };
        assert(r@ =~= Set::<Capability>::empty());
        r
    }

    /// Whether `c` was granted.
    pub fn is_granted(&self, c: Capability) -> (r: bool)
        ensures
            r == self.spec_is_granted(c),
            r == self@.contains(c),
    {
        match c {
            Capability::FilesystemRead => self.fs_read,
            Capability::FilesystemWrite => self.fs_write,
            Capability::Network => self.network,
        }
    }
}

} // verus!
