//! What the loader's open and lookup calls report, and what it means.
//!
//! The calls themselves reach the operating system and stand outside this
//! library; it receives their results as machine words and decides on them.
use vstd::prelude::*;

verus! {

/// The operating system's reference to a loaded module, as a machine word.
///
/// A `Handle` exists only for a reference that the open call reported as a
/// success, so it is never null. It has no `Clone` or `Copy`: each reference
/// has one owner, which hands it to the release call once.
pub struct Handle {
    raw: usize,
}

impl View for Handle {
    type V = usize;

    closed spec fn view(&self) -> usize {
        self.raw
    }
}

impl Handle {
    #[verifier::type_invariant]
    spec fn non_null(&self) -> bool {
        self.raw != 0
    }

    /// The handle for what the open call returned: `None` for a null result,
    /// which is how the call reports any failure.
    pub fn from_open_result(raw: usize) -> (r: Option<Handle>)
        ensures
            r is None <==> raw == 0,
            r matches Some(h) ==> h@ == raw,
    {
        if raw == 0 {
            None
        } else {
            Some(Handle { raw })
        }
    }

    /// The reference, to be handed to the lookup and release calls.
    pub fn raw(&self) -> (r: usize)
        ensures
            r == self@,
            r != 0,
    {
        proof {
            use_type_invariant(self);
        }
        self.raw
    }
}

/// The outcome of a symbol lookup on a system whose lookup call may return a
/// null address for a symbol that exists, and reports absence through its
/// error indicator instead: the address, unless an error was reported.
pub fn symbol_from_lookup(address: usize, error_reported: bool) -> (r: Option<usize>)
    ensures
        r == (if error_reported { None } else { Some(address) }),
{
    if error_reported {
        None
    } else {
        Some(address)
    }
}

/// The outcome of a symbol lookup on a system whose lookup call returns a
/// null address exactly when the symbol is absent.
pub fn symbol_if_present(address: usize) -> (r: Option<usize>)
    ensures
        r is None <==> address == 0,
        r matches Some(a) ==> a == address,
{
    if address == 0 {
        None
    } else {
        Some(address)
    }
}

} // verus!
