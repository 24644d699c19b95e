//! The current host record.
//!
//! The console remembers which host served it, so the connect field can
//! offer that address as its default.  The record itself is this plain
//! cell; the lock that shares it between tasks, and the retries around a
//! contended lock, belong to the caller that owns the sharing.

use vstd::prelude::*;

verus! {

/// Holds the address text of the host currently in use.
pub struct HostCell {
    pub value: String,
}

impl HostCell {
    /// An empty record: no host known yet.
    pub fn new() -> (c: HostCell)
        ensures
            c.value@ == Seq::<char>::empty(),
    {
        HostCell { value: String::new() }
    }
}

/// Records `url` as the current address.
pub fn set_current_url(cell: &mut HostCell, url: String)
    ensures
        final(cell).value == url,
{
    cell.value = url;
}

/// Reads the current host's address back out.
pub fn get_current_host(cell: &HostCell) -> (r: String)
    ensures
        r@ == cell.value@,
{
    cell.value.clone()
}

/// The address a connect attempt should use: what the operator typed,
/// or, if they typed nothing, the recorded current host.
pub fn effective_address(address: String, fallback: String) -> (r: String)
    ensures
        address@.len() > 0 ==> r == address,
        address@.len() == 0 ==> r == fallback,
{
    if address.as_str().is_empty() {
        fallback
    } else {
        address
    }
}

} // verus!
