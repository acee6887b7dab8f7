//! The associated-session handle and its release discipline.
//!
//! A [`WifiHandle`] represents exclusive ownership of the radio in the
//! associated state. Its only operation is [`WifiHandle::release`]: the
//! first release deactivates the handle and tells the caller to disable
//! the radio now; every later release is a no-op. The caller must run
//! release on every exit path, so that failure or shutdown always
//! leaves the radio inert rather than half-associated.

use vstd::prelude::*;

verus! {

/// An IPv4 lease obtained after association, kept for diagnostics.
/// Addresses are big-endian packed octets; see [`pack_ipv4`].
#[derive(Clone, Copy, Debug, PartialEq, Eq, Structural)]
pub struct Ipv4Lease {
    /// The leased address.
    pub addr: u32,
    /// The gateway address.
    pub gateway: u32,
    /// The subnet mask length in bits.
    pub mask: u8,
}

/// Packs four address octets, most significant first, into one word.
pub fn pack_ipv4(a: u8, b: u8, c: u8, d: u8) -> (r: u32)
    ensures
        r == a * 0x1000000 + b * 0x10000 + c * 0x100 + d,
{
    (a as u32) * 0x1000000 + (b as u32) * 0x10000 + (c as u32) * 0x100 + (d as u32)
}

/// The release transition on the handle's activity flag: from activity
/// `active`, the handle always ends inactive, and the radio is to be
/// disabled exactly when the handle was still active.
pub open spec fn spec_release(active: bool) -> (bool, bool) {
    (false, active)
}

/// Release is idempotent: whatever state a handle starts in, a second
/// release finds it inactive, requests no second disable, and changes
/// nothing.
pub proof fn lemma_release_idempotent(active: bool)
    ensures
        !spec_release(spec_release(active).0).1,
        spec_release(spec_release(active).0).0 == spec_release(active).0,
{
}

/// The successfully associated session: created only when the full
/// association sequence reaches its terminal success state.
#[derive(Clone, Copy, Debug)]
pub struct WifiHandle {
    active: bool,
    lease: Ipv4Lease,
}

impl WifiHandle {
    /// Whether the handle still owns an active association.
    pub closed spec fn spec_active(&self) -> bool {
        self.active
    }

    /// The lease the association obtained.
    pub closed spec fn spec_lease(&self) -> Ipv4Lease {
        self.lease
    }

    /// Wraps a fresh association that obtained `lease`.
    pub(crate) fn acquire(lease: Ipv4Lease) -> (r: Self)
        ensures
            r.spec_active(),
            r.spec_lease() == lease,
    {
        Self { active: true, lease }
    }

    /// Whether the handle still owns an active association.
    pub fn is_active(&self) -> (r: bool)
        ensures
            r == self.spec_active(),
    {
        self.active
    }

    /// The lease the association obtained, for diagnostics.
    pub fn lease(&self) -> (r: Ipv4Lease)
        ensures
            r == self.spec_lease(),
    {
        self.lease
    }

    /// Releases the association. Returns whether the caller must
    /// disable the radio now: `true` on the first release of an active
    /// handle and `false` ever after, so the radio is disabled at most
    /// once however many times release runs.
    pub fn release(&mut self) -> (disable: bool)
        ensures
            (final(self).spec_active(), disable) == spec_release(old(self).spec_active()),
            final(self).spec_lease() == old(self).spec_lease(),
    {
        let was_active = self.active;
        self.active = false;
        was_active
    }
}

} // verus!
