//! The domains in which the system looks for a directory.

use vstd::prelude::*;

verus! {

/// Where to look for a directory. Most callers want `UserDomain`.
#[derive(Clone, Copy, Debug, PartialEq, Eq, Structural)]
pub enum SearchPathDomainMask {
    /// The user's own directories, below the home directory.
    UserDomain,
    /// Directories shared by all users of this machine, typically below `/Library`.
    LocalDomain,
    /// Directories published on the local network.
    NetworkDomain,
    /// Read-only directories of the system itself, below `/System`.
    SystemDomain,
    /// Every domain, including those that the system may add later.
    AllDomains,
}

impl SearchPathDomainMask {
    /// The bit mask by which the system knows this domain. The masks are the
    /// system's, not ours: none may ever change.
    pub open spec fn spec_raw_value(self) -> u64 {
        match self {
            SearchPathDomainMask::UserDomain => 1,
            SearchPathDomainMask::LocalDomain => 2,
            SearchPathDomainMask::NetworkDomain => 4,
            SearchPathDomainMask::SystemDomain => 8,
            SearchPathDomainMask::AllDomains => 65535,
        }
    }

    /// The bit mask by which the system knows this domain.
    #[verifier::when_used_as_spec(spec_raw_value)]
    pub fn raw_value(self) -> (mask: u64)
        ensures
            mask == self.spec_raw_value(),
    {
        match self {
            SearchPathDomainMask::UserDomain => 1,
            SearchPathDomainMask::LocalDomain => 2,
            SearchPathDomainMask::NetworkDomain => 4,
            SearchPathDomainMask::SystemDomain => 8,
            SearchPathDomainMask::AllDomains => 65535,
        }
    }

    /// Whether this domain names one place to look in, and not all of them.
    pub open spec fn is_single(self) -> bool {
        self != SearchPathDomainMask::AllDomains
    }
}

/// No two domains share a mask.
pub proof fn lemma_domain_masks_distinct(a: SearchPathDomainMask, b: SearchPathDomainMask)
    requires
        a.raw_value() == b.raw_value(),
    ensures
        a == b,
{
}

/// Two different single domains have no bit in common, so a mask made of
/// several of them still tells which ones were meant.
pub proof fn lemma_single_domains_disjoint(a: SearchPathDomainMask, b: SearchPathDomainMask)
    requires
        a.is_single(),
        b.is_single(),
        a != b,
    ensures
        a.raw_value() & b.raw_value() == 0,
{
    assert(1u64 & 2u64 == 0 && 1u64 & 4u64 == 0 && 1u64 & 8u64 == 0 && 2u64 & 4u64 == 0 && 2u64
        & 8u64 == 0 && 4u64 & 8u64 == 0) by (bit_vector);
    assert(2u64 & 1u64 == 0 && 4u64 & 1u64 == 0 && 8u64 & 1u64 == 0 && 4u64 & 2u64 == 0 && 8u64
        & 2u64 == 0 && 8u64 & 4u64 == 0) by (bit_vector);
}

/// `AllDomains` leaves no domain out: every domain's bits are among its bits.
pub proof fn lemma_all_domains_covers(domain: SearchPathDomainMask)
    ensures
        domain.raw_value() & SearchPathDomainMask::AllDomains.raw_value() == domain.raw_value(),
{
    assert(1u64 & 65535u64 == 1 && 2u64 & 65535u64 == 2 && 4u64 & 65535u64 == 4 && 8u64
        & 65535u64 == 8 && 65535u64 & 65535u64 == 65535) by (bit_vector);
}

} // verus!
