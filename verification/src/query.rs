//! The question that a directory lookup puts to the system.

use vstd::prelude::*;
use crate::directory::{lemma_directory_numbers_distinct, SearchPathDirectory};
use crate::domain::{lemma_domain_masks_distinct, SearchPathDomainMask};

verus! {

/// What the system's directory service is handed for one lookup, in the
/// numbers that it understands.
#[derive(Clone, Copy, Debug, PartialEq, Eq, Structural)]
pub struct DirectoryQuery {
    /// The number of the directory asked for.
    pub directory: u64,
    /// The bit mask of the domain to look in.
    pub domain_mask: u64,
    /// Whether the service is to create the directory where it is missing.
    pub create: bool,
}

impl DirectoryQuery {
    /// The query for `directory` in `domain`.
    pub open spec fn spec_new(
        directory: SearchPathDirectory,
        domain: SearchPathDomainMask,
    ) -> DirectoryQuery {
        DirectoryQuery {
            directory: directory.raw_value(),
            domain_mask: domain.raw_value(),
            create: false,
        }
    }

    /// The query for `directory` in `domain`. It only looks: it never asks
    /// the service to create anything, so the path that comes back may name
    /// a directory that does not exist yet.
    #[verifier::when_used_as_spec(spec_new)]
    pub fn new(directory: SearchPathDirectory, domain: SearchPathDomainMask) -> (query:
        DirectoryQuery)
        ensures
            query == DirectoryQuery::spec_new(directory, domain),
            query.directory == directory.raw_value(),
            query.domain_mask == domain.raw_value(),
            !query.create,
    {
        DirectoryQuery {
            directory: directory.raw_value(),
            domain_mask: domain.raw_value(),
            create: false,
        }
    }
}

/// A query tells which lookup it stands for: two lookups that differ in the
/// directory or in the domain never put the same question.
pub proof fn lemma_query_names_its_lookup(
    directory: SearchPathDirectory,
    domain: SearchPathDomainMask,
    other_directory: SearchPathDirectory,
    other_domain: SearchPathDomainMask,
)
    requires
        DirectoryQuery::new(directory, domain) == DirectoryQuery::new(
            other_directory,
            other_domain,
        ),
    ensures
        directory == other_directory,
        domain == other_domain,
{
    lemma_directory_numbers_distinct(directory, other_directory);
    lemma_domain_masks_distinct(domain, other_domain);
}

} // verus!
