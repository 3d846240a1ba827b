//! The well-known directories that the system can be asked for.

use vstd::prelude::*;

verus! {

/// A well-known directory. Where it lies depends on the domain it is looked
/// up in: `Library` is `/Library` for the machine and `~/Library` for the
/// user.
#[derive(Clone, Copy, Debug, PartialEq, Eq, Structural)]
pub enum SearchPathDirectory {
    /// Installed applications, typically `/Applications` or `~/Applications`.
    Application,
    /// Applications for administrators.
    AdminApplication,
    /// Support files and settings, `/Library` or `~/Library`.
    Library,
    /// The directory that holds the users' home directories, typically `/Users`.
    Users,
    /// Documentation.
    Documentation,
    /// The user's documents, typically `~/Documents`.
    Documents,
    /// Where documents that were saved automatically are kept.
    AutosavedInformation,
    /// The user's desktop, typically `~/Desktop`.
    Desktop,
    /// Data that can be thrown away and made again, `Library/Caches`.
    Caches,
    /// An application's own data and settings, `Library/Application Support`.
    ApplicationSupport,
    /// The user's downloads, typically `~/Downloads`.
    Downloads,
    /// The user's movies, typically `~/Movies`.
    Movies,
    /// The user's music, typically `~/Music`.
    Music,
    /// The user's pictures, typically `~/Pictures`.
    Pictures,
    /// Printer descriptions, `Library/Printers/PPDs`.
    PrinterDescription,
    /// What the user shares with others, typically `~/Public`.
    SharedPublic,
    /// Panes of the system's preferences, `Library/PreferencePanes`.
    PreferencePanes,
    /// Scripts of the calling application, below `~/Library/Application Scripts`.
    ApplicationScripts,
    /// The trash.
    Trash,
}

impl SearchPathDirectory {
    /// The number by which the system knows this directory. The numbers are
    /// the system's, not ours: they have gaps, and none may ever change.
    pub open spec fn spec_raw_value(self) -> u64 {
        match self {
            SearchPathDirectory::Application => 1,
            SearchPathDirectory::AdminApplication => 4,
            SearchPathDirectory::Library => 5,
            SearchPathDirectory::Users => 7,
            SearchPathDirectory::Documentation => 8,
            SearchPathDirectory::Documents => 9,
            SearchPathDirectory::AutosavedInformation => 11,
            SearchPathDirectory::Desktop => 12,
            SearchPathDirectory::Caches => 13,
            SearchPathDirectory::ApplicationSupport => 14,
            SearchPathDirectory::Downloads => 15,
            SearchPathDirectory::Movies => 17,
            SearchPathDirectory::Music => 18,
            SearchPathDirectory::Pictures => 19,
            SearchPathDirectory::PrinterDescription => 20,
            SearchPathDirectory::SharedPublic => 21,
            SearchPathDirectory::PreferencePanes => 22,
            SearchPathDirectory::ApplicationScripts => 23,
            SearchPathDirectory::Trash => 102,
        }
    }

    /// The number by which the system knows this directory.
    #[verifier::when_used_as_spec(spec_raw_value)]
    pub fn raw_value(self) -> (number: u64)
        ensures
            number == self.spec_raw_value(),
    {
        match self {
            SearchPathDirectory::Application => 1,
            SearchPathDirectory::AdminApplication => 4,
            SearchPathDirectory::Library => 5,
            SearchPathDirectory::Users => 7,
            SearchPathDirectory::Documentation => 8,
            SearchPathDirectory::Documents => 9,
            SearchPathDirectory::AutosavedInformation => 11,
            SearchPathDirectory::Desktop => 12,
            SearchPathDirectory::Caches => 13,
            SearchPathDirectory::ApplicationSupport => 14,
            SearchPathDirectory::Downloads => 15,
            SearchPathDirectory::Movies => 17,
            SearchPathDirectory::Music => 18,
            SearchPathDirectory::Pictures => 19,
            SearchPathDirectory::PrinterDescription => 20,
            SearchPathDirectory::SharedPublic => 21,
            SearchPathDirectory::PreferencePanes => 22,
            SearchPathDirectory::ApplicationScripts => 23,
            SearchPathDirectory::Trash => 102,
        }
    }
}

/// No two directories share a number: the number alone tells the system
/// which directory is meant.
pub proof fn lemma_directory_numbers_distinct(a: SearchPathDirectory, b: SearchPathDirectory)
    requires
        a.raw_value() == b.raw_value(),
    ensures
        a == b,
{
}

} // verus!
