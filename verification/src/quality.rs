//! The release channels for which a build can embed metadata.

use vstd::prelude::*;
use crate::text::str_eq;

verus! {

/// A release channel. The set is closed: tables are keyed by these three
/// and by nothing else.
#[derive(Clone, Copy, Debug, PartialEq, Eq, Hash, Structural)]
pub enum Quality {
    Stable,
    Insiders,
    Exploration,
}

/// The spelling under which a channel appears as a key of an embedded table.
pub open spec fn quality_name(quality: Quality) -> Seq<char> {
    match quality {
        Quality::Stable => "stable"@,
        Quality::Insiders => "insiders"@,
        Quality::Exploration => "exploration"@,
    }
}

/// The channel that a key names, if it names one.
pub open spec fn quality_of_name(name: Seq<char>) -> Option<Quality> {
    if name == "stable"@ {
        Some(Quality::Stable)
    } else if name == "insiders"@ {
        Some(Quality::Insiders)
    } else if name == "exploration"@ {
        Some(Quality::Exploration)
    } else {
        None
    }
}

/// Every channel is found again under its own name, and a name belongs to
/// one channel only.
pub proof fn lemma_quality_names(quality: Quality)
    ensures
        quality_of_name(quality_name(quality)) == Some(quality),
        forall|name: Seq<char>|
            quality_of_name(name) == Some(quality) ==> name == quality_name(quality),
{
    reveal_strlit("stable");
    reveal_strlit("insiders");
    reveal_strlit("exploration");
    assert("stable"@.len() == 6);
    assert("insiders"@.len() == 8);
}

impl Quality {
    /// The three channels, in the order of their declaration.
    pub fn all() -> (all: [Quality; 3])
        ensures
            all@ == seq![Quality::Stable, Quality::Insiders, Quality::Exploration],
    {
        [Quality::Stable, Quality::Insiders, Quality::Exploration]
    }

    /// The spelling of this channel in table keys.
    pub fn name(self) -> (name: &'static str)
        ensures
            name@ == quality_name(self),
    {
        match self {
            Quality::Stable => "stable",
            Quality::Insiders => "insiders",
            Quality::Exploration => "exploration",
        }
    }

    /// Reads a table key: `Some` for the three spellings of `name`, `None`
    /// for any other text.
    pub fn from_name(name: &str) -> (quality: Option<Quality>)
        ensures
            quality == quality_of_name(name@),
    {
        if str_eq(name, "stable") {
            Some(Quality::Stable)
        } else if str_eq(name, "insiders") {
            Some(Quality::Insiders)
        } else if str_eq(name, "exploration") {
            Some(Quality::Exploration)
        } else {
            None
        }
    }
}

} // verus!
