//! Reporting the working directory of the process.
//!
//! The host asks the operating system and hands over what it learned. The
//! reply is the path as text, or an error: the operating system's own where
//! it could not name a directory, a fixed one where the path it named is not
//! text.

use vstd::prelude::*;
use crate::host::reply_view;

verus! {

/// What the host learned when it asked for the working directory.
#[derive(Debug, PartialEq, Eq)]
pub enum DirLookup {
    /// The absolute path of the working directory, which is valid Unicode.
    Found { path: String },
    /// There is a working directory, but its path is not valid Unicode.
    NotText,
    /// The operating system could not name a working directory, for
    /// instance because it was deleted. `reason` is its message.
    Unavailable { reason: String },
}

/// What a [`DirLookup`] is, as sequences of characters.
pub enum DirLookupView {
    Found { path: Seq<char> },
    NotText,
    Unavailable { reason: Seq<char> },
}

impl View for DirLookup {
    type V = DirLookupView;

    open spec fn view(&self) -> DirLookupView {
        match self {
            DirLookup::Found { path } => DirLookupView::Found { path: path@ },
            DirLookup::NotText => DirLookupView::NotText,
            DirLookup::Unavailable { reason } => DirLookupView::Unavailable { reason: reason@ },
        }
    }
}

/// The error for a working directory whose path is not text.
pub open spec fn not_text_message() -> Seq<char> {
    "PathBuf could not be converted to String"@
}

/// The reply to a request for the working directory, given what the host
/// learned.
pub open spec fn working_dir_reply(lookup: DirLookupView) -> Result<Seq<char>, Seq<char>> {
    match lookup {
        DirLookupView::Found { path } => Ok(path),
        DirLookupView::NotText => Err(not_text_message()),
        DirLookupView::Unavailable { reason } => Err(reason),
    }
}

/// Answers a request for the working directory from what the host learned.
pub fn get_current_working_dir(lookup: DirLookup) -> (reply: Result<String, String>)
    ensures
        reply_view(reply) == working_dir_reply(lookup@),
{
    match lookup {
        DirLookup::Found { path } => Ok(path),
        DirLookup::NotText => Err("PathBuf could not be converted to String".to_owned()),
        DirLookup::Unavailable { reason } => Err(reason),
    }
}

/// The reply depends on nothing but the lookup: two requests for which the
/// host learned the same give the same reply.
pub proof fn lemma_same_lookup_same_reply(first: DirLookup, second: DirLookup)
    requires
        first@ == second@,
    ensures
        working_dir_reply(first@) == working_dir_reply(second@),
{
}

} // verus!
