//! Where things go in the repository the task is started from. Every
//! location is derived from the starting directory alone, so none of them
//! depends on where the work is carried out.

use vstd::prelude::*;
use vstd::string::*;
use crate::paths::{is_absolute, join, joined};
use crate::pin::{BINDING_CRATE, CRATES_DIR, INCLUDE_DIR, SOURCE_DIR, STAMP_FILE};

verus! {

/// Root of the binding crate in the repository rooted at `origin`.
pub open spec fn binding_root_of(origin: Seq<char>) -> Seq<char> {
    joined(joined(origin, CRATES_DIR@), BINDING_CRATE@)
}

/// Directory that receives the headers, in the binding crate rooted at
/// `binding`.
pub open spec fn include_root_of(binding: Seq<char>) -> Seq<char> {
    joined(binding, INCLUDE_DIR@)
}

/// File that carries the stamp, in the binding crate rooted at `binding`.
pub open spec fn stamp_path_of(binding: Seq<char>) -> Seq<char> {
    joined(joined(binding, SOURCE_DIR@), STAMP_FILE@)
}

/// Computes the root of the binding crate from the starting directory.
pub fn binding_root(origin: &str) -> (res: String)
    ensures
        res@ == binding_root_of(origin@),
{
    let crates = join(origin, CRATES_DIR);
    join(crates.as_str(), BINDING_CRATE)
}

/// Computes the directory that receives the headers.
pub fn include_root(binding: &str) -> (res: String)
    ensures
        res@ == include_root_of(binding@),
{
    join(binding, INCLUDE_DIR)
}

/// Computes the path of the file that carries the stamp.
pub fn stamp_path(binding: &str) -> (res: String)
    ensures
        res@ == stamp_path_of(binding@),
{
    let sources = join(binding, SOURCE_DIR);
    join(sources.as_str(), STAMP_FILE)
}

/// Joining a relative name onto an absolute path gives an absolute path
/// that extends it.
pub proof fn lemma_join_keeps_root(base: Seq<char>, name: Seq<char>)
    requires
        is_absolute(base),
        !is_absolute(name),
    ensures
        is_absolute(joined(base, name)),
        base.is_prefix_of(joined(base, name)),
{
}

/// Every location of the layout lies under an absolute starting directory,
/// and is absolute itself.
pub proof fn lemma_layout_is_rooted(origin: Seq<char>)
    requires
        is_absolute(origin),
    ensures
        is_absolute(binding_root_of(origin)),
        is_absolute(include_root_of(binding_root_of(origin))),
        is_absolute(stamp_path_of(binding_root_of(origin))),
        origin.is_prefix_of(binding_root_of(origin)),
        binding_root_of(origin).is_prefix_of(include_root_of(binding_root_of(origin))),
        binding_root_of(origin).is_prefix_of(stamp_path_of(binding_root_of(origin))),
{
    reveal_strlit("lib");
    reveal_strlit("wpilib-sys");
    reveal_strlit("include");
    reveal_strlit("src");
    reveal_strlit("version.rs");
    let crates = joined(origin, CRATES_DIR@);
    lemma_join_keeps_root(origin, CRATES_DIR@);
    lemma_join_keeps_root(crates, BINDING_CRATE@);
    let binding = binding_root_of(origin);
    lemma_join_keeps_root(binding, INCLUDE_DIR@);
    lemma_join_keeps_root(binding, SOURCE_DIR@);
    lemma_join_keeps_root(joined(binding, SOURCE_DIR@), STAMP_FILE@);
}

} // verus!
