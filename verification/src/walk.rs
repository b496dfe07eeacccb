//! The traversal-facing logic: which discovered entries make it into
//! the bundle, which names the hidden-file policy prunes, and what the
//! tool does with the root path it was given.
//!
//! The walk itself is filesystem work and stays outside the library;
//! it hands over each discovered file as a `FileEntry` of plain
//! strings and asks these functions for every decision.

use vstd::prelude::*;

use crate::classify::{guess_is_text, is_text_path};
use vstd::string::StrSliceExecFns;

verus! {

/// One file discovered under the scan root: its full path (used to
/// read it) and its path relative to the root (used in the output).
pub struct FileEntry {
    pub path: String,
    pub rel_path: String,
}

/// Whether an entry's file counts as text, judged by its path.
pub open spec fn entry_is_text(e: FileEntry) -> bool {
    is_text_path(e.path@)
}

/// The subsequence of entries that count as text, in discovery order.
pub open spec fn text_entries(s: Seq<FileEntry>) -> Seq<FileEntry> {
    s.filter(|e: FileEntry| entry_is_text(e))
}

/// Filtering a sequence with one more element at the end keeps the
/// filtered prefix and appends the new element exactly when it passes.
pub(crate) proof fn lemma_filter_push<A>(s: Seq<A>, pred: spec_fn(A) -> bool, x: A)
    ensures
        s.push(x).filter(pred) == if pred(x) {
            s.filter(pred).push(x)
        } else {
            s.filter(pred)
        },
{
    reveal(Seq::filter);
    assert(s.push(x).drop_last() =~= s);
    assert(s.push(x).last() == x);
}

/// The classifier gate: keeps exactly the entries whose path counts as
/// text, in their discovery order. Entries that fail classification
/// are dropped silently — the expected, frequent case.
pub fn select_text_files(entries: Vec<FileEntry>) -> (r: Vec<FileEntry>)
    ensures
        r@ == text_entries(entries@),
{
    let ghost all = entries@;
    let mut rest = entries;
    let mut out: Vec<FileEntry> = Vec::new();
    proof {
        assert(all.take(0) =~= Seq::<FileEntry>::empty());
        reveal(Seq::filter);
    }
    while rest.len() > 0
        invariant
            all.len() >= rest.len(),
            rest@ == all.skip(all.len() - rest.len()),
            out@ == text_entries(all.take(all.len() - rest.len())),
        decreases rest.len(),
    {
        let ghost k = all.len() - rest.len();
        let e = rest.remove(0);
        proof {
            assert(e == all[k as int]);
            assert(rest@ =~= all.skip(k + 1));
            assert(all.take(k + 1) =~= all.take(k as int).push(all[k as int]));
            lemma_filter_push(all.take(k as int), |x: FileEntry| entry_is_text(x), all[k as int]);
        }
        if guess_is_text(e.path.as_str()) {
            out.push(e);
        }
    }
    proof {
        assert(all.take(all.len() as int) =~= all);
    }
    out
}

/// The selection keeps exactly the discovered entries that count as
/// text — whatever order the selected entries are later processed in,
/// the set of files in the bundle is this and nothing else: every
/// selected entry was discovered and counts as text, and every
/// discovered entry that counts as text is selected.
pub proof fn lemma_selection_characterized(entries: Seq<FileEntry>)
    ensures
        forall|i: int|
            0 <= i < text_entries(entries).len() ==> entry_is_text(#[trigger] text_entries(
                entries,
            )[i]) && entries.contains(text_entries(entries)[i]),
        forall|i: int|
            0 <= i < entries.len() && entry_is_text(#[trigger] entries[i]) ==> text_entries(
                entries,
            ).contains(entries[i]),
{
    let pred = |e: FileEntry| entry_is_text(e);
    assert forall|i: int| 0 <= i < text_entries(entries).len() implies entry_is_text(
        #[trigger] text_entries(entries)[i],
    ) && entries.contains(text_entries(entries)[i]) by {
        entries.lemma_filter_pred(pred, i);
        assert(entries.filter(pred).contains(entries.filter(pred)[i]));
        entries.lemma_filter_contains_rev(pred, entries.filter(pred)[i]);
    }
    assert forall|i: int| 0 <= i < entries.len() && entry_is_text(
        #[trigger] entries[i],
    ) implies text_entries(entries).contains(entries[i]) by {
        entries.lemma_filter_contains(pred, i);
    }
}

/// Whether a file or directory name is hidden by the convention of a
/// leading dot.
pub open spec fn hidden_name(name: Seq<char>) -> bool {
    name.len() > 0 && name[0] == '.'
}

/// The hidden-file policy's test: a name is hidden exactly when it
/// begins with a dot. The walk asks this for every entry name when the
/// policy is active, pruning before descending.
pub fn is_hidden_name(name: &str) -> (r: bool)
    ensures
        r == hidden_name(name@),
{
    if name.unicode_len() == 0 {
        false
    } else {
        name.get_char(0) == '.'
    }
}

/// What the tool does once the root path's resolution is known.
#[derive(Clone, Copy, Debug, PartialEq, Eq, Structural)]
pub enum RootAction {
    /// The root could not be resolved: fatal, report a path error.
    FailWithPathError,
    /// The root resolves but is not a directory: warn and exit
    /// successfully without touching the clipboard.
    WarnNotDirectory,
    /// The root is a directory: scan it.
    Scan,
}

/// The root-handling rule: an unresolvable root is fatal, a resolved
/// non-directory is only a warning, a directory is scanned.
pub open spec fn action_for_root(resolved: bool, is_dir: bool) -> RootAction {
    if !resolved {
        RootAction::FailWithPathError
    } else if !is_dir {
        RootAction::WarnNotDirectory
    } else {
        RootAction::Scan
    }
}

/// Decides how to treat the root path, from whether it resolved and
/// whether the resolved target is a directory.
pub fn plan_for_root(resolved: bool, is_dir: bool) -> (a: RootAction)
    ensures
        a == action_for_root(resolved, is_dir),
{
    if !resolved {
        RootAction::FailWithPathError
    } else if !is_dir {
        RootAction::WarnNotDirectory
    } else {
        RootAction::Scan
    }
}

} // verus!
