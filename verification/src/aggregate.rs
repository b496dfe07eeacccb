//! Combining the fragments of all included files into one output.
//!
//! Two execution modes produce the aggregated output: a sequential
//! loop in discovery order, and a parallel mode that renders fragments
//! across a worker pool and concatenates them in a single final merge.
//! Both produce the same output for the same records and style.

use vstd::prelude::*;

use crate::config::OutputFormat;
use crate::format::{fragment_of, render_fragment};
use crate::walk::FileEntry;
use crate::strops::push_str;
use rayon::iter::{IntoParallelRefIterator, ParallelIterator};

verus! {

/// One included file, ready to render: its path relative to the scan
/// root and its full textual contents.
pub struct FileRecord {
    pub rel_path: String,
    pub contents: String,
}

/// The outcome of trying to read one selected file: its entry, and
/// its full contents if the read succeeded. A failed read carries
/// `None`; there is no partial content — a file is either fully
/// included or fully excluded.
pub struct ReadOutcome {
    pub entry: FileEntry,
    pub contents: Option<String>,
}

/// The records of the outcomes whose read succeeded, in order: a
/// failed read drops its file and nothing else.
pub open spec fn readable_records(outcomes: Seq<ReadOutcome>) -> Seq<FileRecord>
    decreases outcomes.len(),
{
    if outcomes.len() == 0 {
        Seq::empty()
    } else {
        let rest = readable_records(outcomes.drop_last());
        match outcomes.last().contents {
            Some(contents) => rest.push(
                FileRecord { rel_path: outcomes.last().entry.rel_path, contents },
            ),
            None => rest,
        }
    }
}

/// One more outcome at the end adds its record exactly when its read
/// succeeded.
proof fn lemma_readable_push(outcomes: Seq<ReadOutcome>, x: ReadOutcome)
    ensures
        readable_records(outcomes.push(x)) == match x.contents {
            Some(contents) => readable_records(outcomes).push(
                FileRecord { rel_path: x.entry.rel_path, contents },
            ),
            None => readable_records(outcomes),
        },
{
    assert(outcomes.push(x).drop_last() =~= outcomes);
    assert(outcomes.push(x).last() == x);
}

/// The skip-and-continue policy for failed reads: keeps a record for
/// exactly the outcomes whose read succeeded, in their order. The
/// caller logs each failure; no failure aborts the run.
pub fn keep_readable(outcomes: Vec<ReadOutcome>) -> (r: Vec<FileRecord>)
    ensures
        r@ == readable_records(outcomes@),
{
    let ghost all = outcomes@;
    let mut rest = outcomes;
    let mut out: Vec<FileRecord> = Vec::new();
    proof {
        assert(all.take(0) =~= Seq::<ReadOutcome>::empty());
    }
    while rest.len() > 0
        invariant
            all.len() >= rest.len(),
            rest@ == all.skip(all.len() - rest.len()),
            out@ == readable_records(all.take(all.len() - rest.len())),
        decreases rest.len(),
    {
        let ghost k = all.len() - rest.len();
        let outcome = rest.remove(0);
        proof {
            assert(outcome == all[k as int]);
            assert(rest@ =~= all.skip(k + 1));
            assert(all.take(k + 1) =~= all.take(k as int).push(all[k as int]));
            lemma_readable_push(all.take(k as int), all[k as int]);
        }
        match outcome.contents {
            Some(contents) => {
                out.push(FileRecord { rel_path: outcome.entry.rel_path, contents });
            }
            None => {}
        }
    }
    proof {
        assert(all.take(all.len() as int) =~= all);
    }
    out
}

/// The fragment one record renders to under the given style.
pub open spec fn record_fragment(format: OutputFormat, r: FileRecord) -> Seq<char> {
    fragment_of(format, r.rel_path@, r.contents@)
}

/// The aggregated output: the concatenation, in order, of every
/// record's fragment. An empty record sequence aggregates to the
/// empty string.
pub open spec fn aggregate_spec(format: OutputFormat, records: Seq<FileRecord>) -> Seq<char>
    decreases records.len(),
{
    if records.len() == 0 {
        Seq::empty()
    } else {
        aggregate_spec(format, records.drop_last()) + record_fragment(format, records.last())
    }
}

/// Aggregating one more record appends exactly that record's fragment.
proof fn lemma_aggregate_push(format: OutputFormat, records: Seq<FileRecord>, r: FileRecord)
    ensures
        aggregate_spec(format, records.push(r)) == aggregate_spec(format, records) + record_fragment(
            format,
            r,
        ),
{
    assert(records.push(r).drop_last() =~= records);
    assert(records.push(r).last() == r);
}

/// Sequential aggregation: renders and appends each record's fragment
/// in the order given, which is the traversal's discovery order.
pub fn aggregate_sequential(records: &Vec<FileRecord>, format: OutputFormat) -> (out: String)
    ensures
        out@ == aggregate_spec(format, records@),
        records@.len() == 0 ==> out@ == Seq::<char>::empty(),
{
    let mut out = String::new();
    let mut i: usize = 0;
    proof {
        assert(records@.take(0) =~= Seq::<FileRecord>::empty());
    }
    while i < records.len()
        invariant
            i <= records.len(),
            out@ == aggregate_spec(format, records@.take(i as int)),
        decreases records.len() - i,
    {
        let fragment = render_fragment(
            records[i].rel_path.as_str(),
            records[i].contents.as_str(),
            format,
        );
        push_str(&mut out, fragment.as_str());
        proof {
            assert(records@.take(i + 1) =~= records@.take(i as int).push(records@[i as int]));
            lemma_aggregate_push(format, records@.take(i as int), records@[i as int]);
        }
        i = i + 1;
    }
    proof {
        assert(records@.take(records@.len() as int) =~= records@);
    }
    out
}

/// Relies on rayon's `par_iter`, `map` and `collect`: a parallel
/// iterator over a `Vec` is indexed, `map` keeps it indexed, and
/// collecting an indexed parallel iterator into a `Vec` produces the
/// results in the source order, each element exactly once. The closure
/// only calls the library's verified renderer of one fragment.
#[verifier::external_body]
fn render_all_parallel(records: &Vec<FileRecord>, format: OutputFormat) -> (fragments: Vec<String>)
    ensures
        fragments@.len() == records@.len(),
        forall|i: int|
            0 <= i < records@.len() ==> fragments@[i]@ == record_fragment(format, records@[i]),
{
    records
        .par_iter()
        .map(|r| render_fragment(r.rel_path.as_str(), r.contents.as_str(), format))
        .collect()
}

/// Parallel aggregation: fragments are rendered concurrently across a
/// worker pool, each record touched by exactly one worker, and a
/// single final merge concatenates them. The output equals the
/// sequential mode's output for the same records and style.
pub fn aggregate_parallel(records: &Vec<FileRecord>, format: OutputFormat) -> (out: String)
    ensures
        out@ == aggregate_spec(format, records@),
        records@.len() == 0 ==> out@ == Seq::<char>::empty(),
{
    let fragments = render_all_parallel(records, format);
    let mut out = String::new();
    let mut i: usize = 0;
    proof {
        assert(records@.take(0) =~= Seq::<FileRecord>::empty());
    }
    while i < fragments.len()
        invariant
            i <= fragments.len(),
            fragments@.len() == records@.len(),
            forall|j: int|
                0 <= j < records@.len() ==> fragments@[j]@ == record_fragment(format, records@[j]),
            out@ == aggregate_spec(format, records@.take(i as int)),
        decreases fragments.len() - i,
    {
        push_str(&mut out, fragments[i].as_str());
        proof {
            assert(records@.take(i + 1) =~= records@.take(i as int).push(records@[i as int]));
            lemma_aggregate_push(format, records@.take(i as int), records@[i as int]);
        }
        i = i + 1;
    }
    proof {
        assert(records@.take(records@.len() as int) =~= records@);
    }
    out
}

/// The aggregated output is a function of the records and the style
/// alone: two runs over the same records with the same style — in
/// either execution mode, or one in each — produce identical output.
pub proof fn lemma_output_deterministic(
    format: OutputFormat,
    records: Seq<FileRecord>,
    first: Seq<char>,
    second: Seq<char>,
)
    requires
        first == aggregate_spec(format, records),
        second == aggregate_spec(format, records),
    ensures
        first == second,
{
}

} // verus!
