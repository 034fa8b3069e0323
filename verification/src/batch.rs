//! The batch processor's pure half: folding a sequence of per-file
//! outcomes into the rows of the successful files and a success count.
//! A failing file is skipped silently; it never aborts the batch.

use vstd::prelude::*;

use crate::parse::ExtractError;
use crate::record::PhotoRecord;

verus! {

/// The records of the successful outcomes, kept in input order; failed
/// files contribute nothing.
pub open spec fn spec_rows(s: Seq<Result<PhotoRecord, ExtractError>>) -> Seq<PhotoRecord>
    decreases s.len(),
{
    if s.len() == 0 {
        Seq::empty()
    } else {
        let rest = spec_rows(s.drop_first());
        match s[0] {
            Ok(rec) => seq![rec] + rest,
            Err(_) => rest,
        }
    }
}

/// Law: a failed file is skipped without disturbing the batch — the rows
/// of a sequence that starts with a failure are exactly the rows of the
/// remaining sequence.
pub proof fn lemma_failure_skipped(e: ExtractError, s: Seq<Result<PhotoRecord, ExtractError>>)
    ensures
        spec_rows(seq![Err::<PhotoRecord, ExtractError>(e)] + s) == spec_rows(s),
{
    let whole = seq![Err::<PhotoRecord, ExtractError>(e)] + s;
    assert(whole.drop_first() =~= s);
}

/// Law: a successful file contributes exactly one row, wherever it stands
/// — in particular after any number of failed files.
pub proof fn lemma_success_kept(rec: PhotoRecord, s: Seq<Result<PhotoRecord, ExtractError>>)
    ensures
        spec_rows(seq![Ok::<PhotoRecord, ExtractError>(rec)] + s) == seq![rec] + spec_rows(s),
{
    let whole = seq![Ok::<PhotoRecord, ExtractError>(rec)] + s;
    assert(whole.drop_first() =~= s);
}

/// Folds the per-file outcomes of one batch, in the order supplied: each
/// success appends its row and counts; each failure is dropped silently.
/// The batch never ends early, so every later success still lands.
pub fn collect_rows(results: Vec<Result<PhotoRecord, ExtractError>>) -> (r: (
    Vec<PhotoRecord>,
    usize,
))
    ensures
        r.0@ == spec_rows(results@),
        r.1 == r.0@.len(),
{
    let ghost orig: Seq<Result<PhotoRecord, ExtractError>> = results@;
    let mut remaining = results;
    let mut rows: Vec<PhotoRecord> = Vec::new();
    while remaining.len() > 0
        invariant
            spec_rows(orig) =~= rows@ + spec_rows(remaining@),
        decreases remaining.len(),
    {
        let ghost before: Seq<Result<PhotoRecord, ExtractError>> = remaining@;
        let first = remaining.remove(0);
        proof {
            assert(remaining@ =~= before.drop_first());
        }
        match first {
            Ok(rec) => {
                rows.push(rec);
            },
            Err(_) => {},
        }
        proof {
            assert(rows@ + spec_rows(remaining@) =~= spec_rows(orig));
        }
    }
    proof {
        assert(rows@ =~= spec_rows(orig));
    }
    let count = rows.len();
    (rows, count)
}

} // verus!
