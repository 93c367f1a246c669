use vstd::prelude::*;

use crate::error::DownloadError;

verus! {

/// One entry of the batch: where to fetch from and where the finished file
/// belongs. Immutable once enqueued.
pub struct DownloadTask {
    /// The URL the file is fetched from.
    pub source_url: String,
    /// The path the finished file is renamed onto.
    pub destination_path: String,
}

impl DownloadTask {
    /// Builds one batch entry.
    pub fn new(source_url: String, destination_path: String) -> (t: DownloadTask)
        ensures
            t.source_url@ == source_url@,
            t.destination_path@ == destination_path@,
    {
        DownloadTask { source_url, destination_path }
    }
}

/// The batch outcome: success only when every task succeeded; otherwise
/// the first failure observed, in task order.
pub open spec fn spec_batch_outcome(results: Seq<Result<(), DownloadError>>) -> Result<
    (),
    DownloadError,
>
    decreases results.len(),
{
    if results.len() == 0 {
        Ok(())
    } else if results[0] is Err {
        results[0]
    } else {
        spec_batch_outcome(results.drop_first())
    }
}

/// Skipping a prefix of successes does not change the batch outcome.
proof fn lemma_batch_outcome_skip(results: Seq<Result<(), DownloadError>>, i: int)
    requires
        0 <= i <= results.len(),
        forall|j: int| 0 <= j < i ==> results[j] is Ok,
    ensures
        spec_batch_outcome(results) == spec_batch_outcome(results.skip(i)),
    decreases i,
{
    if i > 0 {
        assert(results.drop_first() =~= results.skip(1));
        lemma_batch_outcome_skip(results.skip(1), i - 1);
        assert(results.skip(1).skip(i - 1) =~= results.skip(i));
    } else {
        assert(results.skip(0) =~= results);
    }
}

/// Aggregates the tasks' outcomes into the batch's result: `Ok` exactly
/// when every task succeeded, and otherwise the first failure in task
/// order — later results, successes and failures alike, are not consulted.
pub fn aggregate_outcomes(results: &Vec<Result<(), DownloadError>>) -> (r: Result<
    (),
    DownloadError,
>)
    ensures
        r == spec_batch_outcome(results@),
        r is Ok <==> (forall|i: int| 0 <= i < results@.len() ==> results@[i] is Ok),
        r is Err ==> exists|i: int|
            0 <= i < results@.len() && results@[i] == r && (forall|j: int|
                0 <= j < i ==> results@[j] is Ok),
{
    let n = results.len();
    let mut i: usize = 0;
    while i < n
        invariant
            0 <= i <= n,
            n == results@.len(),
            forall|j: int| 0 <= j < i ==> results@[j] is Ok,
        decreases n - i,
    {
        if results[i].is_err() {
            let r = results[i];
            proof {
                lemma_batch_outcome_skip(results@, i as int);
                assert(results@.skip(i as int)[0] == results@[i as int]);
            }
            return r;
        }
        i = i + 1;
    }
    proof {
        lemma_batch_outcome_skip(results@, n as int);
        assert(results@.skip(n as int) =~= Seq::<Result<(), DownloadError>>::empty());
    }
    Ok(())
}

} // verus!
