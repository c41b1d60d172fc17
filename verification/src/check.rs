use crate::config::Object;
use crate::s3::filter_fresh;
use crate::s3::fresh_listed;
use crate::s3::listed;
use crate::s3::StorageError;
use crate::s3::StorageObject;
use vstd::prelude::*;
use vstd::string::StringExecFns;

verus! {

/// What one check found: whether a fresh object exists under the prefix,
/// whether a fresh object is smaller than asked for, and whether the bucket
/// could be listed at all.
#[derive(Debug, Clone, PartialEq, Eq)]
pub struct CheckResult {
    pub bucket: String,
    pub prefix: String,
    pub exists: bool,
    pub size_mismatch: bool,
    pub query_failed: bool,
}

/// A check's result with its two names as character sequences.
pub struct CheckView {
    pub bucket: Seq<char>,
    pub prefix: Seq<char>,
    pub exists: bool,
    pub size_mismatch: bool,
    pub query_failed: bool,
}

impl View for CheckResult {
    type V = CheckView;

    open spec fn view(&self) -> CheckView {
        CheckView {
            bucket: self.bucket@,
            prefix: self.prefix@,
            exists: self.exists,
            size_mismatch: self.size_mismatch,
            query_failed: self.query_failed,
        }
    }
}

/// An object is undersized when its size is known and strictly below the
/// minimum. An object of unknown size is never undersized.
pub open spec fn undersized(object: StorageObject, min_size: i64) -> bool {
    match object.size {
        Some(size) => size < min_size,
        None => false,
    }
}

/// Whether any of the objects is undersized.
pub open spec fn any_undersized(objects: Seq<StorageObject>, min_size: i64) -> bool {
    exists|i: int| 0 <= i < objects.len() && undersized(#[trigger] objects[i], min_size)
}

/// The verdict on the fresh objects of a listing, as (exists, size mismatch).
/// Something exists when the listing is not empty. Sizes are compared only
/// under a positive minimum, and one undersized object is a mismatch.
pub open spec fn verdict_of(fresh: Seq<StorageObject>, min_size: i64) -> (bool, bool) {
    (fresh.len() > 0, min_size > 0 && any_undersized(fresh, min_size))
}

/// Judges the fresh objects of a listing against a minimum size.
pub fn evaluate(fresh: &Vec<StorageObject>, min_size: i64) -> (verdict: (bool, bool))
    ensures
        verdict == verdict_of(fresh@, min_size),
{
    let exists = fresh.len() > 0;
    let mut size_mismatch = false;
    if min_size > 0 {
        let mut i: usize = 0;
        while i < fresh.len()
            invariant
                i <= fresh.len(),
                size_mismatch == any_undersized(fresh@.take(i as int), min_size),
            decreases fresh.len() - i,
        {
            let ghost seen = fresh@.take(i as int);
            let ghost next = fresh@.take(i + 1);
            if let Some(size) = fresh[i].size {
                if size < min_size {
                    size_mismatch = true;
                }
            }
            proof {
                assert(next[i as int] == fresh@[i as int]);
                if any_undersized(seen, min_size) {
                    let k = choose|k: int| 0 <= k < seen.len() && undersized(seen[k], min_size);
                    assert(undersized(next[k], min_size));
                }
                if any_undersized(next, min_size) && !undersized(fresh@[i as int], min_size) {
                    let k = choose|k: int| 0 <= k < next.len() && undersized(next[k], min_size);
                    assert(undersized(seen[k], min_size));
                }
            }
            i += 1;
        }
        proof {
            assert(fresh@.take(i as int) =~= fresh@);
        }
    }
    (exists, size_mismatch)
}

/// The result of a check on `bucket` and `prefix`, from the answer to the
/// listing: the verdict on the fresh objects, or, where the bucket could not
/// be listed, a failure that confirms nothing.
pub open spec fn outcome_of(
    bucket: Seq<char>,
    prefix: Seq<char>,
    min_size: i64,
    answer: Result<Seq<StorageObject>, StorageError>,
) -> CheckView {
    match answer {
        Ok(fresh) => CheckView {
            bucket,
            prefix,
            exists: verdict_of(fresh, min_size).0,
            size_mismatch: verdict_of(fresh, min_size).1,
            query_failed: false,
        },
        Err(_) => CheckView {
            bucket,
            prefix,
            exists: false,
            size_mismatch: false,
            query_failed: true,
        },
    }
}

impl CheckResult {
    /// Builds the result of the check `file` on `bucket` from the answer to
    /// its listing, which holds the fresh objects only.
    pub fn from_answer(
        bucket: String,
        file: &Object,
        answer: &Result<Vec<StorageObject>, StorageError>,
    ) -> (result: CheckResult)
        ensures
            result@ == outcome_of(bucket@, file.prefix@, file.size, listed(*answer)),
    {
        let prefix = file.prefix.clone();
        match answer {
            Ok(fresh) => {
                let verdict = evaluate(fresh, file.size);
                CheckResult {
                    bucket,
                    prefix,
                    exists: verdict.0,
                    size_mismatch: verdict.1,
                    query_failed: false,
                }
            },
            Err(_) => CheckResult {
                bucket,
                prefix,
                exists: false,
                size_mismatch: false,
                query_failed: true,
            },
        }
    }
}

/// A flag as the line protocol writes it, without the integer suffix.
pub open spec fn flag(value: bool) -> Seq<char> {
    if value {
        "1"@
    } else {
        "0"@
    }
}

/// The line for a result: the bucket, the prefix tag, a space, then the three
/// integer fields in the order error, exist, size_mismatch. Names are written
/// as they are, with nothing escaped.
pub open spec fn encoded(result: CheckView) -> Seq<char> {
    result.bucket + ",prefix="@ + result.prefix + " error="@ + flag(result.query_failed)
        + "i,exist="@ + flag(result.exists) + "i,size_mismatch="@ + flag(result.size_mismatch)
        + "i"@
}

fn flag_text(value: bool) -> (text: &'static str)
    ensures
        text@ == flag(value),
{
    if value {
        "1"
    } else {
        "0"
    }
}

/// Writes a result as one line of line protocol. Every result has a line.
pub fn encode(result: &CheckResult) -> (line: String)
    ensures
        line@ == encoded(result@),
{
    let mut line = result.bucket.clone();
    line.append(",prefix=");
    line.append(result.prefix.as_str());
    line.append(" error=");
    line.append(flag_text(result.query_failed));
    line.append("i,exist=");
    line.append(flag_text(result.exists));
    line.append("i,size_mismatch=");
    line.append(flag_text(result.size_mismatch));
    line.append("i");
    line
}

/// A listing with no fresh object yields "does not exist" and no size
/// mismatch, whatever the minimum size.
pub proof fn lemma_empty_listing_confirms_nothing(fresh: Seq<StorageObject>, min_size: i64)
    requires
        fresh.len() == 0,
    ensures
        verdict_of(fresh, min_size) == (false, false),
{
}

/// A minimum size of zero switches the size comparison off: no listing is a
/// size mismatch under it.
pub proof fn lemma_no_minimum_no_mismatch(fresh: Seq<StorageObject>)
    ensures
        !verdict_of(fresh, 0).1,
{
}

/// A size mismatch is reported only of something that exists, and only under
/// a positive minimum size.
pub proof fn lemma_mismatch_needs_object_and_minimum(fresh: Seq<StorageObject>, min_size: i64)
    requires
        verdict_of(fresh, min_size).1,
    ensures
        verdict_of(fresh, min_size).0,
        min_size > 0,
{
}

/// One undersized object among the fresh ones is a size mismatch under a
/// positive minimum, however large the others are.
pub proof fn lemma_one_undersized_is_mismatch(fresh: Seq<StorageObject>, min_size: i64, i: int)
    requires
        min_size > 0,
        0 <= i < fresh.len(),
        undersized(fresh[i], min_size),
    ensures
        verdict_of(fresh, min_size) == (true, true),
{
}

/// A listing that failed yields the failure result whole: the error flag set,
/// and neither existence nor a size mismatch reported. Its line ends in the
/// three fields `error=1i,exist=0i,size_mismatch=0i`.
pub proof fn lemma_storage_error_line(
    bucket: Seq<char>,
    prefix: Seq<char>,
    min_size: i64,
    answer: Result<Seq<StorageObject>, StorageError>,
)
    requires
        answer is Err,
    ensures
        outcome_of(bucket, prefix, min_size, answer) == (CheckView {
            bucket,
            prefix,
            exists: false,
            size_mismatch: false,
            query_failed: true,
        }),
        encoded(outcome_of(bucket, prefix, min_size, answer)) == bucket + ",prefix="@ + prefix
            + " error=1i,exist=0i,size_mismatch=0i"@,
{
    reveal_strlit(" error=1i,exist=0i,size_mismatch=0i");
    reveal_strlit(" error=");
    reveal_strlit("i,exist=");
    reveal_strlit("i,size_mismatch=");
    reveal_strlit("i");
    reveal_strlit("0");
    reveal_strlit("1");
    let head = bucket + ",prefix="@ + prefix;
    let tail = " error="@ + "1"@ + "i,exist="@ + "0"@ + "i,size_mismatch="@ + "0"@ + "i"@;
    assert(tail =~= " error=1i,exist=0i,size_mismatch=0i"@);
    assert(encoded(outcome_of(bucket, prefix, min_size, answer)) =~= head + tail);
}

/// Judges one check from the answer to its listing, where the answer holds
/// the fresh objects, and returns the line to emit.
pub fn check(bucket: String, file: Object, answer: Result<Vec<StorageObject>, StorageError>) -> (line:
    String)
    ensures
        line@ == encoded(outcome_of(bucket@, file.prefix@, file.size, listed(answer))),
{
    let result = CheckResult::from_answer(bucket, &file, &answer);
    encode(&result)
}

/// One whole check: takes the store's answer as it came, keeps what was
/// fresh at `now` by the check's own window, judges that against the check's
/// minimum size, and returns the line to emit.
pub fn check_at(
    bucket: String,
    file: Object,
    answer: Result<Vec<StorageObject>, StorageError>,
    now: i64,
) -> (line: String)
    ensures
        line@ == encoded(
            outcome_of(bucket@, file.prefix@, file.size, fresh_listed(answer, file.age, now)),
        ),
{
    let fresh = match answer {
        Ok(found) => Ok(filter_fresh(&found, file.age, now)),
        Err(error) => Err(error),
    };
    check(bucket, file, fresh)
}

} // verus!
