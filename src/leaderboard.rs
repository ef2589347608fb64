use vstd::prelude::*;
use vstd::string::*;

verus! {

/// A field of a backend document, as far as the leaderboard reads it.
///
/// `Text` is a JSON string, `Integer` a JSON number with an integral
/// representation (signed or unsigned 64-bit), and `Other` any other value:
/// null, a boolean, a floating-point number, an array or an object.
#[derive(Debug, Clone)]
pub enum FieldValue {
    Text(String),
    Integer(i128),
    Other,
}

/// A backend document, reduced to the two fields the leaderboard reads.
/// `None` means that the document has no such field.
#[derive(Debug, Clone)]
pub struct RemoteRecord {
    pub name: Option<FieldValue>,
    pub score: Option<FieldValue>,
}

/// A ranked leaderboard entry as exposed to the user interface.
#[derive(Debug, Clone)]
pub struct PlayerScore {
    /// 1-based rank, in the order the backend returned the documents.
    pub position: usize,
    pub name: String,
    pub score: i32,
}

/// The name given to an entry whose document has no usable name.
pub open spec fn unknown_name() -> Seq<char> {
    seq!['U', 'n', 'k', 'n', 'o', 'w', 'n']
}

/// The display name derived from a document's "name" field.
pub open spec fn name_of(field: Option<FieldValue>) -> Seq<char> {
    match field {
        Some(FieldValue::Text(t)) => t@,
        _ => unknown_name(),
    }
}

/// The score derived from a document's "score" field: its integer value when
/// it fits in 32 bits, and 0 otherwise.
pub open spec fn score_of(field: Option<FieldValue>) -> i32 {
    match field {
        Some(FieldValue::Integer(v)) => if i32::MIN <= v <= i32::MAX {
            v as i32
        } else {
            0
        },
        _ => 0,
    }
}

/// Whether `entry` is the entry built from `record` at 0-based index `index`.
pub open spec fn entry_from(entry: PlayerScore, index: int, record: RemoteRecord) -> bool {
    &&& entry.position == index + 1
    &&& entry.name@ == name_of(record.name)
    &&& entry.score == score_of(record.score)
}

/// Derives the display name of a document, falling back to "Unknown".
pub fn entry_name(field: &Option<FieldValue>) -> (r: String)
    ensures
        r@ == name_of(*field),
{
    match field {
        Some(FieldValue::Text(t)) => t.clone(),
        _ => {
            let r = String::from_str("Unknown");
            proof {
                reveal_strlit("Unknown");
            }
            r
        },
    }
}

/// Derives the score of a document, falling back to 0.
pub fn entry_score(field: &Option<FieldValue>) -> (r: i32)
    ensures
        r == score_of(*field),
{
    match field {
        Some(FieldValue::Integer(v)) => {
            if i32::MIN as i128 <= *v && *v <= i32::MAX as i128 {
                *v as i32
            } else {
                0
            }
        },
        _ => 0,
    }
}

/// Builds the entry for the document at 0-based index `index`.
pub fn normalize_record(index: usize, record: &RemoteRecord) -> (r: PlayerScore)
    requires
        index < usize::MAX,
    ensures
        entry_from(r, index as int, *record),
{
    PlayerScore {
        position: index + 1,
        name: entry_name(&record.name),
        score: entry_score(&record.score),
    }
}

/// The failure reported for a transport, authentication or backend error.
/// It carries no detail: the caller only learns that the operation failed.
#[derive(PartialEq, Eq, Structural, Debug, Clone, Copy)]
pub struct OpaqueFailure;

/// The number of entries the leaderboard shows by default.
pub const DEFAULT_LIMIT: usize = 5;

/// The smaller of `a` and `b`.
pub open spec fn min_nat(a: nat, b: nat) -> nat {
    if a <= b {
        a
    } else {
        b
    }
}

/// Whether `entries` ranks the first `limit` of `records`, in the order given.
pub open spec fn ranks(entries: Seq<PlayerScore>, records: Seq<RemoteRecord>, limit: nat) -> bool {
    &&& entries.len() == min_nat(records.len(), limit)
    &&& forall|i: int| 0 <= i < entries.len() ==> #[trigger] entry_from(entries[i], i, records[i])
}

/// Ranks the documents returned by the backend, in the order received, keeping
/// at most `limit` of them.
pub fn rank_records(records: &Vec<RemoteRecord>, limit: usize) -> (r: Vec<PlayerScore>)
    ensures
        ranks(r@, records@, limit as nat),
        r@.len() <= limit,
        records@.len() <= limit ==> r@.len() == records@.len(),
        forall|i: int| 0 <= i < r@.len() ==> #[trigger] r@[i].position == i + 1,
{
    let n: usize = if records.len() < limit {
        records.len()
    } else {
        limit
    };
    let mut out: Vec<PlayerScore> = Vec::new();
    let mut i: usize = 0;
    while i < n
        invariant
            n == min_nat(records@.len(), limit as nat),
            n <= records@.len(),
            i <= n,
            out@.len() == i,
            forall|j: int| 0 <= j < i ==> #[trigger] entry_from(out@[j], j, records@[j]),
        decreases n - i,
    {
        let entry = normalize_record(i, &records[i]);
        out.push(entry);
        i = i + 1;
    }
    proof {
        assert forall|j: int| 0 <= j < out@.len() implies #[trigger] out@[j].position == j + 1 by {
            assert(entry_from(out@[j], j, records@[j]));
        }
    }
    out
}

/// Completes a fetch of the top scores from what the backend query returned:
/// the ranked entries when the query succeeded, and the opaque failure
/// otherwise, never a partial list.
pub fn scores_from_response<E>(response: Result<Vec<RemoteRecord>, E>, limit: usize) -> (r: Result<
    Vec<PlayerScore>,
    OpaqueFailure,
>)
    ensures
        response is Err <==> r is Err,
        response matches Ok(records) ==> (r matches Ok(entries) && ranks(
            entries@,
            records@,
            limit as nat,
        )),
        response matches Ok(records) ==> (records@.len() <= limit ==> (r matches Ok(entries)
            && entries@.len() == records@.len() && forall|i: int|
            0 <= i < entries@.len() ==> #[trigger] entries@[i].position == i + 1)),
        response matches Ok(records) ==> (records@.len() == 0 ==> (r matches Ok(entries)
            && entries@.len() == 0)),
{
    match response {
        Ok(records) => Ok(rank_records(&records, limit)),
        Err(_) => Err(OpaqueFailure),
    }
}

/// Completes a submission of a score from what the backend write returned:
/// success, or the opaque failure.
pub fn submission_result<E>(response: Result<(), E>) -> (r: Result<(), OpaqueFailure>)
    ensures
        response is Ok <==> r is Ok,
{
    match response {
        Ok(()) => Ok(()),
        Err(_) => Err(OpaqueFailure),
    }
}

} // verus!
