use vstd::prelude::*;
use unofficial_appwrite::query::Query;

verus! {

/// Whether `name` is a non-empty attribute name made of ASCII letters, digits
/// and underscores, which JSON writes without escapes.
pub open spec fn is_plain_attribute(name: Seq<char>) -> bool {
    &&& name.len() > 0
    &&& forall|i: int|
        0 <= i < name.len() ==> {
            let c = #[trigger] name[i];
            ('a' <= c <= 'z') || ('A' <= c <= 'Z') || ('0' <= c <= '9') || c == '_'
        }
}

/// The decimal digit for `d`, where `d < 10`.
pub open spec fn digit_char(d: nat) -> char {
    if d == 0 { '0' }
    else if d == 1 { '1' }
    else if d == 2 { '2' }
    else if d == 3 { '3' }
    else if d == 4 { '4' }
    else if d == 5 { '5' }
    else if d == 6 { '6' }
    else if d == 7 { '7' }
    else if d == 8 { '8' }
    else { '9' }
}

/// The decimal notation of `n`, without leading zeros.
pub open spec fn decimal(n: nat) -> Seq<char>
    decreases n,
{
    if n < 10 {
        seq![digit_char(n)]
    } else {
        decimal(n / 10).push(digit_char(n % 10))
    }
}

/// The query that orders documents ascending by `attribute`:
/// `{"method":"orderAsc","attribute":"<attribute>"}`.
pub open spec fn order_asc_query(attribute: Seq<char>) -> Seq<char> {
    "{\"method\":\"orderAsc\",\"attribute\":\""@ + attribute + "\"}"@
}

/// The query that keeps at most `n` documents: `{"method":"limit","values":[<n>]}`.
pub open spec fn limit_query(n: nat) -> Seq<char> {
    "{\"method\":\"limit\",\"values\":["@ + decimal(n) + "]}"@
}

/// Relies on unofficial_appwrite's `Query::order_asc`, which serialises
/// `{"method":"orderAsc","attribute":<attribute>}` with serde_json; a plain
/// attribute name needs no escaping.
#[verifier::external_body]
fn order_asc(attribute: &str) -> (r: String)
    requires
        is_plain_attribute(attribute@),
    ensures
        r@ == order_asc_query(attribute@),
{
    Query::order_asc(attribute.into())
}

/// Relies on unofficial_appwrite's `Query::limit`, which serialises
/// `{"method":"limit","values":[<n>]}` with serde_json, writing `n` in decimal.
#[verifier::external_body]
fn limit(n: i64) -> (r: String)
    requires
        n >= 0,
    ensures
        r@ == limit_query(n as nat),
{
    Query::limit(n.into())
}

/// The queries of a top-scores fetch: documents ordered ascending by score,
/// at most `max` of them.
pub fn top_scores_queries(max: usize) -> (r: Vec<String>)
    requires
        max <= i64::MAX,
    ensures
        r@.len() == 2,
        r@[0]@ == order_asc_query("score"@),
        r@[1]@ == limit_query(max as nat),
{
    proof {
        reveal_strlit("score");
        assert(is_plain_attribute("score"@));
    }
    let mut r: Vec<String> = Vec::new();
    r.push(order_asc("score"));
    r.push(limit(max as i64));
    r
}

} // verus!
