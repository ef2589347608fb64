use leaderboard_updater::query::top_scores_queries;

#[test]
fn top_scores_query_orders_ascending_and_limits() {
    let q = top_scores_queries(5);
    assert_eq!(q.len(), 2);
    assert_eq!(q[0], r#"{"method":"orderAsc","attribute":"score"}"#);
    assert_eq!(q[1], r#"{"method":"limit","values":[5]}"#);
}

#[test]
fn limit_query_writes_the_limit_in_decimal() {
    let q = top_scores_queries(120);
    assert_eq!(q[1], r#"{"method":"limit","values":[120]}"#);
    let q = top_scores_queries(0);
    assert_eq!(q[1], r#"{"method":"limit","values":[0]}"#);
}
