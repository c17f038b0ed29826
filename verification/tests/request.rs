use std::sync::Arc;

use webhook_bench::{Context, Request};

#[test]
fn retry_increments_counter_and_shares_everything_else() {
    let context = Arc::new(Context::new(b"body".to_vec(), 3));
    let job = Request::new(
        Arc::clone(&context),
        String::from("http://t.example/"),
        String::from("job-1"),
    );
    let retried = job.clone().into_retry();
    assert_eq!(retried.retry_count, 1);
    assert_eq!(retried.target, "http://t.example/");
    assert_eq!(retried.identity, "job-1");
    assert!(Arc::ptr_eq(&retried.context, &context));
    // the input job is untouched
    assert_eq!(job.retry_count, 0);

    let twice = retried.into_retry();
    assert_eq!(twice.retry_count, 2);
}

#[test]
fn new_request_starts_at_zero_retries() {
    let context = Arc::new(Context::new(Vec::new(), 0));
    let job = Request::new(context, String::from("http://t.example/"), String::from("id"));
    assert_eq!(job.retry_count, 0);
    assert_eq!(job.context.retry_limit, 0);
    assert!(job.context.body.is_empty());
}
