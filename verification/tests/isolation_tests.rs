use jaya::error::isolate;
use jaya::error::ContentType;
use jaya::error::ErrorTemplate;
use jaya::error::Outcome;
use jaya::error::Reply;

fn page(t: &ErrorTemplate) -> Result<String, String> {
    Ok(format!("{} {}: {}", t.code, t.error.message(), t.error.details))
}

/// What a task left behind when it ended abnormally, where it is a text.
fn payload_text(payload: Box<dyn std::any::Any + Send>) -> Option<String> {
    match payload.downcast::<String>() {
        Ok(text) => Some(*text),
        Err(payload) => payload.downcast::<&'static str>().ok().map(|text| text.to_string()),
    }
}

/// Awaits a handling task and names what came of it.
async fn outcome_of(task: tokio::task::JoinHandle<Reply>) -> Outcome {
    match task.await {
        Ok(reply) => Outcome::Handled(reply),
        Err(failure) => match failure.try_into_panic() {
            Ok(payload) => Outcome::Aborted(payload_text(payload)),
            Err(_) => Outcome::Aborted(None),
        },
    }
}

#[test]
fn a_task_that_panics_leaves_the_task_beside_it_and_the_worker_alone() {
    let runtime = tokio::runtime::Builder::new_multi_thread()
        .worker_threads(2)
        .enable_all()
        .build()
        .unwrap();
    let (failed, fine) = runtime.block_on(async {
        let failing: tokio::task::JoinHandle<Reply> = tokio::spawn(async {
            tokio::task::yield_now().await;
            panic!("handler always fails")
        });
        let succeeding = tokio::spawn(async {
            tokio::task::yield_now().await;
            Reply { status: 200, content_type: ContentType::Html, body: "<p>fine</p>".to_string() }
        });
        let failed = isolate(outcome_of(failing).await, page);
        let fine = isolate(outcome_of(succeeding).await, page);
        (failed, fine)
    });
    assert_eq!(failed.status, 500);
    assert_eq!(failed.body, "500 Panic: handler always fails");
    assert_eq!(fine.status, 200);
    assert_eq!(fine.content_type, ContentType::Html);
    assert_eq!(fine.body, "<p>fine</p>");

    let after = runtime.block_on(async {
        tokio::spawn(async { 7 }).await.unwrap()
    });
    assert_eq!(after, 7);
}
