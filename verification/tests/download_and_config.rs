use pixiv_fetch::download::{download_step_model, AssetOutcome};
use pixiv_fetch::errors::PipelineError;
use pixiv_fetch::Config;

#[test]
fn download_then_retry_skips_without_refetch() {
    let mut store: Vec<String> = Vec::new();
    let dest = "downloads/All/Foo_abc_p0.png".to_string();
    let first = download_step_model(&mut store, &dest, 200);
    assert_eq!(first, Ok(AssetOutcome::Downloaded));
    assert_eq!(store, vec![dest.clone()]);
    // The second run sees the destination present and never looks at the
    // status a fetch would have answered.
    let second = download_step_model(&mut store, &dest, 500);
    assert_eq!(second, Ok(AssetOutcome::Skipped));
    assert_eq!(store, vec![dest]);
}

#[test]
fn existing_destination_is_skipped() {
    let dest = "downloads/All/a.png".to_string();
    let mut store = vec![dest.clone()];
    assert_eq!(download_step_model(&mut store, &dest, 200), Ok(AssetOutcome::Skipped));
    assert_eq!(store.len(), 1);
}

#[test]
fn failed_fetch_writes_nothing() {
    let mut store: Vec<String> = Vec::new();
    let dest = "downloads/All/b.png".to_string();
    assert_eq!(
        download_step_model(&mut store, &dest, 500),
        Err(PipelineError::Upstream(500))
    );
    assert!(store.is_empty());
    assert_eq!(
        download_step_model(&mut store, &dest, 429),
        Err(PipelineError::RateLimited)
    );
    assert!(store.is_empty());
}

#[test]
fn config_requires_nonempty_credential() {
    assert!(Config::new(String::new(), "acct".to_string()).is_none());
    let c = Config::new("token".to_string(), "acct".to_string()).unwrap();
    assert_eq!(c.credential, "token");
    assert_eq!(c.account, "acct");
}
