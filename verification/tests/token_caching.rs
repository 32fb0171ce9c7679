use azure_devops_artifacts::token_cache::TokenAction;
use azure_devops_artifacts::token_cache::TokenCache;

#[test]
fn the_first_caller_fetches_and_the_rest_wait() {
    let mut cache = TokenCache::new();
    assert_eq!(cache.acquire(1000), TokenAction::BeginRefresh);
    assert_eq!(cache.acquire(1001), TokenAction::Await);
    assert_eq!(cache.acquire(1002), TokenAction::Await);
    cache.complete_refresh("tok-1".to_string(), 5000);
    assert_eq!(cache.acquire(1003), TokenAction::UseCached("tok-1".to_string()));
}

#[test]
fn a_valid_token_is_reused_until_it_expires() {
    let mut cache = TokenCache::new();
    assert_eq!(cache.acquire(0), TokenAction::BeginRefresh);
    cache.complete_refresh("tok".to_string(), 300);
    assert_eq!(cache.acquire(299), TokenAction::UseCached("tok".to_string()));
    assert_eq!(cache.acquire(300), TokenAction::BeginRefresh);
}

#[test]
fn a_failed_refresh_lets_the_next_caller_try_again() {
    let mut cache = TokenCache::new();
    assert_eq!(cache.acquire(0), TokenAction::BeginRefresh);
    cache.fail_refresh();
    assert_eq!(cache.acquire(1), TokenAction::BeginRefresh);
}

#[test]
fn a_refresh_after_expiry_replaces_the_token() {
    let mut cache = TokenCache::new();
    assert_eq!(cache.acquire(0), TokenAction::BeginRefresh);
    cache.complete_refresh("old".to_string(), 100);
    assert_eq!(cache.acquire(100), TokenAction::BeginRefresh);
    cache.complete_refresh("new".to_string(), 900);
    assert_eq!(cache.acquire(101), TokenAction::UseCached("new".to_string()));
}
