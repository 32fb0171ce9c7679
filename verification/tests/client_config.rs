use azure_devops_artifacts::retry::RetryMode;
use azure_devops_artifacts::retry::RetryOptions;
use azure_devops_artifacts::Client;
use azure_devops_artifacts::ClientBuilder;

#[test]
fn build_defaults() {
    let client = ClientBuilder::new().build();
    assert_eq!(client.endpoint, "https://feeds.dev.azure.com");
    assert_eq!(client.scopes, vec!["https://feeds.dev.azure.com/".to_string()]);
    assert_eq!(client.retry, RetryOptions::exponential());
}

#[test]
fn build_with_everything_set() {
    let client = ClientBuilder::new()
        .endpoint("https://feeds.example.test".to_string())
        .scopes(vec!["https://feeds.example.test/.default".to_string()])
        .retry(RetryOptions::off())
        .build();
    assert_eq!(client.endpoint, "https://feeds.example.test");
    assert_eq!(client.scopes, vec!["https://feeds.example.test/.default".to_string()]);
    assert_eq!(client.retry.mode, RetryMode::Off);
}

#[test]
fn default_scope_follows_custom_endpoint() {
    let client = ClientBuilder::new().endpoint("https://alt.example.test".to_string()).build();
    assert_eq!(client.scopes, vec!["https://alt.example.test/".to_string()]);
}

#[test]
fn client_new_keeps_settings() {
    let client = Client::new(
        "https://feeds.dev.azure.com".to_string(),
        vec!["a".to_string(), "b".to_string()],
        RetryOptions::fixed(),
    );
    assert_eq!(client.endpoint(), "https://feeds.dev.azure.com");
    assert_eq!(client.scopes(), &vec!["a".to_string(), "b".to_string()]);
    assert_eq!(client.retry.mode, RetryMode::Fixed);
}

#[test]
fn clone_keeps_settings() {
    let client = Client::new(
        "https://feeds.dev.azure.com".to_string(),
        vec!["scope".to_string()],
        RetryOptions::exponential(),
    );
    let copy = client.clone();
    assert_eq!(copy.endpoint, client.endpoint);
    assert_eq!(copy.scopes, client.scopes);
    assert_eq!(copy.retry, client.retry);
}
