use azure_devops_artifacts::http::Method;
use azure_devops_artifacts::retry::RetryOptions;
use azure_devops_artifacts::Client;

fn client() -> Client {
    Client::new(
        "https://feeds.dev.azure.com".to_string(),
        vec!["https://feeds.dev.azure.com/".to_string()],
        RetryOptions::exponential(),
    )
}

#[test]
fn get_global_permissions_url() {
    let req = client()
        .service_settings_client()
        .get_global_permissions("myorg".to_string())
        .request();
    assert_eq!(req.method, Method::Get);
    assert_eq!(
        req.url,
        "https://feeds.dev.azure.com/myorg/_apis/packaging/globalpermissions?api-version=7.1-preview"
    );
    assert!(req.headers.is_empty());
    assert!(req.body.is_empty());
}

#[test]
fn get_global_permissions_with_include_ids() {
    let req = client()
        .service_settings_client()
        .get_global_permissions("myorg".to_string())
        .include_ids(true)
        .request();
    assert_eq!(
        req.url,
        "https://feeds.dev.azure.com/myorg/_apis/packaging/globalpermissions?api-version=7.1-preview&includeIds=true"
    );
}

#[test]
fn set_global_permissions_carries_json_body() {
    let req = client()
        .service_settings_client()
        .set_global_permissions("myorg".to_string(), b"[{\"role\":1}]".to_vec())
        .request();
    assert_eq!(req.method, Method::Patch);
    assert_eq!(
        req.url,
        "https://feeds.dev.azure.com/myorg/_apis/packaging/globalpermissions?api-version=7.1-preview"
    );
    assert_eq!(
        req.headers,
        vec![("content-type".to_string(), "application/json".to_string())]
    );
    assert_eq!(req.body, b"[{\"role\":1}]".to_vec());
}

#[test]
fn get_feed_changes_all_options() {
    let req = client()
        .change_tracking_client()
        .get_feed_changes("org".to_string(), "proj".to_string())
        .include_deleted(false)
        .continuation_token(-5)
        .batch_size(250)
        .request();
    assert_eq!(
        req.url,
        "https://feeds.dev.azure.com/org/proj/_apis/packaging/feedchanges?api-version=7.1-preview&includeDeleted=false&continuationToken=-5&batchSize=250"
    );
}

#[test]
fn get_package_changes_url() {
    let req = client()
        .change_tracking_client()
        .get_package_changes("org".to_string(), "myfeed".to_string(), "proj".to_string())
        .continuation_token(12345)
        .request();
    assert_eq!(
        req.url,
        "https://feeds.dev.azure.com/org/proj/_apis/packaging/Feeds/myfeed/packagechanges?api-version=7.1-preview&continuationToken=12345"
    );
}

#[test]
fn get_packages_pairs_follow_declaration_order() {
    let req = client()
        .artifact_details_client()
        .get_packages("org".to_string(), "feed".to_string(), "proj".to_string())
        .skip(5)
        .top(10)
        .is_listed(true)
        .protocol_type("npm".to_string())
        .request();
    assert_eq!(
        req.url,
        "https://feeds.dev.azure.com/org/proj/_apis/packaging/Feeds/feed/packages?api-version=7.1-preview&protocolType=npm&isListed=true&%24top=10&%24skip=5"
    );
}

#[test]
fn query_values_are_form_encoded() {
    let req = client()
        .artifact_details_client()
        .get_packages("org".to_string(), "feed".to_string(), "proj".to_string())
        .package_name_query("hello world&x=1".to_string())
        .request();
    assert_eq!(
        req.url,
        "https://feeds.dev.azure.com/org/proj/_apis/packaging/Feeds/feed/packages?api-version=7.1-preview&packageNameQuery=hello+world%26x%3D1"
    );
}

#[test]
fn path_segments_are_spliced_verbatim() {
    let req = client()
        .feed_management_client()
        .get_feed("org".to_string(), "my feed".to_string(), "proj".to_string())
        .request();
    assert_eq!(
        req.url,
        "https://feeds.dev.azure.com/org/proj/_apis/packaging/feeds/my feed?api-version=7.1-preview"
    );
}

#[test]
fn get_feed_permissions_url() {
    let req = client()
        .feed_management_client()
        .get_feed_permissions("org".to_string(), "feed".to_string(), "proj".to_string())
        .include_ids(true)
        .exclude_inherited_permissions(false)
        .identity_descriptor("aad;abc/123=".to_string())
        .request();
    assert_eq!(
        req.url,
        "https://feeds.dev.azure.com/org/proj/_apis/packaging/Feeds/feed/permissions?api-version=7.1-preview&includeIds=true&excludeInheritedPermissions=false&identityDescriptor=aad%3Babc%2F123%3D"
    );
}

#[test]
fn delete_feed_is_a_delete() {
    let req = client()
        .feed_management_client()
        .delete_feed("org".to_string(), "feed".to_string(), "proj".to_string())
        .request();
    assert_eq!(req.method, Method::Delete);
    assert_eq!(
        req.url,
        "https://feeds.dev.azure.com/org/proj/_apis/packaging/feeds/feed?api-version=7.1-preview"
    );
}

#[test]
fn set_retention_policy_is_a_put_with_body() {
    let req = client()
        .retention_policies_client()
        .set_retention_policy(
            "org".to_string(),
            b"{\"countLimit\":10}".to_vec(),
            "feed".to_string(),
            "proj".to_string(),
        )
        .request();
    assert_eq!(req.method, Method::Put);
    assert_eq!(
        req.url,
        "https://feeds.dev.azure.com/org/proj/_apis/packaging/Feeds/feed/retentionpolicies?api-version=7.1-preview"
    );
    assert_eq!(req.body, b"{\"countLimit\":10}".to_vec());
}

#[test]
fn restore_deleted_feed_sends_a_json_patch() {
    let req = client()
        .feed_recycle_bin_client()
        .restore_deleted_feed(
            "org".to_string(),
            b"[{\"op\":\"replace\",\"path\":\"/isDeleted\",\"value\":false}]".to_vec(),
            "feed".to_string(),
            "proj".to_string(),
        )
        .request();
    assert_eq!(req.method, Method::Patch);
    assert_eq!(
        req.url,
        "https://feeds.dev.azure.com/org/proj/_apis/packaging/feedrecyclebin/feed?api-version=7.1-preview"
    );
    assert_eq!(
        req.headers,
        vec![("content-type".to_string(), "application/json-patch+json".to_string())]
    );
    assert_eq!(
        req.body,
        b"[{\"op\":\"replace\",\"path\":\"/isDeleted\",\"value\":false}]".to_vec()
    );
}

#[test]
fn get_recycle_bin_package_version_url() {
    let req = client()
        .recycle_bin_client()
        .get_recycle_bin_package_version(
            "org".to_string(),
            "feed".to_string(),
            "pkg".to_string(),
            "1.0.0".to_string(),
            "proj".to_string(),
        )
        .include_urls(false)
        .request();
    assert_eq!(
        req.url,
        "https://feeds.dev.azure.com/org/proj/_apis/packaging/Feeds/feed/RecycleBin/Packages/pkg/Versions/1.0.0?api-version=7.1-preview&includeUrls=false"
    );
}

#[test]
fn create_session_is_a_post() {
    let req = client()
        .provenance_client()
        .create_session(
            "org".to_string(),
            b"{}".to_vec(),
            "npm".to_string(),
            "proj".to_string(),
        )
        .request();
    assert_eq!(req.method, Method::Post);
    assert_eq!(
        req.url,
        "https://feeds.dev.azure.com/org/proj/_apis/provenance/session/npm?api-version=7.1-preview"
    );
}

#[test]
fn feed_recycle_bin_list_url() {
    let req = client()
        .feed_recycle_bin_client()
        .list("org".to_string(), "proj".to_string())
        .request();
    assert_eq!(
        req.url,
        "https://feeds.dev.azure.com/org/proj/_apis/packaging/feedrecyclebin?api-version=7.1-preview"
    );
}

#[test]
fn get_badge_url() {
    let req = client()
        .artifact_details_client()
        .get_badge("org".to_string(), "feed".to_string(), "pkg".to_string(), "proj".to_string())
        .request();
    assert_eq!(
        req.url,
        "https://feeds.dev.azure.com/org/proj/_apis/public/packaging/Feeds/feed/Packages/pkg/badge?api-version=7.1-preview"
    );
}

#[test]
fn custom_endpoint_flows_into_urls() {
    let client = Client::new(
        "https://feeds.example.test".to_string(),
        vec!["https://feeds.example.test/".to_string()],
        RetryOptions::exponential(),
    );
    let req = client
        .feed_management_client()
        .get_feeds("org".to_string(), "proj".to_string())
        .feed_role("administrator".to_string())
        .include_urls(true)
        .request();
    assert_eq!(
        req.url,
        "https://feeds.example.test/org/proj/_apis/packaging/feeds?api-version=7.1-preview&feedRole=administrator&includeUrls=true"
    );
}
