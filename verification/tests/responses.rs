use azure_devops_artifacts::http::interpret_response;
use azure_devops_artifacts::http::ApiError;

#[test]
fn an_ok_response_hands_back_its_body() {
    let body = b"{\"count\":0,\"value\":[]}".to_vec();
    assert_eq!(interpret_response(200, body.clone()), Ok(body));
}

#[test]
fn every_other_status_becomes_the_error_that_carries_it() {
    for status in [201u16, 204, 301, 400, 401, 403, 404, 429, 500, 503] {
        assert_eq!(
            interpret_response(status, b"ignored".to_vec()),
            Err(ApiError::HttpResponse { status, error_code: None })
        );
    }
}
