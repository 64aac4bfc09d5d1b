use cf_stats_exporter::status::{is_success, status_line};
use cf_stats_exporter::{
    read_reply, CfClient, CfFetchOptions, CfStatusMetric, FetchError, Header, HttpReply,
    PostRequest,
};

fn options<'a>() -> CfFetchOptions<'a> {
    CfFetchOptions {
        zone_id: "zone-1",
        start_date: "2025-12-17T15:00:00Z",
        end_date: "2025-12-18T15:00:00Z",
        limit: 10,
    }
}

fn answered(status: u16, body: &str) -> HttpReply {
    HttpReply::Answered { status, body: body.as_bytes().to_vec() }
}

#[test]
fn fetch_metrics_returns_the_groups_of_a_well_formed_envelope() {
    let client = CfClient::new("token".to_string());
    let outcome = client.fetch_metrics(options(), |_request| {
        answered(
            200,
            r#"{"data":{"viewer":{"zones":[{"httpRequestsAdaptiveGroups":[
                {"count":120,"dimensions":{"edgeResponseStatus":200}},
                {"count":5,"dimensions":{"edgeResponseStatus":404}}]}]}}}"#,
        )
    });
    assert_eq!(
        outcome,
        Ok(vec![
            CfStatusMetric { status: 200, count: 120 },
            CfStatusMetric { status: 404, count: 5 },
        ])
    );
}

#[test]
fn fetch_metrics_fails_on_an_envelope_without_zones() {
    let client = CfClient::new("token".to_string());
    let outcome =
        client.fetch_metrics(options(), |_request| answered(200, r#"{"data":{"viewer":{"zones":[]}}}"#));
    assert_eq!(outcome, Err(FetchError::EmptyZones));
}

#[test]
fn fetch_metrics_fails_with_the_status_and_leaves_the_body_alone() {
    let client = CfClient::new("token".to_string());
    let outcome = client.fetch_metrics(options(), |_request| answered(401, "this is no JSON"));
    assert_eq!(outcome, Err(FetchError::HttpStatus(401)));
    let outcome = client.fetch_metrics(options(), |_request| {
        answered(
            401,
            r#"{"data":{"viewer":{"zones":[{"httpRequestsAdaptiveGroups":[
                {"count":120,"dimensions":{"edgeResponseStatus":200}}]}]}}}"#,
        )
    });
    assert_eq!(outcome, Err(FetchError::HttpStatus(401)));
}

#[test]
fn fetch_metrics_passes_a_transport_failure_on() {
    let client = CfClient::new("token".to_string());
    let outcome = client.fetch_metrics(options(), |_request| HttpReply::Failed {
        reason: "connection refused".to_string(),
    });
    assert_eq!(outcome, Err(FetchError::Transport("connection refused".to_string())));
}

#[test]
fn fetch_metrics_fails_to_decode_a_body_of_another_shape() {
    let client = CfClient::new("token".to_string());
    let outcome = client.fetch_metrics(options(), |_request| answered(200, "[1, 2, 3]"));
    assert_eq!(outcome, Err(FetchError::Decode));
    let outcome = client.fetch_metrics(options(), |_request| answered(200, "{"));
    assert_eq!(outcome, Err(FetchError::Decode));
}

#[test]
fn fetch_metrics_sends_the_request_once() {
    let client = CfClient::new("token".to_string());
    let mut seen: Vec<PostRequest> = Vec::new();
    let outcome = client.fetch_metrics(options(), |request| {
        seen.push(request);
        answered(204, "")
    });
    assert_eq!(outcome, Err(FetchError::Decode));
    assert_eq!(seen.len(), 1);
    assert_eq!(seen[0], client.request(&options()));
}

#[test]
fn client_can_be_used_again() {
    let client = CfClient::new("token".to_string());
    let first = client.fetch_metrics(options(), |_request| answered(500, ""));
    assert_eq!(first, Err(FetchError::HttpStatus(500)));
    let second = client.fetch_metrics(options(), |_request| {
        answered(200, r#"{"data":{"viewer":{"zones":[{"httpRequestsAdaptiveGroups":[]}]}}}"#)
    });
    assert_eq!(second, Ok(vec![]));
}

#[test]
fn request_goes_to_the_endpoint_with_the_three_headers() {
    let client = CfClient::new("s3cr3t".to_string());
    let request = client.request(&options());
    assert_eq!(request.url, "https://api.cloudflare.com/client/v4/graphql");
    assert_eq!(
        request.headers,
        vec![
            Header { name: "User-Agent".to_string(), value: "cf-stats-exporter/1.0".to_string() },
            Header { name: "Content-Type".to_string(), value: "application/json".to_string() },
            Header { name: "Authorization".to_string(), value: "Bearer s3cr3t".to_string() },
        ]
    );
    assert_eq!(request.body, cf_stats_exporter::build_query(&options()));
}

#[test]
fn success_is_the_range_from_200_to_299() {
    assert!(!is_success(0));
    assert!(!is_success(199));
    assert!(is_success(200));
    assert!(is_success(204));
    assert!(is_success(299));
    assert!(!is_success(300));
    assert!(!is_success(401));
    assert!(!is_success(65535));
}

#[test]
fn every_status_outside_the_range_is_an_error() {
    for status in [100u16, 199, 300, 304, 404, 429, 500, 503, 999] {
        assert_eq!(read_reply(answered(status, "{}")), Err(FetchError::HttpStatus(status)));
    }
    for status in [200u16, 201, 299] {
        assert_eq!(read_reply(answered(status, "{}")), Err(FetchError::Decode));
    }
}

#[test]
fn status_is_written_with_its_reason() {
    assert_eq!(status_line(200), "200 OK");
    assert_eq!(status_line(401), "401 Unauthorized");
    assert_eq!(status_line(404), "404 Not Found");
    assert_eq!(status_line(503), "503 Service Unavailable");
    assert_eq!(status_line(599), "599 <unknown status code>");
    assert_eq!(status_line(99), "99 <unknown status code>");
    assert_eq!(status_line(1000), "1000 <unknown status code>");
    assert_eq!(status_line(401), reqwest::StatusCode::UNAUTHORIZED.to_string());
    assert_eq!(status_line(599), reqwest::StatusCode::from_u16(599).unwrap().to_string());
}

#[test]
fn each_error_has_its_message() {
    assert_eq!(
        FetchError::Transport("error sending request".to_string()).message(),
        "error sending request"
    );
    assert_eq!(
        FetchError::HttpStatus(401).message(),
        "HTTP request failed with status: 401 Unauthorized"
    );
    assert_eq!(
        FetchError::HttpStatus(500).message(),
        "HTTP request failed with status: 500 Internal Server Error"
    );
    assert_eq!(FetchError::Decode.message(), "error decoding response body");
    assert_eq!(FetchError::EmptyZones.message(), "No zones in response");
}
