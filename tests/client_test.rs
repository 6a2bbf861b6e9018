use apod_async_client::{response_action, APODClient, APODClientError, Date, RateLimitInfo, ResponseAction};

#[test]
fn test_build_url() {
    let client = APODClient::new("my_key");
    let url = client.build_url(&Date::Today, false).unwrap();
    assert_eq!(
        "https://api.nasa.gov/planetary/apod?api_key=my_key&hd=false",
        url.as_str()
    )
}

#[test]
fn test_build_url_with_date() {
    let d = Date::Date {
        day: 1,
        month: 6,
        year: 1986,
    };
    let client = APODClient::new("my_key");
    let url = client.build_url(&d, true).unwrap();
    assert_eq!(
        "https://api.nasa.gov/planetary/apod?api_key=my_key&hd=true&date=1986-06-01",
        url.as_str()
    )
}

#[test]
fn configured_base_url_is_used() {
    let client = APODClient::config("http://127.0.0.1:1234/apod", "MYKEY");
    let url = client.build_url(&Date::Today, true).unwrap();
    assert_eq!("http://127.0.0.1:1234/apod?api_key=MYKEY&hd=true", url.as_str())
}

#[test]
fn api_key_is_form_encoded() {
    let client = APODClient::new("my key&x=1");
    let url = client.build_url(&Date::Today, false).unwrap();
    assert_eq!(
        "https://api.nasa.gov/planetary/apod?api_key=my+key%26x%3D1&hd=false",
        url.as_str()
    )
}

#[test]
fn unparsable_base_url_is_invalid_url() {
    let client = APODClient::config("not a url", "my_key");
    let err = client.build_url(&Date::Today, false).err().unwrap();
    assert!(matches!(err, APODClientError::InvalidURL { .. }))
}

#[test]
fn query_pairs_are_in_order() {
    let client = APODClient::new("k");
    let d = Date::Date {
        day: 2,
        month: 3,
        year: 2004,
    };
    let pairs = client.query_pairs(&d, true);
    assert_eq!(
        pairs,
        vec![
            ("api_key".to_owned(), "k".to_owned()),
            ("hd".to_owned(), "true".to_owned()),
            ("date".to_owned(), "2004-03-02".to_owned()),
        ]
    );
    let pairs = client.query_pairs(&Date::Today, false);
    assert_eq!(
        pairs,
        vec![
            ("api_key".to_owned(), "k".to_owned()),
            ("hd".to_owned(), "false".to_owned()),
        ]
    );
}

#[test]
fn successful_response_with_quota_reads_body() {
    let info = RateLimitInfo {
        remaining: 42,
        limit: 100,
    };
    assert_eq!(response_action(&info, 200), ResponseAction::DecodeBody);
}

#[test]
fn forbidden_response_is_status_error() {
    let info = RateLimitInfo {
        remaining: 42,
        limit: 100,
    };
    assert_eq!(
        response_action(&info, 403),
        ResponseAction::StatusFailed { status: 403 }
    );
}

#[test]
fn server_error_is_status_error() {
    let info = RateLimitInfo {
        remaining: -1,
        limit: -1,
    };
    assert_eq!(
        response_action(&info, 599),
        ResponseAction::StatusFailed { status: 599 }
    );
    assert_eq!(
        response_action(&info, 399),
        ResponseAction::StatusFailed { status: 399 }
    );
    assert_eq!(
        response_action(&info, 600),
        ResponseAction::StatusFailed { status: 600 }
    );
}

#[test]
fn non_success_statuses_outside_errors_are_status_errors() {
    let info = RateLimitInfo {
        remaining: 42,
        limit: 100,
    };
    assert_eq!(
        response_action(&info, 304),
        ResponseAction::StatusFailed { status: 304 }
    );
    assert_eq!(
        response_action(&info, 101),
        ResponseAction::StatusFailed { status: 101 }
    );
    assert_eq!(
        response_action(&info, 199),
        ResponseAction::StatusFailed { status: 199 }
    );
    assert_eq!(
        response_action(&info, 300),
        ResponseAction::StatusFailed { status: 300 }
    );
}

#[test]
fn every_success_status_reads_body() {
    let info = RateLimitInfo {
        remaining: 1,
        limit: 100,
    };
    assert_eq!(response_action(&info, 200), ResponseAction::DecodeBody);
    assert_eq!(response_action(&info, 204), ResponseAction::DecodeBody);
    assert_eq!(response_action(&info, 299), ResponseAction::DecodeBody);
}

#[test]
fn exhausted_quota_comes_before_status() {
    let info = RateLimitInfo {
        remaining: 0,
        limit: 100,
    };
    assert_eq!(response_action(&info, 200), ResponseAction::RateLimited);
    assert_eq!(response_action(&info, 403), ResponseAction::RateLimited);
    assert_eq!(response_action(&info, 500), ResponseAction::RateLimited);
}
