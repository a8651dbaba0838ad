use dbmazz::sink::curl_loader::{
    CurlStreamLoader, HttpResponse, LoadError, LoadResult, LoadStep, ResponseFields,
};

fn loader() -> CurlStreamLoader {
    CurlStreamLoader::new(
        "http://starrocks:8030/".to_string(),
        "demo".to_string(),
        "root".to_string(),
        "".to_string(),
    )
}

fn answer(code: u32, body: &str) -> HttpResponse {
    HttpResponse { code, headers: Vec::new(), body: body.to_string() }
}

#[test]
fn redirect_to_loopback_is_replayed_at_the_front_end_host() {
    let request = loader().send("orders", &None);
    assert_eq!(request.url, "http://starrocks:8030/api/demo/orders/_stream_load");
    assert_eq!(request.origin_host, "starrocks");
    let response = HttpResponse {
        code: 307,
        headers: vec![
            "HTTP/1.1 307 Temporary Redirect\r\n".to_string(),
            "Location: http://127.0.0.1:8040/api/demo/orders/_stream_load\r\n".to_string(),
        ],
        body: String::new(),
    };
    match CurlStreamLoader::send_sync(&request, &response) {
        LoadStep::Redirect(next) => {
            assert_eq!(next.url, "http://starrocks:8040/api/demo/orders/_stream_load");
            assert_eq!(next.method, "PUT");
            assert_eq!(next.headers, request.headers);
            assert_eq!(next.user, request.user);
            assert_eq!(next.pass, request.pass);
        }
        LoadStep::Done(_) => panic!("the redirect was not followed"),
    }
}

#[test]
fn redirect_elsewhere_is_replayed_as_received() {
    let request = loader().send("orders", &None);
    let response = HttpResponse {
        code: 307,
        headers: vec!["LOCATION:   http://be-3:8040/x  \r\n".to_string()],
        body: String::new(),
    };
    match CurlStreamLoader::send_sync(&request, &response) {
        LoadStep::Redirect(next) => assert_eq!(next.url, "http://be-3:8040/x"),
        LoadStep::Done(_) => panic!("the redirect was not followed"),
    }
}

#[test]
fn last_location_header_wins_and_other_headers_are_passed_over() {
    let lines = vec![
        "Location: http://a/\r\n".to_string(),
        "Content-Location: http://b/\r\n".to_string(),
        "location: http://c/\r\n".to_string(),
        "X-Location: http://d/\r\n".to_string(),
    ];
    assert_eq!(CurlStreamLoader::find_location(&lines), Some("http://c/".to_string()));
    assert_eq!(CurlStreamLoader::find_location(&Vec::new()), None);
    assert_eq!(CurlStreamLoader::location_of("Locatio"), None);
    assert_eq!(CurlStreamLoader::location_of("location:"), Some(String::new()));
}

#[test]
fn redirect_without_location_or_other_status_ends_the_load() {
    let request = loader().send("orders", &None);
    let no_location = answer(307, "{\"Status\":\"Success\",\"NumberLoadedRows\":2}");
    assert_eq!(
        CurlStreamLoader::send_sync(&request, &no_location),
        LoadStep::Done(Ok(LoadResult {
            status: "Success".to_string(),
            loaded_rows: 2,
            message: String::new(),
        }))
    );
    let mut ok = answer(200, "{\"Status\":\"Success\",\"NumberLoadedRows\":2}");
    ok.headers.push("Location: http://127.0.0.1:1/\r\n".to_string());
    assert!(matches!(CurlStreamLoader::send_sync(&request, &ok), LoadStep::Done(Ok(_))));
}

#[test]
fn answers_are_judged_by_http_status_and_load_status() {
    let success = answer(
        200,
        "{\"Status\":\"Success\",\"NumberLoadedRows\":3,\"Message\":\"OK\",\"Other\":[1,2]}",
    );
    assert_eq!(
        CurlStreamLoader::send_to_be(&success),
        Ok(LoadResult { status: "Success".to_string(), loaded_rows: 3, message: "OK".to_string() })
    );
    let publish = answer(200, "{\"Status\":\"Publish Timeout\",\"NumberLoadedRows\":1}");
    assert_eq!(
        CurlStreamLoader::send_to_be(&publish),
        Ok(LoadResult {
            status: "Publish Timeout".to_string(),
            loaded_rows: 1,
            message: String::new(),
        })
    );
    let failed = answer(200, "{\"Status\":\"Fail\",\"Message\":\"too many filtered rows\"}");
    let error = CurlStreamLoader::send_to_be(&failed).unwrap_err();
    assert_eq!(
        error,
        LoadError::Rejected {
            status: "Fail".to_string(),
            message: "too many filtered rows".to_string(),
        }
    );
    assert_eq!(error.message(), "Stream Load failed: Fail - too many filtered rows");
    let http = answer(500, "{\"Status\":\"Success\",\"Message\":\"m\"}");
    let error = CurlStreamLoader::send_to_be(&http).unwrap_err();
    assert_eq!(
        error,
        LoadError::Http { code: 500, status: "Success".to_string(), message: "m".to_string() }
    );
    assert_eq!(error.message(), "HTTP 500: Success - m");
    assert!(CurlStreamLoader::send_to_be(&answer(399, "{\"Status\":\"Success\"}")).is_ok());
    assert!(CurlStreamLoader::send_to_be(&answer(400, "{\"Status\":\"Success\"}")).is_err());
}

#[test]
fn answers_that_are_not_the_expected_json() {
    let not_json = answer(200, "<html>busy</html>");
    assert_eq!(
        CurlStreamLoader::send_to_be(&not_json),
        Err(LoadError::Rejected {
            status: "Unknown".to_string(),
            message: "<html>busy</html>".to_string(),
        })
    );
    let wrong_types = answer(200, "{\"Status\":7,\"NumberLoadedRows\":\"3\",\"Message\":null}");
    assert_eq!(
        CurlStreamLoader::send_to_be(&wrong_types),
        Err(LoadError::Rejected { status: "Unknown".to_string(), message: String::new() })
    );
    let array = answer(200, "[1,2]");
    assert_eq!(
        CurlStreamLoader::send_to_be(&array),
        Err(LoadError::Rejected { status: "Unknown".to_string(), message: String::new() })
    );
    let negative = answer(200, "{\"Status\":\"Success\",\"NumberLoadedRows\":-3}");
    assert_eq!(CurlStreamLoader::send_to_be(&negative).unwrap().loaded_rows, 0);
}

#[test]
fn judging_from_fields_read_elsewhere() {
    let fields = ResponseFields {
        status: Some("Success".to_string()),
        loaded_rows: None,
        message: None,
    };
    assert_eq!(
        LoadResult::from_response(200, "ignored", Some(fields)),
        Ok(LoadResult { status: "Success".to_string(), loaded_rows: 0, message: String::new() })
    );
    assert_eq!(
        LoadResult::from_response(404, "gone", None),
        Err(LoadError::Http {
            code: 404,
            status: "Unknown".to_string(),
            message: "gone".to_string(),
        })
    );
}

#[test]
fn headers_of_full_and_partial_loads() {
    assert_eq!(
        CurlStreamLoader::headers(&None),
        vec![
            "Expect: 100-continue",
            "format: json",
            "strip_outer_array: true",
            "ignore_json_size: true",
            "max_filter_ratio: 0.2",
        ]
    );
    let columns = Some(vec!["id".to_string(), "name".to_string()]);
    assert_eq!(
        CurlStreamLoader::headers(&columns),
        vec![
            "Expect: 100-continue",
            "format: json",
            "strip_outer_array: true",
            "ignore_json_size: true",
            "max_filter_ratio: 0.2",
            "partial_update: true",
            "partial_update_mode: row",
            "columns: id,name",
        ]
    );
    assert_eq!(CurlStreamLoader::headers(&Some(Vec::new()))[7], "columns: ");
}

#[test]
fn host_names_of_urls() {
    assert_eq!(
        CurlStreamLoader::extract_hostname("http://starrocks:8030"),
        Ok("starrocks".to_string())
    );
    assert_eq!(
        CurlStreamLoader::extract_hostname("https://fe.example/api/x"),
        Ok("fe.example".to_string())
    );
    assert_eq!(CurlStreamLoader::extract_hostname("http:///x"), Ok(String::new()));
    assert_eq!(CurlStreamLoader::extract_hostname("starrocks:8030"), Err(LoadError::InvalidUrl));
    assert_eq!(CurlStreamLoader::extract_hostname("http:/x"), Err(LoadError::InvalidUrl));
    assert_eq!(LoadError::InvalidUrl.message(), "Invalid URL format");
}

#[test]
fn first_request_of_a_load() {
    let request = loader().send("orders", &Some(vec!["id".to_string()]));
    assert_eq!(request.method, "PUT");
    assert_eq!(request.url, "http://starrocks:8030/api/demo/orders/_stream_load");
    assert_eq!(request.user, "root");
    assert_eq!(request.pass, "");
    assert_eq!(request.timeout_secs, 30);
    assert_eq!(request.headers.len(), 8);
    let odd = CurlStreamLoader::new("x".to_string(), "d".to_string(), "u".to_string(), "p".to_string());
    assert_eq!(odd.send("t", &None).origin_host, "d");
}
