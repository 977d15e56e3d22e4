use http_load_tester::scenario::{
    build_scenario, client_settings, math_workload, static_workload, strings_workload, GetRequest,
    EASY_SIZE, HARD_SIZE, LINES_COUNT, LONG_NAME_LEN, REQUEST_TIMEOUT_SECS,
};

fn get(path: &str, name: &str) -> GetRequest {
    GetRequest { path: path.to_string(), name: name.to_string() }
}

#[test]
fn settings_with_compression() {
    let settings = client_settings(true);
    assert_eq!(settings.user_agent, "http-load-tester/0.0.1");
    assert!(settings.cookie_store);
    assert!(settings.gzip);
    assert!(settings.brotli);
    assert_eq!(settings.timeout_secs, 10);
}

#[test]
fn settings_without_compression() {
    let settings = client_settings(false);
    assert_eq!(settings.user_agent, "http-load-tester/0.0.1");
    assert!(settings.cookie_store);
    assert!(!settings.gzip);
    assert!(!settings.brotli);
    assert_eq!(settings.timeout_secs, 10);
}

#[test]
fn fixed_values() {
    assert_eq!(REQUEST_TIMEOUT_SECS, 10);
    assert_eq!(LONG_NAME_LEN, 499);
    assert_eq!(LINES_COUNT, 10000);
    assert_eq!(EASY_SIZE, 1000);
    assert_eq!(HARD_SIZE, 10000000);
}

#[test]
fn strings_requests() {
    let behavior = strings_workload();
    assert_eq!(behavior.name, "strings");
    assert_eq!(behavior.requests.len(), 5);
    assert_eq!(behavior.requests[0], get("/strings/hello", "hello"));
    assert_eq!(behavior.requests[1], get("/strings/hello?name=cool%20gal", "hello-param"));
    assert_eq!(behavior.requests[2].name, "hello-compressed");
    assert_eq!(behavior.requests[3], get("/strings/async-hello", "async-hello"));
    assert_eq!(behavior.requests[4], get("/strings/lines?n=10000", "lines"));
}

#[test]
fn long_name_request() {
    let behavior = strings_workload();
    let path = &behavior.requests[2].path;
    let prefix = "/strings/hello?name=";
    assert!(path.starts_with(prefix));
    let name = &path[prefix.len()..];
    assert_eq!(name.len(), 499);
    assert!(name.chars().all(|c| c == 'a'));
    assert_eq!(path.len(), 519);
}

#[test]
fn static_requests() {
    let behavior = static_workload();
    assert_eq!(behavior.name, "static");
    assert_eq!(
        behavior.requests,
        vec![get("/static/basic.html", "basic-html"), get("/static/scout.webp", "scout-img")]
    );
}

#[test]
fn math_requests() {
    let behavior = math_workload();
    assert_eq!(behavior.name, "math");
    assert_eq!(
        behavior.requests,
        vec![
            get("/math/power-reciprocals-alt?n=1000", "power-sum-easy"),
            get("/math/power-reciprocals-alt?n=10000000", "power-sum-hard"),
        ]
    );
}

#[test]
fn scenario_with_compression_accepts_both_encodings() {
    let scenario = build_scenario(true);
    assert_eq!(scenario.name, "WithCompression");
    assert!(scenario.setup.gzip && scenario.setup.brotli);
    assert_eq!(scenario.setup, client_settings(true));
}

#[test]
fn scenario_without_compression_refuses_both_encodings() {
    let scenario = build_scenario(false);
    assert_eq!(scenario.name, "NoCompression");
    assert!(!scenario.setup.gzip && !scenario.setup.brotli);
    assert_eq!(scenario.setup, client_settings(false));
}

#[test]
fn workloads_are_the_same_in_both_modes() {
    let with = build_scenario(true);
    let without = build_scenario(false);
    assert_eq!(with.workloads, without.workloads);
    assert_eq!(with.workloads, vec![strings_workload(), static_workload(), math_workload()]);
    let names: Vec<&str> = with.workloads.iter().map(|b| b.name.as_str()).collect();
    assert_eq!(names, vec!["strings", "static", "math"]);
}

#[test]
fn scenario_is_rebuilt_identically() {
    assert_eq!(build_scenario(true), build_scenario(true));
    assert_eq!(build_scenario(false), build_scenario(false));
    assert_ne!(build_scenario(true), build_scenario(false));
}

#[test]
fn request_names_are_distinct_and_differ_from_paths() {
    let scenario = build_scenario(true);
    let mut names: Vec<String> = Vec::new();
    for behavior in scenario.workloads.iter() {
        for request in behavior.requests.iter() {
            assert_ne!(request.name, request.path);
            assert!(request.path.starts_with('/'));
            assert!(!names.contains(&request.name));
            names.push(request.name.clone());
        }
    }
    assert_eq!(names.len(), 9);
}
