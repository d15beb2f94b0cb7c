use wolfram_client::params::{
    query_pairs, ReqArgs, DEFAULT_APPID, DEFAULT_PODSTATE, DEFAULT_TIMEOUT, ENDPOINT,
};

fn owned(pairs: &[(&str, &str)]) -> Vec<(String, String)> {
    pairs.iter().map(|(k, v)| (k.to_string(), v.to_string())).collect()
}

#[test]
fn the_endpoint_is_the_query_address() {
    assert_eq!(ENDPOINT, "https://api.wolframalpha.com/v2/query");
}

#[test]
fn new_arguments_have_the_defaults() {
    let args = ReqArgs::new("integrate x^2".to_string());
    assert_eq!(args.input, "integrate x^2");
    assert!(!args.interactive);
    assert_eq!(args.podstate, "Step-by-step solution");
    assert_eq!(args.totaltimeout, 30);
    assert_eq!(args.podtimeout, 30);
    assert_eq!(args.formattimeout, 30);
    assert_eq!(args.parsetimeout, 30);
    assert_eq!(args.scantimeout, 30);
    assert_eq!(args.appid, DEFAULT_APPID);
    assert!(args.reinterpret);
    assert_eq!(DEFAULT_PODSTATE, "Step-by-step solution");
    assert_eq!(DEFAULT_TIMEOUT, 30);
}

#[test]
fn default_query_has_every_parameter_in_order() {
    let args = ReqArgs::new("2+2".to_string());
    assert_eq!(
        query_pairs(&args),
        owned(&[
            ("output", "json"),
            ("input", "2+2"),
            ("podstate", "Step-by-step solution"),
            ("totaltimeout", "30"),
            ("podtimeout", "30"),
            ("formattimeout", "30"),
            ("parsetimeout", "30"),
            ("scantimeout", "30"),
            ("appid", DEFAULT_APPID),
            ("reinterpret", "true"),
        ])
    );
}

#[test]
fn query_carries_each_argument_under_its_own_name() {
    let args = ReqArgs {
        input: "population of France".to_string(),
        interactive: true,
        podstate: "Result__More".to_string(),
        totaltimeout: 1,
        podtimeout: 20,
        formattimeout: 0,
        parsetimeout: 255,
        scantimeout: 100,
        appid: "DEMO".to_string(),
        reinterpret: false,
    };
    assert_eq!(
        query_pairs(&args),
        owned(&[
            ("output", "json"),
            ("input", "population of France"),
            ("podstate", "Result__More"),
            ("totaltimeout", "1"),
            ("podtimeout", "20"),
            ("formattimeout", "0"),
            ("parsetimeout", "255"),
            ("scantimeout", "100"),
            ("appid", "DEMO"),
            ("reinterpret", "false"),
        ])
    );
}

#[test]
fn query_values_are_not_escaped() {
    let args = ReqArgs::new("a b&c=d?\n".to_string());
    let pairs = query_pairs(&args);
    assert_eq!(pairs[1], ("input".to_string(), "a b&c=d?\n".to_string()));
}

#[test]
fn another_input_changes_the_input_parameter_alone() {
    let mut args = ReqArgs::new("first".to_string());
    args.totaltimeout = 12;
    let before = query_pairs(&args);
    args.input = "  second \n".to_string();
    let after = query_pairs(&args);
    assert_eq!(after.len(), before.len());
    for k in 0..before.len() {
        if k == 1 {
            assert_eq!(after[k], ("input".to_string(), "  second \n".to_string()));
        } else {
            assert_eq!(after[k], before[k]);
        }
    }
}

#[test]
fn the_request_has_the_documented_address() {
    let args = ReqArgs::new("2+2 = ?".to_string());
    let request = reqwest::blocking::Client::new()
        .get(ENDPOINT)
        .query(&query_pairs(&args))
        .build()
        .unwrap();
    assert_eq!(request.method(), &reqwest::Method::GET);
    assert_eq!(
        request.url().as_str(),
        format!(
            "https://api.wolframalpha.com/v2/query?output=json&input=2%2B2+%3D+%3F\
             &podstate=Step-by-step+solution&totaltimeout=30&podtimeout=30\
             &formattimeout=30&parsetimeout=30&scantimeout=30&appid={}&reinterpret=true",
            DEFAULT_APPID
        )
    );
}
