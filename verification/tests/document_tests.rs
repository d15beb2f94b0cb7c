use serde_json::{Number, Value};
use wolfram_client::document::{document_from_value, response_to_json, Pod, ResultDocument, Subpod};

fn text(s: &str) -> Option<String> {
    Some(s.to_string())
}

#[test]
fn decodes_a_full_response() {
    let body = r#"{
        "queryresult": {
            "success": true,
            "numpods": 2,
            "pods": [
                {"title": "Input", "numsubpods": 1, "subpods": [{"plaintext": "2 + 2"}]},
                {"title": "Result", "numsubpods": 2,
                 "subpods": [{"plaintext": "4"}, {"img": "x.gif"}]}
            ]
        }
    }"#;
    let doc = response_to_json(body).unwrap();
    assert_eq!(
        doc,
        ResultDocument {
            numpods: Some(2),
            pods: vec![
                Pod {
                    title: text("Input"),
                    numsubpods: Some(1),
                    subpods: vec![Subpod { plaintext: text("2 + 2") }],
                },
                Pod {
                    title: text("Result"),
                    numsubpods: Some(2),
                    subpods: vec![Subpod { plaintext: text("4") }, Subpod { plaintext: None }],
                },
            ],
        }
    );
}

#[test]
fn a_body_that_is_not_json_is_a_decode_error() {
    assert!(response_to_json("").is_err());
    assert!(response_to_json("<html>busy</html>").is_err());
    assert!(response_to_json("{\"queryresult\": ").is_err());
    assert!(response_to_json("{} trailing").is_err());
}

#[test]
fn a_decode_error_describes_itself() {
    let error = response_to_json("{\"a\": }").unwrap_err();
    assert!(!error.message.is_empty());
}

#[test]
fn json_of_another_shape_is_an_empty_document() {
    let empty = ResultDocument { numpods: None, pods: vec![] };
    assert_eq!(response_to_json("{}").unwrap(), empty);
    assert_eq!(response_to_json("null").unwrap(), empty);
    assert_eq!(response_to_json("[1, 2, 3]").unwrap(), empty);
    assert_eq!(response_to_json("\"queryresult\"").unwrap(), empty);
    assert_eq!(response_to_json("{\"queryresult\": 7}").unwrap(), empty);
    assert_eq!(response_to_json("{\"numpods\": 3, \"pods\": [{}]}").unwrap(), empty);
}

#[test]
fn a_count_that_is_no_unsigned_integer_is_absent() {
    for count in ["\"2\"", "-1", "2.0", "2.5", "1e2", "true", "null", "[2]", "{}"] {
        let body = format!("{{\"queryresult\": {{\"numpods\": {}}}}}", count);
        let doc = response_to_json(&body).unwrap();
        assert_eq!(doc.numpods, None);
    }
}

#[test]
fn a_count_may_be_as_large_as_the_type() {
    let doc = response_to_json("{\"queryresult\": {\"numpods\": 18446744073709551615}}").unwrap();
    assert_eq!(doc.numpods, Some(u64::MAX));
    let doc = response_to_json("{\"queryresult\": {\"numpods\": 0}}").unwrap();
    assert_eq!(doc.numpods, Some(0));
}

#[test]
fn pods_that_are_no_array_are_no_pods() {
    let doc = response_to_json(
        "{\"queryresult\": {\"numpods\": 1, \"pods\": {\"0\": {\"title\": \"x\"}}}}",
    )
    .unwrap();
    assert_eq!(doc, ResultDocument { numpods: Some(1), pods: vec![] });
}

#[test]
fn every_carried_pod_is_kept_whatever_the_count_says() {
    let doc = response_to_json(
        "{\"queryresult\": {\"numpods\": 1, \"pods\": [{\"title\": \"a\"}, {\"title\": \"b\"}, 5]}}",
    )
    .unwrap();
    assert_eq!(
        doc,
        ResultDocument {
            numpods: Some(1),
            pods: vec![
                Pod { title: text("a"), numsubpods: None, subpods: vec![] },
                Pod { title: text("b"), numsubpods: None, subpods: vec![] },
                Pod { title: None, numsubpods: None, subpods: vec![] },
            ],
        }
    );
}

#[test]
fn fields_of_another_kind_are_absent() {
    let doc = response_to_json(
        "{\"queryresult\": {\"pods\": [{\"title\": 3, \"numsubpods\": \"1\", \
         \"subpods\": [{\"plaintext\": null}, {\"plaintext\": [\"x\"]}, \"y\"]}]}}",
    )
    .unwrap();
    assert_eq!(
        doc,
        ResultDocument {
            numpods: None,
            pods: vec![Pod {
                title: None,
                numsubpods: None,
                subpods: vec![
                    Subpod { plaintext: None },
                    Subpod { plaintext: None },
                    Subpod { plaintext: None },
                ],
            }],
        }
    );
}

#[test]
fn strings_are_decoded_with_their_escapes() {
    let doc = response_to_json(
        "{\"queryresult\": {\"pods\": [{\"title\": \"a\\n\\u00e9\\\"b\", \"subpods\": [{\"plaintext\": \"\"}]}]}}",
    )
    .unwrap();
    assert_eq!(doc.pods[0].title, text("a\n\u{e9}\"b"));
    assert_eq!(doc.pods[0].subpods[0].plaintext, text(""));
}

#[test]
fn a_later_member_of_the_same_name_wins() {
    let doc = response_to_json(
        "{\"queryresult\": {\"numpods\": 1}, \"queryresult\": {\"numpods\": 4}}",
    )
    .unwrap();
    assert_eq!(doc.numpods, Some(4));
}

#[test]
fn reads_a_document_from_a_value_built_by_hand() {
    let mut subpod = serde_json::Map::new();
    subpod.insert("plaintext".to_string(), Value::String("x = 1".to_string()));
    let mut pod = serde_json::Map::new();
    pod.insert("title".to_string(), Value::String("Solution".to_string()));
    pod.insert("numsubpods".to_string(), Value::Number(Number::from(1u64)));
    pod.insert("subpods".to_string(), Value::Array(vec![Value::Object(subpod)]));
    let mut result = serde_json::Map::new();
    result.insert("numpods".to_string(), Value::Number(Number::from(1u64)));
    result.insert("pods".to_string(), Value::Array(vec![Value::Object(pod)]));
    let mut root = serde_json::Map::new();
    root.insert("queryresult".to_string(), Value::Object(result));
    let doc = document_from_value(&Value::Object(root));
    assert_eq!(
        doc,
        ResultDocument {
            numpods: Some(1),
            pods: vec![Pod {
                title: text("Solution"),
                numsubpods: Some(1),
                subpods: vec![Subpod { plaintext: text("x = 1") }],
            }],
        }
    );
}

#[test]
fn reads_an_empty_document_from_values_without_members() {
    let empty = ResultDocument { numpods: None, pods: vec![] };
    assert_eq!(document_from_value(&Value::Null), empty);
    assert_eq!(document_from_value(&Value::Bool(true)), empty);
    assert_eq!(document_from_value(&Value::String("queryresult".to_string())), empty);
    assert_eq!(document_from_value(&Value::Array(vec![])), empty);
    assert_eq!(document_from_value(&Value::Object(serde_json::Map::new())), empty);
}

#[test]
fn a_negative_count_in_a_value_is_absent() {
    let mut result = serde_json::Map::new();
    result.insert("numpods".to_string(), Value::Number(Number::from(-3i64)));
    let mut root = serde_json::Map::new();
    root.insert("queryresult".to_string(), Value::Object(result));
    assert_eq!(document_from_value(&Value::Object(root)).numpods, None);
}
