//! The result document: the part of a response that the client shows, and
//! how it is read out of the decoded JSON.
//!
//! A response has the shape
//! `{"queryresult": {"numpods": n, "pods": [{"title": t, "numsubpods": m,
//! "subpods": [{"plaintext": p}]}]}}`. Every field is optional. A field that
//! is missing, or that holds a value of another kind, is absent from the
//! document; what stands in for it is decided when the document is rendered.

use crate::error::DecodeError;
use crate::json::{as_array, as_str, as_u64, error_text, json_decoded, json_of, member, parse, Json};
use serde_json::Value;
use vstd::prelude::*;

verus! {

/// One plain-text rendering inside a pod.
#[derive(Debug, PartialEq, Eq)]
pub struct Subpod {
    pub plaintext: Option<String>,
}

/// A titled section of a result.
#[derive(Debug, PartialEq, Eq)]
pub struct Pod {
    pub title: Option<String>,
    /// How many subpods the response says the pod has.
    pub numsubpods: Option<u64>,
    /// The subpods that the response actually carries.
    pub subpods: Vec<Subpod>,
}

/// A decoded response.
#[derive(Debug, PartialEq, Eq)]
pub struct ResultDocument {
    /// How many pods the response says it has.
    pub numpods: Option<u64>,
    /// The pods that the response actually carries.
    pub pods: Vec<Pod>,
}

pub struct SubpodView {
    pub plaintext: Option<Seq<char>>,
}

pub struct PodView {
    pub title: Option<Seq<char>>,
    pub numsubpods: Option<u64>,
    pub subpods: Seq<SubpodView>,
}

pub struct DocumentView {
    pub numpods: Option<u64>,
    pub pods: Seq<PodView>,
}

/// The view of an optional string.
pub open spec fn text_view(text: Option<String>) -> Option<Seq<char>> {
    match text {
        Some(s) => Some(s@),
        None => None,
    }
}

impl View for Subpod {
    type V = SubpodView;

    open spec fn view(&self) -> SubpodView {
        SubpodView { plaintext: text_view(self.plaintext) }
    }
}

impl View for Pod {
    type V = PodView;

    open spec fn view(&self) -> PodView {
        PodView {
            title: text_view(self.title),
            numsubpods: self.numsubpods,
            subpods: Seq::new(self.subpods@.len(), |i: int| self.subpods@[i]@),
        }
    }
}

impl View for ResultDocument {
    type V = DocumentView;

    open spec fn view(&self) -> DocumentView {
        DocumentView {
            numpods: self.numpods,
            pods: Seq::new(self.pods@.len(), |i: int| self.pods@[i]@),
        }
    }
}

/// The subpod that a JSON value denotes.
pub open spec fn subpod_of(json: Json) -> SubpodView {
    SubpodView { plaintext: json.member("plaintext"@).as_str() }
}

/// The pod that a JSON value denotes.
pub open spec fn pod_of(json: Json) -> PodView {
    let listed = json.member("subpods"@).entries();
    PodView {
        title: json.member("title"@).as_str(),
        numsubpods: json.member("numsubpods"@).as_u64(),
        subpods: Seq::new(listed.len(), |i: int| subpod_of(listed[i])),
    }
}

/// The document that a JSON value denotes.
pub open spec fn document_of(json: Json) -> DocumentView {
    let result = json.member("queryresult"@);
    let listed = result.member("pods"@).entries();
    DocumentView {
        numpods: result.member("numpods"@).as_u64(),
        pods: Seq::new(listed.len(), |i: int| pod_of(listed[i])),
    }
}

/// The document that a response body denotes; `None` where the body is not
/// JSON.
pub open spec fn decoded_document(body: Seq<char>) -> Option<DocumentView> {
    match json_decoded(body) {
        Some(json) => Some(document_of(json)),
        None => None,
    }
}

fn text_field(value: &Value, key: &str) -> (text: Option<String>)
    ensures
        text_view(text) == json_of(*value).member(key@).as_str(),
{
    match as_str(member(value, key)) {
        Some(s) => Some(String::from_str(s)),
        None => None,
    }
}

fn subpod_from_value(value: &Value) -> (subpod: Subpod)
    ensures
        subpod@ == subpod_of(json_of(*value)),
{
    Subpod { plaintext: text_field(value, "plaintext") }
}

fn pod_from_value(value: &Value) -> (pod: Pod)
    ensures
        pod@ == pod_of(json_of(*value)),
{
    let mut subpods: Vec<Subpod> = Vec::new();
    let ghost listed = json_of(*value).member("subpods"@).entries();
    match as_array(member(value, "subpods")) {
        Some(list) => {
            let mut i: usize = 0;
            while i < list.len()
                invariant
                    i <= list@.len(),
                    listed.len() == list@.len(),
                    forall|k: int| 0 <= k < list@.len() ==> listed[k] == json_of(#[trigger] list@[k]),
                    subpods@.len() == i,
                    forall|k: int| 0 <= k < i ==> (#[trigger] subpods@[k])@ == subpod_of(listed[k]),
                decreases list@.len() - i,
            {
                subpods.push(subpod_from_value(&list[i]));
                i = i + 1;
            }
        },
        None => {},
    }
    let pod = Pod {
        title: text_field(value, "title"),
        numsubpods: as_u64(member(value, "numsubpods")),
        subpods,
    };
    assert(pod@.subpods =~= pod_of(json_of(*value)).subpods);
    pod
}

/// Reads the result document out of a JSON value. Whatever the value is, a
/// document comes back: what the value lacks is absent from it.
pub fn document_from_value(value: &Value) -> (doc: ResultDocument)
    ensures
        doc@ == document_of(json_of(*value)),
{
    let result = member(value, "queryresult");
    let mut pods: Vec<Pod> = Vec::new();
    let ghost listed = json_of(*result).member("pods"@).entries();
    match as_array(member(result, "pods")) {
        Some(list) => {
            let mut i: usize = 0;
            while i < list.len()
                invariant
                    i <= list@.len(),
                    listed.len() == list@.len(),
                    forall|k: int| 0 <= k < list@.len() ==> listed[k] == json_of(#[trigger] list@[k]),
                    pods@.len() == i,
                    forall|k: int| 0 <= k < i ==> (#[trigger] pods@[k])@ == pod_of(listed[k]),
                decreases list@.len() - i,
            {
                pods.push(pod_from_value(&list[i]));
                i = i + 1;
            }
        },
        None => {},
    }
    let doc = ResultDocument { numpods: as_u64(member(result, "numpods")), pods };
    assert(doc@.pods =~= document_of(json_of(*value)).pods);
    doc
}

/// Decodes a response body. It succeeds exactly when the body is JSON, and
/// then yields the document that the body denotes; a body that is JSON of
/// some other shape gives a document with absent fields, not an error.
pub fn response_to_json(response: &str) -> (decoded: Result<ResultDocument, DecodeError>)
    ensures
        match decoded {
            Ok(doc) => decoded_document(response@) == Some(doc@),
            Err(_) => decoded_document(response@) is None,
        },
{
    match parse(response) {
        Ok(value) => Ok(document_from_value(&value)),
        Err(e) => Err(DecodeError { message: error_text(&e) }),
    }
}

} // verus!
