//! Rendering a result document as text.
//!
//! A document is shown pod by pod. Each pod gives one highlighted title line
//! followed by one line for each of its subpods. How many pods and subpods
//! are shown is what the response declares, not what it carries: a pod or
//! subpod that is declared but not carried is shown with the stand-in texts,
//! as one whose fields are absent.

use crate::document::{
    document_of, pod_of, subpod_of, DocumentView, Pod, PodView, ResultDocument, Subpod,
    SubpodView,
};
use crate::json::Json;
use vstd::prelude::*;

verus! {

/// How much of a document is shown.
#[derive(Clone, Copy, Debug, PartialEq, Eq, Structural)]
pub enum Rendering {
    /// Every declared pod.
    Full,
    /// The first two declared pods at most.
    Summary,
}

/// The number of pods that a summary shows at most.
pub const SUMMARY_PODS: u64 = 2;

/// The title shown for a pod that has none.
pub open spec fn missing_title() -> Seq<char> {
    "No title"@
}

/// The text shown for a subpod that has none.
pub open spec fn missing_plaintext() -> Seq<char> {
    "No plaintext"@
}

/// The pod that stands for one that the response declares but does not
/// carry.
pub open spec fn absent_pod() -> PodView {
    PodView { title: None, numsubpods: None, subpods: Seq::empty() }
}

/// The subpod that stands for one that the pod declares but does not carry.
pub open spec fn absent_subpod() -> SubpodView {
    SubpodView { plaintext: None }
}

/// The number of pods that the document declares; zero where it declares
/// none.
pub open spec fn declared_pods(doc: DocumentView) -> nat {
    match doc.numpods {
        Some(n) => n as nat,
        None => 0,
    }
}

/// The number of subpods that the pod declares; zero where it declares none.
pub open spec fn declared_subpods(pod: PodView) -> nat {
    match pod.numsubpods {
        Some(n) => n as nat,
        None => 0,
    }
}

/// The number of pods that a rendering shows.
pub open spec fn pods_shown(doc: DocumentView, mode: Rendering) -> nat {
    match mode {
        Rendering::Full => declared_pods(doc),
        Rendering::Summary => if declared_pods(doc) <= SUMMARY_PODS {
            declared_pods(doc)
        } else {
            SUMMARY_PODS as nat
        },
    }
}

/// The pod at position `i`, or its stand-in.
pub open spec fn pod_at(doc: DocumentView, i: int) -> PodView {
    if 0 <= i < doc.pods.len() {
        doc.pods[i]
    } else {
        absent_pod()
    }
}

/// The subpod at position `j`, or its stand-in.
pub open spec fn subpod_at(pod: PodView, j: int) -> SubpodView {
    if 0 <= j < pod.subpods.len() {
        pod.subpods[j]
    } else {
        absent_subpod()
    }
}

/// The first `count` pods of a document, stand-ins included.
pub open spec fn leading_pods(doc: DocumentView, count: nat) -> Seq<PodView> {
    Seq::new(count, |i: int| pod_at(doc, i))
}

/// The first `count` subpods of a pod, stand-ins included.
pub open spec fn leading_subpods(pod: PodView, count: nat) -> Seq<SubpodView> {
    Seq::new(count, |j: int| subpod_at(pod, j))
}

/// The pods that a rendering shows, in the order in which it shows them.
pub open spec fn shown_pods(doc: DocumentView, mode: Rendering) -> Seq<PodView> {
    leading_pods(doc, pods_shown(doc, mode))
}

/// The subpods that are shown of a pod.
pub open spec fn shown_subpods(pod: PodView) -> Seq<SubpodView> {
    leading_subpods(pod, declared_subpods(pod))
}

/// The title of a pod as it is shown.
pub open spec fn title_text(pod: PodView) -> Seq<char> {
    match pod.title {
        Some(title) => title,
        None => missing_title(),
    }
}

/// The text of a subpod as it is shown.
pub open spec fn plaintext_text(subpod: SubpodView) -> Seq<char> {
    match subpod.plaintext {
        Some(text) => text,
        None => missing_plaintext(),
    }
}

/// The title line of a pod: the title in yellow, then a line break.
pub open spec fn title_line(pod: PodView) -> Seq<char> {
    "\x1b[33m"@ + title_text(pod) + "\x1b[0m"@ + "\n"@
}

/// The line of a subpod.
pub open spec fn subpod_line(subpod: SubpodView) -> Seq<char> {
    plaintext_text(subpod) + "\n"@
}

/// The lines of a sequence of subpods, one after the other.
pub open spec fn subpod_lines(subpods: Seq<SubpodView>) -> Seq<char>
    decreases subpods.len(),
{
    if subpods.len() == 0 {
        Seq::empty()
    } else {
        subpod_lines(subpods.drop_last()) + subpod_line(subpods.last())
    }
}

/// What is shown of one pod: its title line, then its subpod lines.
pub open spec fn pod_block(pod: PodView) -> Seq<char> {
    title_line(pod) + subpod_lines(shown_subpods(pod))
}

/// The blocks of a sequence of pods, one after the other.
pub open spec fn pod_blocks(pods: Seq<PodView>) -> Seq<char>
    decreases pods.len(),
{
    if pods.len() == 0 {
        Seq::empty()
    } else {
        pod_blocks(pods.drop_last()) + pod_block(pods.last())
    }
}

/// The text of a document under a rendering.
pub open spec fn render(doc: DocumentView, mode: Rendering) -> Seq<char> {
    pod_blocks(shown_pods(doc, mode))
}

/// The count of pods in a rendering: a summary shows the first two declared
/// pods at most, a full rendering every declared pod. Where the response
/// carries every pod that it declares, the pods shown are its own first
/// ones.
pub proof fn lemma_pod_count(doc: DocumentView, mode: Rendering)
    ensures
        mode == Rendering::Full ==> shown_pods(doc, mode).len() == declared_pods(doc),
        mode == Rendering::Summary ==> shown_pods(doc, mode).len() == if declared_pods(doc) < 2 {
            declared_pods(doc)
        } else {
            2
        },
        shown_pods(doc, mode).len() <= declared_pods(doc),
        doc.pods.len() >= declared_pods(doc) ==> shown_pods(doc, mode) == doc.pods.take(
            pods_shown(doc, mode) as int,
        ),
{
    if doc.pods.len() >= declared_pods(doc) {
        assert(shown_pods(doc, mode) =~= doc.pods.take(pods_shown(doc, mode) as int));
    }
}

/// A document that declares no count of pods shows no pod, and its text is
/// empty under either rendering.
pub proof fn lemma_no_count_no_text(doc: DocumentView, mode: Rendering)
    requires
        doc.numpods is None,
    ensures
        shown_pods(doc, mode).len() == 0,
        render(doc, mode) == Seq::<char>::empty(),
{
}

/// A response whose `numpods` is missing, or is anything but a number,
/// denotes a document whose text is empty under either rendering.
pub proof fn lemma_count_must_be_a_number(json: Json, mode: Rendering)
    requires
        !(json.member("queryresult"@).member("numpods"@) is Number),
    ensures
        document_of(json).numpods is None,
        render(document_of(json), mode) == Seq::<char>::empty(),
{
    lemma_no_count_no_text(document_of(json), mode);
}

/// The stand-ins are what a null entry denotes. So the pod shown at a
/// position is the one read from that entry of the `pods` array, where an
/// entry that the array lacks reads as null; and likewise for the subpods of
/// a pod.
pub proof fn lemma_stand_ins_are_null_entries(json: Json, i: int)
    ensures
        pod_of(Json::Null) == absent_pod(),
        subpod_of(Json::Null) == absent_subpod(),
        pod_at(document_of(json), i) == pod_of(
            json.member("queryresult"@).member("pods"@).element(i),
        ),
        subpod_at(pod_of(json), i) == subpod_of(json.member("subpods"@).element(i)),
{
    assert(pod_of(Json::Null).subpods =~= absent_pod().subpods);
}

/// The text of several pods begins with the text of the first `i` of them,
/// and goes on with the block of pod `i`.
pub proof fn lemma_blocks_in_order(pods: Seq<PodView>, i: int)
    requires
        0 <= i < pods.len(),
    ensures
        pod_blocks(pods.take(i + 1)) == pod_blocks(pods.take(i)) + pod_block(pods[i]),
        pod_blocks(pods.take(i + 1)).is_prefix_of(pod_blocks(pods)),
    decreases pods.len(),
{
    assert(pods.take(i + 1).drop_last() =~= pods.take(i));
    assert(pods.take(i + 1).last() == pods[i]);
    if i + 1 == pods.len() {
        assert(pods.take(i + 1) =~= pods);
    } else {
        let shorter = pods.drop_last();
        lemma_blocks_in_order(shorter, i);
        assert(shorter.take(i + 1) =~= pods.take(i + 1));
    }
}

/// The lines of several subpods begin with the lines of the first `j` of
/// them, and go on with the line of subpod `j`.
pub proof fn lemma_lines_in_order(subpods: Seq<SubpodView>, j: int)
    requires
        0 <= j < subpods.len(),
    ensures
        subpod_lines(subpods.take(j + 1)) == subpod_lines(subpods.take(j)) + subpod_line(
            subpods[j],
        ),
        subpod_lines(subpods.take(j + 1)).is_prefix_of(subpod_lines(subpods)),
    decreases subpods.len(),
{
    assert(subpods.take(j + 1).drop_last() =~= subpods.take(j));
    assert(subpods.take(j + 1).last() == subpods[j]);
    if j + 1 == subpods.len() {
        assert(subpods.take(j + 1) =~= subpods);
    } else {
        let shorter = subpods.drop_last();
        lemma_lines_in_order(shorter, j);
        assert(shorter.take(j + 1) =~= subpods.take(j + 1));
    }
}

/// A pod without a title is shown under the title `No title`: in the text
/// of a rendering, right after the blocks of the pods before it, stands the
/// highlighted line of that title.
pub proof fn lemma_missing_title(doc: DocumentView, mode: Rendering, i: int)
    requires
        0 <= i < pods_shown(doc, mode),
        pod_at(doc, i).title is None,
    ensures
        title_line(pod_at(doc, i)) == "\x1b[33m"@ + "No title"@ + "\x1b[0m"@ + "\n"@,
        (pod_blocks(leading_pods(doc, i as nat)) + title_line(pod_at(doc, i))).is_prefix_of(
            render(doc, mode),
        ),
{
    let pods = shown_pods(doc, mode);
    lemma_blocks_in_order(pods, i);
    assert(pods.take(i) =~= leading_pods(doc, i as nat));
    let before = pod_blocks(pods.take(i));
    let upto = pod_blocks(pods.take(i + 1));
    let line = title_line(pod_at(doc, i));
    assert(upto == before + pod_block(pods[i]));
    assert((before + line) =~= upto.subrange(0, (before + line).len() as int));
    assert((before + line) =~= render(doc, mode).subrange(0, (before + line).len() as int));
}

/// A subpod without a plain text is shown as `No plaintext`: in the block
/// of its pod, right after the title line and the lines of the subpods
/// before it, stands the line of that text.
pub proof fn lemma_missing_plaintext(pod: PodView, j: int)
    requires
        0 <= j < declared_subpods(pod),
        subpod_at(pod, j).plaintext is None,
    ensures
        subpod_line(subpod_at(pod, j)) == "No plaintext"@ + "\n"@,
        (title_line(pod) + subpod_lines(leading_subpods(pod, j as nat)) + subpod_line(
            subpod_at(pod, j),
        )).is_prefix_of(pod_block(pod)),
{
    let subpods = shown_subpods(pod);
    lemma_lines_in_order(subpods, j);
    assert(subpods.take(j) =~= leading_subpods(pod, j as nat));
    let upto = subpod_lines(subpods.take(j + 1));
    let head = title_line(pod) + upto;
    assert(head =~= title_line(pod) + subpod_lines(leading_subpods(pod, j as nat)) + subpod_line(
        subpod_at(pod, j),
    ));
    assert(head =~= pod_block(pod).subrange(0, head.len() as int));
}

impl Rendering {
    /// The rendering behind an answer to the question whether the full
    /// response is to be shown. The answers are offered in this order:
    /// `yes`, at index 0, then `no`, at index 1.
    pub fn from_choice(index: usize) -> (mode: Option<Rendering>)
        ensures
            index == 0 <==> mode == Some(Rendering::Full),
            index == 1 <==> mode == Some(Rendering::Summary),
            index >= 2 <==> mode is None,
    {
        if index == 0 {
            Some(Rendering::Full)
        } else if index == 1 {
            Some(Rendering::Summary)
        } else {
            None
        }
    }

    /// The answer that selects this rendering.
    pub fn label(&self) -> (text: &'static str)
        ensures
            text@ == (match *self {
                Rendering::Full => "yes"@,
                Rendering::Summary => "no"@,
            }),
    {
        match self {
            Rendering::Full => "yes",
            Rendering::Summary => "no",
        }
    }
}

/// The number of pods that a rendering of the document shows.
pub fn pods_to_show(doc: &ResultDocument, mode: Rendering) -> (count: u64)
    ensures
        count == pods_shown(doc@, mode),
{
    let declared: u64 = match doc.numpods {
        Some(n) => n,
        None => 0,
    };
    match mode {
        Rendering::Full => declared,
        Rendering::Summary => if declared <= SUMMARY_PODS {
            declared
        } else {
            SUMMARY_PODS
        },
    }
}

fn push_subpod(out: &mut String, subpod: Option<&Subpod>)
    ensures
        final(out)@ == old(out)@ + subpod_line(
            match subpod {
                Some(s) => s@,
                None => absent_subpod(),
            },
        ),
{
    let text: &str = match subpod {
        Some(s) => match &s.plaintext {
            Some(text) => text.as_str(),
            None => "No plaintext",
        },
        None => "No plaintext",
    };
    out.append(text);
    out.append("\n");
    assert(out@ =~= old(out)@ + (text@ + "\n"@));
}

fn push_pod(out: &mut String, pod: Option<&Pod>)
    ensures
        final(out)@ == old(out)@ + pod_block(
            match pod {
                Some(p) => p@,
                None => absent_pod(),
            },
        ),
{
    let ghost view = match pod {
        Some(p) => p@,
        None => absent_pod(),
    };
    let title: &str = match pod {
        Some(p) => match &p.title {
            Some(title) => title.as_str(),
            None => "No title",
        },
        None => "No title",
    };
    out.append("\x1b[33m");
    out.append(title);
    out.append("\x1b[0m");
    out.append("\n");
    assert(out@ =~= old(out)@ + title_line(view));
    let count: u64 = match pod {
        Some(p) => match p.numsubpods {
            Some(n) => n,
            None => 0,
        },
        None => 0,
    };
    let mut j: u64 = 0;
    while j < count
        invariant
            j <= count,
            count == declared_subpods(view),
            view == (match pod {
                Some(p) => p@,
                None => absent_pod(),
            }),
            out@ == old(out)@ + title_line(view) + subpod_lines(leading_subpods(view, j as nat)),
        decreases count - j,
    {
        let ghost before = out@;
        let ghost shown = leading_subpods(view, (j + 1) as nat);
        let subpod: Option<&Subpod> = match pod {
            Some(p) => if j < p.subpods.len() as u64 {
                Some(&p.subpods[j as usize])
            } else {
                None
            },
            None => None,
        };
        push_subpod(out, subpod);
        proof {
            assert(shown.drop_last() =~= leading_subpods(view, j as nat));
            assert(shown.last() == subpod_at(view, j as int));
            assert(out@ =~= old(out)@ + title_line(view) + subpod_lines(shown));
        }
        j = j + 1;
    }
    assert(out@ =~= old(out)@ + pod_block(view));
}

/// Renders a document as text. The result is the blocks of the pods that
/// the rendering shows, in document order: every declared pod for
/// `Rendering::Full`, the first two declared pods at most for
/// `Rendering::Summary`. The text grows with the counts that the response
/// declares, whatever it carries.
pub fn json_to_formatted_string(doc: &ResultDocument, mode: Rendering) -> (formatted: String)
    ensures
        formatted@ == render(doc@, mode),
{
    let count = pods_to_show(doc, mode);
    let mut formatted = String::new();
    let mut i: u64 = 0;
    while i < count
        invariant
            i <= count,
            count == pods_shown(doc@, mode),
            formatted@ == pod_blocks(leading_pods(doc@, i as nat)),
        decreases count - i,
    {
        let ghost shown = leading_pods(doc@, (i + 1) as nat);
        let pod: Option<&Pod> = if i < doc.pods.len() as u64 {
            Some(&doc.pods[i as usize])
        } else {
            None
        };
        push_pod(&mut formatted, pod);
        proof {
            assert(shown.drop_last() =~= leading_pods(doc@, i as nat));
            assert(shown.last() == pod_at(doc@, i as int));
        }
        i = i + 1;
    }
    formatted
}

} // verus!
