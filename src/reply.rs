//! Structured replies and the extraction of their first text answer.
use vstd::prelude::*;
use crate::error::{ChatError, ChatErrorView};
use crate::json::{
    collect_all, json_as_array, json_as_str, json_get, json_is_null, json_of_text, json_view,
    lemma_collect_all_prefix_none, member, parse_json_text, str_member, JsonView,
};
use crate::text::same_text;

verus! {

/// A content piece as plain values: its kind and its text, if any.
pub type PieceView = (Seq<char>, Option<Seq<char>>);

/// One content piece of an output message.
#[derive(Debug)]
pub struct OutputContent {
    pub kind: String,
    pub text: Option<String>,
}

/// One output message: an optional role and its ordered content pieces.
#[derive(Debug)]
pub struct OutputMessage {
    pub role: Option<String>,
    pub content: Vec<OutputContent>,
}

/// A structured reply: its ordered output messages.
#[derive(Debug)]
pub struct ResponsesReply {
    pub output: Vec<OutputMessage>,
}

/// An optional text as an optional character sequence.
pub open spec fn opt_view(o: Option<String>) -> Option<Seq<char>> {
    match o {
        Some(t) => Some(t@),
        None => None,
    }
}

impl View for OutputContent {
    type V = PieceView;

    open spec fn view(&self) -> PieceView {
        (self.kind@, opt_view(self.text))
    }
}

impl View for OutputMessage {
    type V = Seq<PieceView>;

    open spec fn view(&self) -> Seq<PieceView> {
        self.content@.map_values(|c: OutputContent| c@)
    }
}

impl View for ResponsesReply {
    type V = Seq<Seq<PieceView>>;

    open spec fn view(&self) -> Seq<Seq<PieceView>> {
        self.output@.map_values(|m: OutputMessage| m@)
    }
}

/// A piece that answers: of kind `output_text`, with its text present.
pub open spec fn is_answer(p: PieceView) -> bool {
    p.0 == "output_text"@ && p.1 is Some
}

/// The text of the first answering piece of a message.
pub open spec fn first_in_message(ps: Seq<PieceView>) -> Option<Seq<char>>
    decreases ps.len(),
{
    if ps.len() == 0 {
        None
    } else if is_answer(ps[0]) {
        ps[0].1
    } else {
        first_in_message(ps.skip(1))
    }
}

/// The text of the first answering piece of a reply, in document order.
pub open spec fn first_answer(ms: Seq<Seq<PieceView>>) -> Option<Seq<char>>
    decreases ms.len(),
{
    if ms.len() == 0 {
        None
    } else {
        match first_in_message(ms[0]) {
            Some(t) => Some(t),
            None => first_answer(ms.skip(1)),
        }
    }
}

/// What extraction gives for a reply: its first answer, or `NoOutputText`.
pub open spec fn answer_of(ms: Seq<Seq<PieceView>>) -> Result<Seq<char>, ChatErrorView> {
    match first_answer(ms) {
        Some(t) => Ok(t),
        None => Err(ChatErrorView::NoOutputText),
    }
}

/// A message with no answering piece gives no text.
proof fn lemma_message_without_answer(ps: Seq<PieceView>)
    requires
        forall|b: int| 0 <= b < ps.len() ==> !is_answer(#[trigger] ps[b]),
    ensures
        first_in_message(ps).is_none(),
    decreases ps.len(),
{
    if ps.len() > 0 {
        assert forall|b: int| 0 <= b < ps.skip(1).len() implies !is_answer(#[trigger] ps.skip(1)[b]) by {
            assert(ps.skip(1)[b] == ps[b + 1]);
        }
        lemma_message_without_answer(ps.skip(1));
    }
}

/// In a message, the first answering piece gives the text.
proof fn lemma_message_first_answer(ps: Seq<PieceView>, j: int)
    requires
        0 <= j < ps.len(),
        is_answer(ps[j]),
        forall|b: int| 0 <= b < j ==> !is_answer(#[trigger] ps[b]),
    ensures
        first_in_message(ps) == ps[j].1,
    decreases j,
{
    if j > 0 {
        assert forall|b: int| 0 <= b < j - 1 implies !is_answer(#[trigger] ps.skip(1)[b]) by {
            assert(ps.skip(1)[b] == ps[b + 1]);
        }
        lemma_message_first_answer(ps.skip(1), j - 1);
    }
}

/// The answer of a reply is the text of the piece at message `i`, position
/// `j`, when that piece is an `output_text` piece with text and no piece
/// before it in document order (an earlier message, or an earlier position
/// in the same message) is one: later pieces, and earlier pieces of other
/// kinds, do not change it.
pub proof fn lemma_first_answer_in_document_order(ms: Seq<Seq<PieceView>>, i: int, j: int)
    requires
        0 <= i < ms.len(),
        0 <= j < ms[i].len(),
        is_answer(ms[i][j]),
        forall|a: int, b: int|
            0 <= a < ms.len() && 0 <= b < ms[a].len() && (a < i || (a == i && b < j))
                ==> !is_answer(#[trigger] ms[a][b]),
    ensures
        first_answer(ms) == ms[i][j].1,
        answer_of(ms) == Ok::<Seq<char>, ChatErrorView>(ms[i][j].1->0),
    decreases i,
{
    if i == 0 {
        lemma_message_first_answer(ms[0], j);
    } else {
        assert forall|b: int| 0 <= b < ms[0].len() implies !is_answer(#[trigger] ms[0][b]) by {
            assert(!is_answer(ms[0][b]));
        }
        lemma_message_without_answer(ms[0]);
        let rest = ms.skip(1);
        assert forall|a: int, b: int|
            0 <= a < rest.len() && 0 <= b < rest[a].len() && (a < i - 1 || (a == i - 1 && b < j))
                implies !is_answer(#[trigger] rest[a][b]) by {
            assert(rest[a] == ms[a + 1]);
        }
        assert(rest[i - 1] == ms[i]);
        lemma_first_answer_in_document_order(rest, i - 1, j);
    }
}

/// Returns the text of the first `output_text` piece that has text, scanning
/// messages and their pieces in order.
pub fn first_output_text(reply: &ResponsesReply) -> (r: Result<String, ChatError>)
    ensures
        crate::error::outcome_view(r) == answer_of(reply@),
{
    let ghost ms = reply@;
    let mut i: usize = 0;
    assert(ms.skip(0) =~= ms);
    while i < reply.output.len()
        invariant
            ms == reply@,
            i <= ms.len(),
            first_answer(ms) == first_answer(ms.skip(i as int)),
        decreases ms.len() - i,
    {
        let msg = &reply.output[i];
        let ghost ps = ms[i as int];
        assert(ps == msg@);
        let mut j: usize = 0;
        assert(ps.skip(0) =~= ps);
        while j < msg.content.len()
            invariant
                ms == reply@,
                i < ms.len(),
                ps == ms[i as int],
                first_answer(ms) == first_answer(ms.skip(i as int)),
                ps == msg@,
                j <= ps.len(),
                first_in_message(ps) == first_in_message(ps.skip(j as int)),
            decreases ps.len() - j,
        {
            let piece = &msg.content[j];
            assert(ps.skip(j as int)[0] == piece@);
            assert(ps.skip(j as int).skip(1) =~= ps.skip(j + 1));
            if same_text(piece.kind.as_str(), "output_text") {
                match &piece.text {
                    Some(t) => {
                        assert(first_in_message(ps) == Some(t@));
                        assert(ms.skip(i as int)[0] == ps);
                        return Ok(t.clone());
                    },
                    None => {},
                }
            }
            j = j + 1;
        }
        assert(ps.skip(j as int).len() == 0);
        assert(ms.skip(i as int)[0] == ps);
        assert(ms.skip(i as int).skip(1) =~= ms.skip(i + 1));
        i = i + 1;
    }
    assert(ms.skip(i as int).len() == 0);
    Err(ChatError::NoOutputText)
}

/// A content piece read from JSON: an object with a string `type` and a
/// `text` that is a string, `null` or absent.
pub open spec fn piece_of_json(j: JsonView) -> Option<PieceView> {
    match str_member(j, "type"@) {
        Some(k) => match member(j, "text"@) {
            None => Some((k, None)),
            Some(JsonView::Null) => Some((k, None)),
            Some(JsonView::Str(t)) => Some((k, Some(t))),
            _ => None,
        },
        None => None,
    }
}

/// A message read from JSON: an object whose `role` is a string, `null` or
/// absent, and whose `content` is an array of pieces.
pub open spec fn message_of_json(j: JsonView) -> Option<Seq<PieceView>> {
    match member(j, "role"@) {
        Some(JsonView::Array(_)) | Some(JsonView::Object(_)) | Some(JsonView::Bool(_)) | Some(
            JsonView::Number,
        ) => None,
        _ => match member(j, "content"@) {
            Some(JsonView::Array(items)) => collect_all(items, |x: JsonView| piece_of_json(x)),
            _ => None,
        },
    }
}

/// A reply read from JSON: an object whose `output` is an array of messages.
pub open spec fn reply_of_json(j: JsonView) -> Option<Seq<Seq<PieceView>>> {
    match member(j, "output"@) {
        Some(JsonView::Array(items)) => collect_all(items, |x: JsonView| message_of_json(x)),
        _ => None,
    }
}

/// Views of a list of JSON values.
pub open spec fn json_views(v: Seq<serde_json::Value>) -> Seq<JsonView> {
    v.map_values(|x: serde_json::Value| json_view(x))
}

/// An optional JSON string member, absent or `null` giving `None`; `Err` for any other value.
pub(crate) fn optional_text(v: &serde_json::Value, key: &str) -> (r: Result<Option<String>, ()>)
    ensures
        match member(json_view(*v), key@) {
            None | Some(JsonView::Null) => r == Ok::<Option<String>, ()>(None),
            Some(JsonView::Str(t)) => r is Ok && opt_view(r->Ok_0) == Some(t),
            _ => r is Err,
        },
{
    match json_get(v, key) {
        None => Ok(None),
        Some(f) => {
            if json_is_null(f) {
                Ok(None)
            } else {
                match json_as_str(f) {
                    Some(t) => Ok(Some(t.to_owned())),
                    None => Err(()),
                }
            }
        },
    }
}

fn piece_from_json(v: &serde_json::Value) -> (r: Option<OutputContent>)
    ensures
        match r {
            Some(c) => piece_of_json(json_view(*v)) == Some(c@),
            None => piece_of_json(json_view(*v)).is_none(),
        },
{
    let kind = match json_get(v, "type") {
        Some(k) => match json_as_str(k) {
            Some(s) => s,
            None => return None,
        },
        None => return None,
    };
    match optional_text(v, "text") {
        Ok(text) => Some(OutputContent { kind: kind.to_owned(), text }),
        Err(()) => None,
    }
}

fn message_from_json(v: &serde_json::Value) -> (r: Option<OutputMessage>)
    ensures
        match r {
            Some(m) => message_of_json(json_view(*v)) == Some(m@),
            None => message_of_json(json_view(*v)).is_none(),
        },
{
    let role = match optional_text(v, "role") {
        Ok(role) => role,
        Err(()) => return None,
    };
    let items = match json_get(v, "content") {
        Some(c) => match json_as_array(c) {
            Some(items) => items,
            None => return None,
        },
        None => return None,
    };
    let ghost f = |x: JsonView| piece_of_json(x);
    let ghost jv = json_views(items@);
    assert(message_of_json(json_view(*v)) == collect_all(jv, f));
    let mut content: Vec<OutputContent> = Vec::new();
    let mut i: usize = 0;
    assert(jv.take(0) =~= seq![]);
    while i < items.len()
        invariant
            jv == json_views(items@),
            i <= items@.len(),
            f == (|x: JsonView| piece_of_json(x)),
            message_of_json(json_view(*v)) == collect_all(jv, f),
            collect_all(jv.take(i as int), f) == Some(content@.map_values(|c: OutputContent| c@)),
        decreases items@.len() - i,
    {
        assert(jv.take(i + 1).drop_last() =~= jv.take(i as int));
        match piece_from_json(&items[i]) {
            Some(c) => {
                let ghost prev = content@;
                content.push(c);
                assert(content@.map_values(|c: OutputContent| c@) =~= prev.map_values(
                    |c: OutputContent| c@,
                ).push(c@));
            },
            None => {
                proof {
                    assert(jv.take(i + 1).last() == json_view(items@[i as int]));
                    assert(collect_all(jv.take(i + 1), f).is_none());
                    lemma_collect_all_prefix_none(jv, f, i + 1);
                }
                return None;
            },
        }
        i = i + 1;
    }
    assert(jv.take(i as int) =~= jv);
    Some(OutputMessage { role, content })
}

/// Reads a structured reply from a JSON document.
pub fn reply_from_json(v: &serde_json::Value) -> (r: Option<ResponsesReply>)
    ensures
        match r {
            Some(x) => reply_of_json(json_view(*v)) == Some(x@),
            None => reply_of_json(json_view(*v)).is_none(),
        },
{
    let items = match json_get(v, "output") {
        Some(c) => match json_as_array(c) {
            Some(items) => items,
            None => return None,
        },
        None => return None,
    };
    let ghost f = |x: JsonView| message_of_json(x);
    let ghost jv = json_views(items@);
    assert(reply_of_json(json_view(*v)) == collect_all(jv, f));
    let mut output: Vec<OutputMessage> = Vec::new();
    let mut i: usize = 0;
    assert(jv.take(0) =~= seq![]);
    while i < items.len()
        invariant
            jv == json_views(items@),
            i <= items@.len(),
            f == (|x: JsonView| message_of_json(x)),
            reply_of_json(json_view(*v)) == collect_all(jv, f),
            collect_all(jv.take(i as int), f) == Some(output@.map_values(|m: OutputMessage| m@)),
        decreases items@.len() - i,
    {
        assert(jv.take(i + 1).drop_last() =~= jv.take(i as int));
        match message_from_json(&items[i]) {
            Some(m) => {
                let ghost prev = output@;
                output.push(m);
                assert(output@.map_values(|m: OutputMessage| m@) =~= prev.map_values(
                    |m: OutputMessage| m@,
                ).push(m@));
            },
            None => {
                proof {
                    assert(jv.take(i + 1).last() == json_view(items@[i as int]));
                    assert(collect_all(jv.take(i + 1), f).is_none());
                    lemma_collect_all_prefix_none(jv, f, i + 1);
                }
                return None;
            },
        }
        i = i + 1;
    }
    assert(jv.take(i as int) =~= jv);
    Some(ResponsesReply { output })
}

/// What decoding a plain (non-streamed) reply body gives.
pub open spec fn reply_body_answer(body: Seq<char>) -> Result<Seq<char>, ChatErrorView> {
    match json_of_text(body) {
        Some(j) => match reply_of_json(j) {
            Some(ms) => answer_of(ms),
            None => Err(ChatErrorView::MalformedReply { body }),
        },
        None => Err(ChatErrorView::MalformedReply { body }),
    }
}

/// Decodes a plain JSON reply body into its first text answer.
pub fn decode_reply_body(body: &str) -> (r: Result<String, ChatError>)
    ensures
        crate::error::outcome_view(r) == reply_body_answer(body@),
{
    match parse_json_text(body) {
        Some(v) => match reply_from_json(&v) {
            Some(reply) => first_output_text(&reply),
            None => Err(ChatError::MalformedReply { body: body.to_owned() }),
        },
        None => Err(ChatError::MalformedReply { body: body.to_owned() }),
    }
}

} // verus!
