//! Event-stream bodies: framing into `data:` payloads, and folding the events
//! into one answer.
use vstd::prelude::*;
use vstd::string::*;
use crate::error::{ChatError, ChatErrorView};
use crate::json::{json_as_str, json_get, json_of_text, json_view, member, parse_json_text, str_member, JsonView};
use crate::reply::{first_answer, first_output_text, opt_view, reply_from_json, reply_of_json, PieceView, ResponsesReply};
use crate::text::{same_text, split_on, split_text, texts, trim, trim_of};

verus! {

/// The event type that carries a text fragment.
pub const DELTA_EVENT: &'static str = "response.output_text.delta";

/// The event type that carries the whole reply.
pub const COMPLETED_EVENT: &'static str = "response.completed";

/// One decoded event: its type, an optional text fragment, and an optional
/// embedded reply.
#[derive(Debug)]
pub struct StreamEvent {
    pub kind: String,
    pub delta: Option<String>,
    pub response: Option<ResponsesReply>,
}

/// An event as plain values.
pub type EventView = (Seq<char>, Option<Seq<char>>, Option<Seq<Seq<PieceView>>>);

/// An optional reply as plain values.
pub open spec fn reply_opt_view(o: Option<ResponsesReply>) -> Option<Seq<Seq<PieceView>>> {
    match o {
        Some(r) => Some(r@),
        None => None,
    }
}

impl View for StreamEvent {
    type V = EventView;

    open spec fn view(&self) -> EventView {
        (self.kind@, opt_view(self.delta), reply_opt_view(self.response))
    }
}

/// Views of a list of events.
pub open spec fn event_views(v: Seq<StreamEvent>) -> Seq<EventView> {
    v.map_values(|e: StreamEvent| e@)
}

/// The state of the fold after one more event: the accumulated fragments, and
/// the fallback text of a completed reply.
pub open spec fn fold_step(
    state: (Seq<char>, Option<Seq<char>>),
    e: EventView,
) -> (Seq<char>, Option<Seq<char>>) {
    let (acc, fallback) = state;
    if e.0 == DELTA_EVENT@ {
        match e.1 {
            Some(d) => (acc + d, fallback),
            None => (acc, fallback),
        }
    } else if e.0 == COMPLETED_EVENT@ && acc.len() == 0 && fallback is None {
        match e.2 {
            Some(ms) => match first_answer(ms) {
                Some(t) => if t.len() > 0 {
                    (acc, Some(t))
                } else {
                    (acc, fallback)
                },
                None => (acc, fallback),
            },
            None => (acc, fallback),
        }
    } else {
        (acc, fallback)
    }
}

/// The fold over a sequence of events, from an empty accumulator.
pub open spec fn fold_events(evs: Seq<EventView>) -> (Seq<char>, Option<Seq<char>>)
    decreases evs.len(),
{
    if evs.len() == 0 {
        (seq![], None)
    } else {
        fold_step(fold_events(evs.drop_last()), evs.last())
    }
}

/// The answer of a stream: the fragments if any text came, else the text of
/// the first completed reply seen before any fragment, else none.
pub open spec fn stream_answer(evs: Seq<EventView>) -> Option<Seq<char>> {
    let (acc, fallback) = fold_events(evs);
    if acc.len() > 0 {
        Some(acc)
    } else {
        fallback
    }
}

/// Folds decoded events into the stream's answer, `None` when it has none.
pub fn fold_stream_events(events: &Vec<StreamEvent>) -> (r: Option<String>)
    ensures
        opt_view(r) == stream_answer(event_views(events@)),
{
    let ghost evs = event_views(events@);
    let mut acc = String::new();
    let mut fallback: Option<String> = None;
    let mut i: usize = 0;
    assert(evs.take(0) =~= seq![]);
    while i < events.len()
        invariant
            evs == event_views(events@),
            i <= events@.len(),
            fold_events(evs.take(i as int)) == (acc@, opt_view(fallback)),
        decreases events@.len() - i,
    {
        let e = &events[i];
        assert(evs.take(i + 1).drop_last() =~= evs.take(i as int));
        assert(evs.take(i + 1).last() == e@);
        if same_text(e.kind.as_str(), DELTA_EVENT) {
            match &e.delta {
                Some(d) => {
                    acc.append(d.as_str());
                },
                None => {},
            }
        } else if same_text(e.kind.as_str(), COMPLETED_EVENT) && acc.unicode_len() == 0
            && fallback.is_none() {
            match &e.response {
                Some(reply) => match first_output_text(reply) {
                    Ok(t) => {
                        if t.unicode_len() > 0 {
                            fallback = Some(t);
                        }
                    },
                    Err(_) => {},
                },
                None => {},
            }
        }
        i = i + 1;
    }
    assert(evs.take(i as int) =~= evs);
    if acc.unicode_len() > 0 {
        Some(acc)
    } else {
        fallback
    }
}

/// The payload of a `data:` line: the trimmed text after the prefix, unless
/// it is empty or the `[DONE]` sentinel.
pub open spec fn data_of_line(line: Seq<char>) -> Option<Seq<char>> {
    let t = trim_of(line);
    if t.len() >= 5 && t.take(5) == "data:"@ {
        let d = trim_of(t.skip(5));
        if d.len() > 0 && d != "[DONE]"@ {
            Some(d)
        } else {
            None
        }
    } else {
        None
    }
}

/// An event read from JSON: an object with a string `type`; its `delta` is
/// kept when it is a string, its `response` when it reads as a reply.
pub open spec fn event_of_json(j: JsonView) -> Option<EventView> {
    match str_member(j, "type"@) {
        Some(k) => Some(
            (
                k,
                str_member(j, "delta"@),
                match member(j, "response"@) {
                    Some(r) => reply_of_json(r),
                    None => None,
                },
            ),
        ),
        None => None,
    }
}

/// The event a line carries, if it is a `data:` line whose payload is JSON
/// with a type; any other line carries none.
pub open spec fn event_of_line(line: Seq<char>) -> Option<EventView> {
    match data_of_line(line) {
        Some(d) => match json_of_text(d) {
            Some(j) => event_of_json(j),
            None => None,
        },
        None => None,
    }
}

/// The events of a sequence of lines, in order.
pub open spec fn events_in(lines: Seq<Seq<char>>) -> Seq<EventView>
    decreases lines.len(),
{
    if lines.len() == 0 {
        seq![]
    } else {
        match event_of_line(lines.last()) {
            Some(e) => events_in(lines.drop_last()).push(e),
            None => events_in(lines.drop_last()),
        }
    }
}

/// What decoding an event-stream body gives. Events are framed by lines;
/// blank lines, which separate blocks, carry no data.
pub open spec fn stream_body_answer(body: Seq<char>) -> Result<Seq<char>, ChatErrorView> {
    match stream_answer(events_in(split_on(body, '\n'))) {
        Some(t) => Ok(t),
        None => Err(ChatErrorView::EmptyStreamResult { body }),
    }
}

/// The payload of one line, when it is a `data:` line with content.
pub fn data_payload(line: &str) -> (r: Option<String>)
    ensures
        opt_view(r) == data_of_line(line@),
{
    let t = trim(line);
    let n = t.unicode_len();
    if n < 5 {
        return None;
    }
    if !same_text(t.substring_char(0, 5), "data:") {
        return None;
    }
    let d = trim(t.substring_char(5, n));
    if d.unicode_len() == 0 || same_text(d, "[DONE]") {
        return None;
    }
    Some(d.to_owned())
}

/// Reads an event from a JSON document; `None` when it has no string `type`.
pub fn event_from_json(v: &serde_json::Value) -> (r: Option<StreamEvent>)
    ensures
        match r {
            Some(e) => event_of_json(json_view(*v)) == Some(e@),
            None => event_of_json(json_view(*v)).is_none(),
        },
{
    let kind = match json_get(v, "type") {
        Some(k) => match json_as_str(k) {
            Some(s) => s.to_owned(),
            None => return None,
        },
        None => return None,
    };
    let delta = match json_get(v, "delta") {
        Some(d) => match json_as_str(d) {
            Some(s) => Some(s.to_owned()),
            None => None,
        },
        None => None,
    };
    let response = match json_get(v, "response") {
        Some(r) => reply_from_json(r),
        None => None,
    };
    Some(StreamEvent { kind, delta, response })
}

/// Decodes an event-stream body into its answer; a body with none fails with
/// `EmptyStreamResult`, carrying the body.
pub fn decode_stream(body: &str) -> (r: Result<String, ChatError>)
    ensures
        crate::error::outcome_view(r) == stream_body_answer(body@),
{
    let lines = split_text(body, '\n');
    let ghost ls = texts(lines@);
    let mut events: Vec<StreamEvent> = Vec::new();
    let mut i: usize = 0;
    assert(ls.take(0) =~= seq![]);
    while i < lines.len()
        invariant
            ls == texts(lines@),
            i <= lines@.len(),
            event_views(events@) == events_in(ls.take(i as int)),
        decreases lines@.len() - i,
    {
        assert(ls.take(i + 1).drop_last() =~= ls.take(i as int));
        assert(ls.take(i + 1).last() == lines@[i as int]@);
        match data_payload(lines[i].as_str()) {
            Some(d) => match parse_json_text(d.as_str()) {
                Some(v) => match event_from_json(&v) {
                    Some(e) => {
                        let ghost prev = events@;
                        events.push(e);
                        assert(event_views(events@) =~= event_views(prev).push(e@));
                    },
                    None => {},
                },
                None => {},
            },
            None => {},
        }
        i = i + 1;
    }
    assert(ls.take(i as int) =~= ls);
    match fold_stream_events(&events) {
        Some(t) => Ok(t),
        None => Err(ChatError::EmptyStreamResult { body: body.to_owned() }),
    }
}

} // verus!
