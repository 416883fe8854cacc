use agent_rs_web::double::Double;
use agent_rs_web::ident::Uuid;
use agent_rs_web::routes::ask::{AskItem, AskPayload, Relay, RelayEvent, RelayStep};
use agent_rs_web::routes::chat::{AskFinalView, BudgetSnapshotView};
use agent_rs_web::routes::live::{
    form_data_to_urlencoded, prompt_field, urlencode, ChunkValue, LiveState, Pending, Read,
    ReadNext, SendFailure,
};
use agent_rs_web::sse::{read_block, take_block};
use axum::response::sse::{Event, Sse};
use axum::response::IntoResponse;
use std::convert::Infallible;

/// The events as axum writes them.
fn written(events: Vec<(&str, &str)>) -> String {
    let items: Vec<Result<Event, Infallible>> = events
        .into_iter()
        .map(|(kind, data)| Ok(Event::default().event(kind).data(data)))
        .collect();
    let body = Sse::new(futures::stream::iter(items)).into_response().into_body();
    let bytes = futures::executor::block_on(axum::body::to_bytes(body, usize::MAX)).unwrap();
    String::from_utf8(bytes.to_vec()).unwrap()
}

fn sent(prompt: &str) -> LiveState {
    let mut live = LiveState::new();
    assert!(live.submit(prompt.to_string()));
    live
}

fn chunk(text: &str, done: bool) -> Read {
    Read::Chunk { done, value: ChunkValue::Bytes(Some(text.to_string())) }
}

#[test]
fn blocks_come_off_at_blank_lines() {
    let mut buffer = "event: a\ndata: 1\n\n\n\nrest\n".to_string();
    assert_eq!(take_block(&mut buffer).as_deref(), Some("event: a\ndata: 1"));
    assert_eq!(take_block(&mut buffer).as_deref(), Some(""));
    assert_eq!(take_block(&mut buffer), None);
    assert_eq!(buffer, "rest\n");
}

#[test]
fn blocks_are_read_field_by_field() {
    let read = |s: &str| read_block(s);
    let pair = |a: &str, b: &str| (a.to_string(), b.to_string());
    assert_eq!(read("event: delta\ndata: x"), pair("delta", "x"));
    assert_eq!(read("event:delta\r\ndata:x\r"), pair("delta", "x"));
    assert_eq!(read("data: a\ndata:   b\ndata:"), pair("", "a\nb\n"));
    assert_eq!(read("event: a\nevent:  b \nid: 3"), pair("b", ""));
    assert_eq!(read(": keep-alive"), pair("", ""));
    assert_eq!(read(" event: a"), pair("", ""));
}

#[test]
fn events_are_written_as_they_are_read() {
    let text = written(vec![("delta", "\"a\""), ("error", "two\nlines"), ("final", "")]);
    assert_eq!(
        text,
        "event: delta\ndata: \"a\"\n\nevent: error\ndata: two\ndata: lines\n\nevent: final\n\n"
    );
    let mut buffer = text;
    let blocks: Vec<(String, String)> =
        std::iter::from_fn(|| take_block(&mut buffer)).map(|b| read_block(&b)).collect();
    assert_eq!(blocks[0], ("delta".to_string(), "\"a\"".to_string()));
    assert_eq!(blocks[1], ("error".to_string(), "two\nlines".to_string()));
    assert_eq!(blocks[2], ("final".to_string(), String::new()));
    assert_eq!(buffer, "");
}

#[test]
fn submitting_makes_room_for_the_prompt() {
    let mut live = sent("first");
    live.fail(&SendFailure::Window);
    assert!(!live.submit(" \t\n".to_string()));
    assert_eq!(live.pending_prompt, "first");
    assert!(live.submit("second".to_string()));
    assert_eq!(live.pending_prompt, "second");
    assert!(live.streaming);
    assert_eq!(live.live_answer, "");
    assert_eq!(live.live_error, None);
    assert_eq!(live.live_budget, None);
}

#[test]
fn failures_have_words() {
    for (failure, text) in [
        (SendFailure::FormFields, "could not read form fields"),
        (SendFailure::Request, "could not build streaming request"),
        (SendFailure::Window, "no window object"),
        (SendFailure::Fetch("JsValue(x)".to_string()), "fetch failed: JsValue(x)"),
        (SendFailure::Response, "not a Response"),
        (SendFailure::Status(403), "HTTP 403"),
        (SendFailure::Body, "response had no body"),
        (SendFailure::Reader, "cannot read response body"),
        (SendFailure::Decoder, "no TextDecoder"),
    ] {
        let mut live = sent("x");
        live.fail(&failure);
        assert!(!live.streaming);
        assert_eq!(live.live_error.as_deref(), Some(text));
        assert_eq!(live.pending_prompt, "x");
    }
}

#[test]
fn reads_fill_the_buffer_or_stop() {
    let mut live = sent("x");
    let mut buffer = "a".to_string();
    assert_eq!(live.take_chunk(&mut buffer, chunk("b", false)), ReadNext::Drain);
    assert_eq!(live.take_chunk(&mut buffer, chunk("c", true)), ReadNext::DrainAndStop);
    assert_eq!(buffer, "abc");
    let undefined = |done| Read::Chunk { done, value: ChunkValue::Undefined };
    assert_eq!(live.take_chunk(&mut buffer, undefined(true)), ReadNext::DrainAndStop);
    let undecoded = Read::Chunk { done: false, value: ChunkValue::Bytes(None) };
    assert_eq!(live.take_chunk(&mut buffer, undecoded), ReadNext::Drain);
    assert_eq!(buffer, "abc");
    assert_eq!(live.live_error, None);
    let other = Read::Chunk { done: false, value: ChunkValue::Other };
    assert_eq!(live.take_chunk(&mut buffer, other), ReadNext::Stop);
    assert_eq!(live.live_error.as_deref(), Some("non-bytes chunk"));
    assert_eq!(
        live.take_chunk(&mut buffer, Read::Failed("e".to_string())),
        ReadNext::Stop
    );
    assert_eq!(live.live_error.as_deref(), Some("read error: e"));
    assert!(live.streaming);
    live.finished();
    assert!(!live.streaming);
}

#[test]
fn pieces_of_an_answer_flow_together() {
    let mut live = sent("x");
    let mut buffer =
        written(vec![("delta", "\"Hel\""), ("delta", "\"lo\\n\\\"you\\\"\"")]) + "event: del";
    assert_eq!(live.drain_sse_events(&mut buffer), None);
    assert_eq!(live.live_answer, "Hello\n\"you\"");
    assert_eq!(buffer, "event: del");
}

#[test]
fn a_piece_that_is_no_json_is_shown_raw() {
    let mut live = sent("x");
    let mut buffer = "event: delta\ndata: plain\n\n".to_string();
    assert_eq!(live.drain_sse_events(&mut buffer), None);
    assert_eq!(live.live_answer, "plain");
}

#[test]
fn errors_end_the_streaming() {
    let mut live = sent("x");
    let mut buffer = written(vec![("delta", "\"a\""), ("error", "E7: no"), ("odd", "x")]);
    assert_eq!(live.drain_sse_events(&mut buffer), None);
    assert_eq!(live.live_error.as_deref(), Some("E7: no"));
    assert!(!live.streaming);
    assert_eq!(live.live_answer, "a");
    assert_eq!(buffer, "");
}

#[test]
fn comments_and_unknown_events_change_nothing() {
    let mut live = sent("x");
    let before = live.clone();
    let mut buffer = ":\n\n: ping\n\nevent: tool\ndata: 1\n\ndata: lone\n\n".to_string();
    assert_eq!(live.drain_sse_events(&mut buffer), None);
    assert_eq!(live, before);
    assert_eq!(buffer, "");
}

#[test]
fn final_and_budget_are_left_to_the_caller() {
    let mut live = sent("x");
    let mut buffer = written(vec![
        ("delta", "\"draft\""),
        ("final", "{\"f\":1}"),
        ("budget", "{\"b\":2}"),
        ("delta", "\"!\""),
    ]);
    assert_eq!(
        live.drain_sse_events(&mut buffer),
        Some(Pending::Final("{\"f\":1}".to_string()))
    );
    assert_eq!(live.live_answer, "draft");
    live.apply_final(Some(AskFinalView {
        answer: "answer".to_string(),
        confidence: Double { bits: 0 },
        citations: Vec::new(),
    }));
    assert_eq!(
        live.drain_sse_events(&mut buffer),
        Some(Pending::Budget("{\"b\":2}".to_string()))
    );
    let budget = BudgetSnapshotView {
        total_tokens: 1,
        cached_input_tokens: 2,
        cost_usd: Double { bits: 0 },
        call_count: 3,
    };
    live.apply_budget(Some(budget));
    assert_eq!(live.drain_sse_events(&mut buffer), None);
    assert_eq!(live.live_answer, "answer!");
    assert_eq!(live.live_budget, Some(budget));
    live.apply_final(None);
    live.apply_budget(None);
    assert_eq!(live.live_answer, "answer!");
    assert_eq!(live.live_budget, Some(budget));
}

#[test]
fn chunks_may_end_anywhere() {
    let text = written(vec![("delta", "\"one \""), ("delta", "\"two\""), ("error", "x")]);
    for cut in 0..=text.len() {
        let mut live = sent("x");
        let mut buffer = String::new();
        for part in [&text[..cut], &text[cut..]] {
            live.take_chunk(&mut buffer, chunk(part, false));
            assert_eq!(live.drain_sse_events(&mut buffer), None);
        }
        assert_eq!(live.live_answer, "one two");
        assert_eq!(live.live_error.as_deref(), Some("x"));
        assert_eq!(buffer, "");
    }
}

#[test]
fn the_page_and_the_record_agree() {
    let mut relay = Relay::new();
    let mut live = sent("x");
    let mut buffer = String::new();
    for piece in ["A ", "", "line\nand \"more\""] {
        let item = AskItem::Event(Some(AskPayload::PartialAnswer { text_delta: piece.to_string() }));
        match relay.on_item(item) {
            RelayStep::Send(RelayEvent::Delta(data)) => {
                let text = written(vec![("delta", &data)]);
                live.take_chunk(&mut buffer, chunk(&text, false));
                assert_eq!(live.drain_sse_events(&mut buffer), None);
            }
            other => panic!("{other:?}"),
        }
    }
    assert_eq!(live.live_answer, relay.finish(Uuid { value: 1 }).0.content);
}

#[test]
fn the_turn_in_flight_is_shown() {
    let idle = LiveState::new();
    assert_eq!(idle.render_streaming_block("", ""), None);
    assert_eq!(idle.button_label(), "Send");
    let mut live = sent("why?");
    assert_eq!(live.button_label(), "Streaming…");
    let block = live.render_streaming_block("", "").unwrap();
    assert_eq!(block.prompt, "why?");
    assert_eq!(block.note, "streaming…");
    assert_eq!(block.answer, "");
    assert_eq!(block.error, None);
    assert_eq!(block.budget, None);
    live.apply_budget(Some(BudgetSnapshotView {
        total_tokens: 10,
        cached_input_tokens: 0,
        cost_usd: Double { bits: 0 },
        call_count: 1,
    }));
    live.fail(&SendFailure::Body);
    let block = live.render_streaming_block("0.1000", "0.100000").unwrap();
    assert_eq!(block.note, "");
    assert_eq!(block.error.as_deref(), Some("error: response had no body"));
    let lines = block.budget.unwrap();
    assert_eq!(lines.summary, "tokens 10 · $0.1000 · 1 call");
    assert_eq!(lines.cost, "cost (USD): 0.100000");
}

#[test]
fn the_prompt_is_the_first_text_area_of_its_name() {
    let names = |v: &[Option<&str>]| -> Vec<Option<String>> {
        v.iter().map(|n| n.map(|s| s.to_string())).collect()
    };
    assert_eq!(
        prompt_field(&names(&[None, Some("other"), Some("prompt"), Some("prompt")])),
        Some(2)
    );
    assert_eq!(prompt_field(&names(&[None, Some("prompts")])), None);
    assert_eq!(prompt_field(&names(&[])), None);
}

#[test]
fn forms_are_encoded() {
    assert_eq!(urlencode("aZ09-_.~"), "aZ09-_.~");
    assert_eq!(urlencode("a b&c=d+e%"), "a+b%26c%3Dd%2Be%25");
    assert_eq!(urlencode("é\n"), "%C3%A9%0A");
    assert_eq!(urlencode(""), "");
    let fields = vec![
        ("conversation_id".to_string(), "1-2".to_string()),
        ("prompt".to_string(), "why & how?".to_string()),
    ];
    assert_eq!(
        form_data_to_urlencoded(&fields),
        "conversation_id=1-2&prompt=why+%26+how%3F"
    );
    assert_eq!(form_data_to_urlencoded(&vec![(String::new(), String::new())]), "=");
    assert_eq!(form_data_to_urlencoded(&Vec::new()), "");
}

#[test]
fn an_encoded_form_comes_apart_again() {
    let fields = vec![
        ("a=b".to_string(), "c&d".to_string()),
        ("%41".to_string(), "日本 +".to_string()),
    ];
    let body = form_data_to_urlencoded(&fields);
    let decode = |s: &str| -> String {
        let b = s.as_bytes();
        let mut out = Vec::new();
        let mut i = 0;
        while i < b.len() {
            if b[i] == b'%' {
                out.push(u8::from_str_radix(&s[i + 1..i + 3], 16).unwrap());
                i += 3;
            } else {
                out.push(if b[i] == b'+' { b' ' } else { b[i] });
                i += 1;
            }
        }
        String::from_utf8(out).unwrap()
    };
    let read: Vec<(String, String)> = body
        .split('&')
        .map(|f| {
            let (k, v) = f.split_once('=').unwrap();
            (decode(k), decode(v))
        })
        .collect();
    assert_eq!(read, fields);
}
