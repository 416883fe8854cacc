//! The browser's side of a question: what the page shows while the answer
//! arrives.
//!
//! The form of a question is sent in the background. The reply is a
//! `text/event-stream`, read in chunks that need not end where events do:
//! `LiveState` takes each complete event off the buffer and leaves the rest
//! waiting.
use crate::ident::hex_value;
use crate::json::{decode_or_raw, json_string, text_or_raw};
use crate::routes::ask::{
    is_final, received, recorded_text, said, step_for, AskItem, AskPayload, RelayEvent, RelayStep,
};
use crate::routes::chat::{
    budget_summary, AskFinalView, BudgetBadge, BudgetLines, BudgetSnapshotView, FinalAnswer,
};
use crate::sse::{
    blank_line, block_data, block_kind, drained, event_block, event_text, is_plain_data,
    is_plain_kind, read_block, take_block,
};
use crate::text::{
    concat2, decimal, decimal_text, is_blank, joined, optional_text, same_text, trimmed,
};
use vstd::prelude::*;

verus! {

// ---------------------------------------------------------------------------
// State
// ---------------------------------------------------------------------------
/// What the page shows of a question in flight.
#[derive(Debug, Clone, PartialEq, Eq)]
pub struct LiveState {
    pub pending_prompt: String,
    pub streaming: bool,
    pub live_answer: String,
    pub live_error: Option<String>,
    pub live_budget: Option<BudgetSnapshotView>,
}

/// What the page shows, as a value.
pub struct Live {
    pub pending_prompt: Seq<char>,
    pub streaming: bool,
    pub answer: Seq<char>,
    pub error: Option<Seq<char>>,
    pub budget: Option<BudgetSnapshotView>,
}

impl View for LiveState {
    type V = Live;

    open spec fn view(&self) -> Live {
        Live {
            pending_prompt: self.pending_prompt@,
            streaming: self.streaming,
            answer: self.live_answer@,
            error: optional_text(self.live_error),
            budget: self.live_budget,
        }
    }
}

/// Nothing is in flight.
pub open spec fn idle() -> Live {
    Live {
        pending_prompt: Seq::empty(),
        streaming: false,
        answer: Seq::empty(),
        error: None,
        budget: None,
    }
}

/// A prompt has just been sent.
pub open spec fn sending(prompt: Seq<char>) -> Live {
    Live {
        pending_prompt: prompt,
        streaming: true,
        answer: Seq::empty(),
        error: None,
        budget: None,
    }
}

/// Why a question could not be sent, or its reply not be read at all.
#[derive(Debug, Clone, PartialEq, Eq)]
pub enum SendFailure {
    FormFields,
    Request,
    Window,
    Fetch(String),
    Response,
    Status(u16),
    Body,
    Reader,
    Decoder,
}

impl SendFailure {
    /// The words for the failure.
    pub open spec fn words(self) -> Seq<char> {
        match self {
            SendFailure::FormFields => "could not read form fields"@,
            SendFailure::Request => "could not build streaming request"@,
            SendFailure::Window => "no window object"@,
            SendFailure::Fetch(t) => "fetch failed: "@ + t@,
            SendFailure::Response => "not a Response"@,
            SendFailure::Status(s) => "HTTP "@ + decimal(s as nat),
            SendFailure::Body => "response had no body"@,
            SendFailure::Reader => "cannot read response body"@,
            SendFailure::Decoder => "no TextDecoder"@,
        }
    }

    /// The words for the failure.
    pub fn message(&self) -> (r: String)
        ensures
            r@ == self.words(),
    {
        match self {
            SendFailure::FormFields => "could not read form fields".to_string(),
            SendFailure::Request => "could not build streaming request".to_string(),
            SendFailure::Window => "no window object".to_string(),
            SendFailure::Fetch(t) => concat2("fetch failed: ", t.as_str()),
            SendFailure::Response => "not a Response".to_string(),
            SendFailure::Status(s) => {
                let number = decimal_text(*s as u64);
                concat2("HTTP ", number.as_str())
            },
            SendFailure::Body => "response had no body".to_string(),
            SendFailure::Reader => "cannot read response body".to_string(),
            SendFailure::Decoder => "no TextDecoder".to_string(),
        }
    }
}

/// What a chunk of the reply carries.
#[derive(Debug, Clone, PartialEq, Eq)]
pub enum ChunkValue {
    Undefined,
    /// Bytes, and the text that they decode to if they do.
    Bytes(Option<String>),
    Other,
}

/// One read of the reply: a chunk, and whether it is the last one; or the
/// reason why there is none.
#[derive(Debug, Clone, PartialEq, Eq)]
pub enum Read {
    Chunk { done: bool, value: ChunkValue },
    Failed(String),
}

/// What follows a read.
#[derive(Debug, Clone, Copy, PartialEq, Eq)]
pub enum ReadNext {
    /// The complete events are taken off the buffer, and the next chunk read.
    Drain,
    /// The complete events are taken off the buffer, and no more is read.
    DrainAndStop,
    Stop,
}

/// What the page shows after a read.
pub open spec fn after_read(s: Live, read: Read) -> Live {
    match read {
        Read::Failed(t) => Live { error: Some("read error: "@ + t@), ..s },
        Read::Chunk { value: ChunkValue::Other, .. } => Live {
            error: Some("non-bytes chunk"@),
            ..s
        },
        _ => s,
    }
}

/// The buffer after a read.
pub open spec fn buffered(buffer: Seq<char>, read: Read) -> Seq<char> {
    match read {
        Read::Chunk { value: ChunkValue::Bytes(Some(t)), .. } => buffer + t@,
        _ => buffer,
    }
}

/// What follows a read.
pub open spec fn next_of(read: Read) -> ReadNext {
    match read {
        Read::Failed(_) => ReadNext::Stop,
        Read::Chunk { value: ChunkValue::Other, .. } => ReadNext::Stop,
        Read::Chunk { done, .. } => if done {
            ReadNext::DrainAndStop
        } else {
            ReadNext::Drain
        },
    }
}

impl LiveState {
    /// A page on which nothing has been asked.
    pub fn new() -> (r: Self)
        ensures
            r@ == idle(),
    {
        let r = LiveState {
            pending_prompt: String::new(),
            streaming: false,
            live_answer: String::new(),
            live_error: None,
            live_budget: None,
        };
        assert(r@.pending_prompt =~= Seq::empty());
        assert(r@.answer =~= Seq::empty());
        r
    }

    /// The form is sent: what was shown before makes room for the prompt. A
    /// blank prompt is not sent and changes nothing.
    pub fn submit(&mut self, prompt: String) -> (sent: bool)
        ensures
            sent == (trimmed(prompt@).len() > 0),
            final(self)@ == (if sent {
                sending(prompt@)
            } else {
                old(self)@
            }),
    {
        if is_blank(prompt.as_str()) {
            return false;
        }
        self.pending_prompt = prompt;
        self.streaming = true;
        self.live_answer = String::new();
        self.live_error = None;
        self.live_budget = None;
        assert(self@.answer =~= Seq::empty());
        true
    }

    /// The question could not be sent or its reply not be read.
    pub fn fail(&mut self, failure: &SendFailure)
        ensures
            final(self)@ == (Live {
                streaming: false,
                error: Some(failure.words()),
                ..old(self)@
            }),
    {
        self.streaming = false;
        self.live_error = Some(failure.message());
    }

    /// One read of the reply.
    pub fn take_chunk(&mut self, buffer: &mut String, read: Read) -> (r: ReadNext)
        ensures
            final(self)@ == after_read(old(self)@, read),
            final(buffer)@ == buffered(old(buffer)@, read),
            r == next_of(read),
    {
        match read {
            Read::Failed(t) => {
                self.live_error = Some(concat2("read error: ", t.as_str()));
                ReadNext::Stop
            },
            Read::Chunk { done, value } => {
                match value {
                    ChunkValue::Other => {
                        self.live_error = Some("non-bytes chunk".to_string());
                        return ReadNext::Stop;
                    },
                    ChunkValue::Bytes(Some(t)) => {
                        buffer.append(t.as_str());
                    },
                    _ => {},
                }
                if done {
                    ReadNext::DrainAndStop
                } else {
                    ReadNext::Drain
                }
            },
        }
    }

    /// The reply has been read to its end, or as far as it could be. The stored
    /// turns are loaded again after it.
    pub fn finished(&mut self)
        ensures
            final(self)@ == (Live { streaming: false, ..old(self)@ }),
    {
        self.streaming = false;
    }
}

// ---------------------------------------------------------------------------
// Events
// ---------------------------------------------------------------------------
/// An event whose data is JSON that the caller reads.
#[derive(Debug, Clone, PartialEq, Eq)]
pub enum Pending {
    /// The data of a `final` event: `apply_final` takes what it holds.
    Final(String),
    /// The data of a `budget` event: `apply_budget` takes what it holds.
    Budget(String),
}

/// Whether the block's data is left to the caller.
pub open spec fn is_pending(block: Seq<char>) -> bool {
    block_kind(block) == "final"@ || block_kind(block) == "budget"@
}

/// What the caller is to read of a block.
pub open spec fn leaves_pending(block: Seq<char>, p: Option<Pending>) -> bool {
    if block_kind(block) == "final"@ {
        p matches Some(Pending::Final(data)) && data@ == block_data(block)
    } else if block_kind(block) == "budget"@ {
        p matches Some(Pending::Budget(data)) && data@ == block_data(block)
    } else {
        p is None
    }
}

/// What the page shows after a block whose data is not left to the caller: a
/// piece of the answer joins it, an error is shown and ends the streaming, an
/// unknown event changes nothing.
pub open spec fn with_block(s: Live, block: Seq<char>) -> Live {
    if block_kind(block) == "delta"@ {
        Live { answer: s.answer + text_or_raw(block_data(block)), ..s }
    } else if block_kind(block) == "error"@ {
        Live { error: Some(block_data(block)), streaming: false, ..s }
    } else {
        s
    }
}

/// What taking events off a buffer comes to.
pub struct Taken {
    pub live: Live,
    pub rest: Seq<char>,
    /// The block whose data is left to the caller.
    pub block: Option<Seq<char>>,
}

/// Takes events off the buffer up to the first whose data is left to the
/// caller, or as long as there is a complete one.
pub open spec fn taken(s: Live, buffer: Seq<char>) -> Taken
    decreases buffer.len(),
{
    match blank_line(buffer) {
        Some(k) => if 0 <= k < buffer.len() - 1 {
            let block = buffer.subrange(0, k);
            let rest = buffer.subrange(k + 2, buffer.len() as int);
            if is_pending(block) {
                Taken { live: s, rest, block: Some(block) }
            } else {
                taken(with_block(s, block), rest)
            }
        } else {
            Taken { live: s, rest: buffer, block: None }
        },
        None => Taken { live: s, rest: buffer, block: None },
    }
}

/// The text as `delta` events, as the server writes them.
pub open spec fn delta_stream(pieces: Seq<Seq<char>>) -> Seq<char>
    decreases pieces.len(),
{
    if pieces.len() == 0 {
        Seq::empty()
    } else {
        event_text("delta"@, json_string(pieces[0])) + delta_stream(pieces.drop_first())
    }
}

/// Pieces of text one after the other.
pub open spec fn flowing(pieces: Seq<Seq<char>>) -> Seq<char>
    decreases pieces.len(),
{
    if pieces.len() == 0 {
        Seq::empty()
    } else {
        flowing(pieces.drop_last()) + pieces.last()
    }
}

/// The buffer holds these pieces as `delta` events, and behind them text that
/// is not a complete event.
pub open spec fn holds_deltas(buffer: Seq<char>, pieces: Seq<Seq<char>>, rest: Seq<char>) -> bool {
    buffer == delta_stream(pieces) + rest && blank_line(rest) is None
}

/// The buffer holds these pieces as `delta` events, behind them an event of
/// this kind with this data, as the server writes it, and behind that any text.
pub open spec fn holds_event(
    buffer: Seq<char>,
    pieces: Seq<Seq<char>>,
    kind: Seq<char>,
    data: Seq<char>,
    rest: Seq<char>,
) -> bool {
    &&& buffer == delta_stream(pieces) + event_text(kind, data) + rest
    &&& is_plain_kind(kind)
    &&& is_plain_data(data)
}

/// The kind and the data of a `delta` event are plain.
proof fn lemma_delta_is_plain(t: Seq<char>)
    ensures
        is_plain_kind("delta"@),
        is_plain_data(json_string(t)),
{
    reveal_strlit("delta");
    crate::json::json_string_is_one_line(t);
    let j = json_string(t);
    assert(!j.contains('\r'));
    assert(!j.contains('\n'));
    crate::text::lemma_pieces_single(j, '\n');
}

/// The first piece comes off the buffer as a `delta` event that carries it.
proof fn lemma_next_delta(buffer: Seq<char>, pieces: Seq<Seq<char>>, rest: Seq<char>)
    requires
        holds_deltas(buffer, pieces, rest),
    ensures
        pieces.len() == 0 ==> blank_line(buffer) is None && buffer == rest,
        pieces.len() > 0 ==> {
            &&& blank_line(buffer) matches Some(k)
            &&& 0 <= k < buffer.len() - 1
            &&& block_kind(buffer.subrange(0, k)) == "delta"@
            &&& block_data(buffer.subrange(0, k)) == json_string(pieces[0])
            &&& holds_deltas(
                buffer.subrange(k + 2, buffer.len() as int),
                pieces.drop_first(),
                rest,
            )
        },
{
    if pieces.len() == 0 {
        assert(buffer =~= rest);
    } else {
        let t = pieces[0];
        let behind = delta_stream(pieces.drop_first()) + rest;
        lemma_delta_is_plain(t);
        assert(buffer =~= event_text("delta"@, json_string(t)) + behind);
        crate::sse::event_comes_off_whole("delta"@, json_string(t), behind);
        crate::sse::block_reads_back("delta"@, json_string(t));
        crate::sse::lemma_blank_line_found(buffer);
    }
}

/// The first piece comes off the buffer as a `delta` event that carries it; if
/// there is none, the event comes off, whole.
proof fn lemma_next_event(
    buffer: Seq<char>,
    pieces: Seq<Seq<char>>,
    kind: Seq<char>,
    data: Seq<char>,
    rest: Seq<char>,
)
    requires
        holds_event(buffer, pieces, kind, data, rest),
    ensures
        blank_line(buffer) matches Some(k) && 0 <= k < buffer.len() - 1,
        blank_line(buffer) matches Some(k) ==> if pieces.len() == 0 {
            &&& block_kind(buffer.subrange(0, k)) == kind
            &&& block_data(buffer.subrange(0, k)) == data
            &&& buffer.subrange(k + 2, buffer.len() as int) == rest
        } else {
            &&& block_kind(buffer.subrange(0, k)) == "delta"@
            &&& block_data(buffer.subrange(0, k)) == json_string(pieces[0])
            &&& holds_event(
                buffer.subrange(k + 2, buffer.len() as int),
                pieces.drop_first(),
                kind,
                data,
                rest,
            )
        },
{
    if pieces.len() == 0 {
        assert(buffer =~= event_text(kind, data) + rest);
        crate::sse::event_comes_off_whole(kind, data, rest);
        crate::sse::block_reads_back(kind, data);
        crate::sse::lemma_blank_line_found(buffer);
    } else {
        let t = pieces[0];
        let behind = delta_stream(pieces.drop_first()) + event_text(kind, data) + rest;
        lemma_delta_is_plain(t);
        assert(buffer =~= event_text("delta"@, json_string(t)) + behind);
        crate::sse::event_comes_off_whole("delta"@, json_string(t), behind);
        crate::sse::block_reads_back("delta"@, json_string(t));
        crate::sse::lemma_blank_line_found(buffer);
    }
}

impl LiveState {
    /// Takes every complete event off the buffer and shows it, in order; what
    /// is not complete waits for the next chunk. Stops at an event whose data
    /// the caller reads.
    ///
    /// Pieces of an answer that the server wrote as `delta` events are shown as
    /// they were, and the data of a `final` or `budget` event that it wrote
    /// behind them is handed to the caller as it was; what follows the event
    /// stays in the buffer.
    pub fn drain_sse_events(&mut self, buffer: &mut String) -> (r: Option<Pending>)
        ensures
            final(self)@ == taken(old(self)@, old(buffer)@).live,
            final(buffer)@ == taken(old(self)@, old(buffer)@).rest,
            match taken(old(self)@, old(buffer)@).block {
                Some(block) => is_pending(block) && leaves_pending(block, r),
                None => r is None,
            },
            forall|pieces: Seq<Seq<char>>, rest: Seq<char>| #[trigger]
                holds_deltas(old(buffer)@, pieces, rest) ==> r is None && final(buffer)@ == rest
                    && final(self)@ == (Live {
                    answer: old(self)@.answer + flowing(pieces),
                    ..old(self)@
                }),
            forall|pieces: Seq<Seq<char>>, data: Seq<char>, rest: Seq<char>| #[trigger]
                holds_event(old(buffer)@, pieces, "final"@, data, rest) ==> (
                r matches Some(Pending::Final(d)) && d@ == data && final(buffer)@ == rest
                    && final(self)@ == (Live {
                    answer: old(self)@.answer + flowing(pieces),
                    ..old(self)@
                })),
            forall|pieces: Seq<Seq<char>>, data: Seq<char>, rest: Seq<char>| #[trigger]
                holds_event(old(buffer)@, pieces, "budget"@, data, rest) ==> (
                r matches Some(Pending::Budget(d)) && d@ == data && final(buffer)@ == rest
                    && final(self)@ == (Live {
                    answer: old(self)@.answer + flowing(pieces),
                    ..old(self)@
                })),
    {
        let ghost start = self@;
        let ghost text = buffer@;
        let ghost mut n: int = 0;
        proof {
            assert forall|pieces: Seq<Seq<char>>, rest: Seq<char>| #[trigger]
                holds_deltas(text, pieces, rest) implies 0 <= n <= pieces.len() && holds_deltas(
                buffer@,
                pieces.skip(n),
                rest,
            ) && self@ == (Live { answer: start.answer + flowing(pieces.take(n)), ..start }) by {
                assert(pieces.skip(0) =~= pieces);
                assert(pieces.take(0) =~= Seq::empty());
                assert(start.answer + Seq::<char>::empty() =~= start.answer);
            }
            assert forall|
                pieces: Seq<Seq<char>>,
                kind: Seq<char>,
                data: Seq<char>,
                rest: Seq<char>,
            | #[trigger]
                holds_event(text, pieces, kind, data, rest) implies 0 <= n <= pieces.len()
                && holds_event(buffer@, pieces.skip(n), kind, data, rest) && self@ == (Live {
                answer: start.answer + flowing(pieces.take(n)),
                ..start
            }) by {
                assert(pieces.skip(0) =~= pieces);
                assert(pieces.take(0) =~= Seq::empty());
                assert(start.answer + Seq::<char>::empty() =~= start.answer);
            }
        }
        loop
            invariant
                taken(self@, buffer@) == taken(start, text),
                start == old(self)@,
                text == old(buffer)@,
                0 <= n,
                forall|pieces: Seq<Seq<char>>, rest: Seq<char>| #[trigger]
                    holds_deltas(text, pieces, rest) ==> n <= pieces.len() && holds_deltas(
                        buffer@,
                        pieces.skip(n),
                        rest,
                    ) && self@ == (Live { answer: start.answer + flowing(pieces.take(n)), ..start }),
                forall|pieces: Seq<Seq<char>>, kind: Seq<char>, data: Seq<char>, rest: Seq<char>|
                    #[trigger]
                    holds_event(text, pieces, kind, data, rest) && (kind == "final"@ || kind
                        == "budget"@) ==> n <= pieces.len() && holds_event(
                        buffer@,
                        pieces.skip(n),
                        kind,
                        data,
                        rest,
                    ) && self@ == (Live { answer: start.answer + flowing(pieces.take(n)), ..start }),
            decreases buffer@.len(),
        {
            let ghost shown = self@;
            let ghost waiting = buffer@;
            proof {
                assert forall|pieces: Seq<Seq<char>>, rest: Seq<char>| #[trigger]
                    holds_deltas(text, pieces, rest) implies (if n < pieces.len() {
                    &&& blank_line(waiting) matches Some(k)
                    &&& 0 <= k < waiting.len() - 1
                    &&& block_kind(waiting.subrange(0, k)) == "delta"@
                    &&& block_data(waiting.subrange(0, k)) == json_string(pieces[n])
                    &&& holds_deltas(
                        waiting.subrange(k + 2, waiting.len() as int),
                        pieces.skip(n + 1),
                        rest,
                    )
                } else {
                    blank_line(waiting) is None && waiting == rest
                }) by {
                    lemma_next_delta(waiting, pieces.skip(n), rest);
                    if n < pieces.len() {
                        assert(pieces.skip(n)[0] == pieces[n]);
                        assert(pieces.skip(n).drop_first() =~= pieces.skip(n + 1));
                    }
                }
                assert forall|
                    pieces: Seq<Seq<char>>,
                    kind: Seq<char>,
                    data: Seq<char>,
                    rest: Seq<char>,
                | #[trigger]
                    holds_event(text, pieces, kind, data, rest) && (kind == "final"@ || kind
                        == "budget"@) implies (if n < pieces.len() {
                    &&& blank_line(waiting) matches Some(k)
                    &&& 0 <= k < waiting.len() - 1
                    &&& block_kind(waiting.subrange(0, k)) == "delta"@
                    &&& block_data(waiting.subrange(0, k)) == json_string(pieces[n])
                    &&& holds_event(
                        waiting.subrange(k + 2, waiting.len() as int),
                        pieces.skip(n + 1),
                        kind,
                        data,
                        rest,
                    )
                } else {
                    &&& pieces.take(n) == pieces
                    &&& blank_line(waiting) matches Some(k)
                    &&& 0 <= k < waiting.len() - 1
                    &&& block_kind(waiting.subrange(0, k)) == kind
                    &&& block_data(waiting.subrange(0, k)) == data
                    &&& waiting.subrange(k + 2, waiting.len() as int) == rest
                }) by {
                    lemma_next_event(waiting, pieces.skip(n), kind, data, rest);
                    if n < pieces.len() {
                        assert(pieces.skip(n)[0] == pieces[n]);
                        assert(pieces.skip(n).drop_first() =~= pieces.skip(n + 1));
                    } else {
                        assert(pieces.take(n) =~= pieces);
                    }
                }
            }
            let block = match take_block(buffer) {
                Some(block) => block,
                None => {
                    proof {
                        assert forall|pieces: Seq<Seq<char>>, rest: Seq<char>| #[trigger]
                            holds_deltas(text, pieces, rest) implies self@ == (Live {
                            answer: start.answer + flowing(pieces),
                            ..start
                        }) by {
                            assert(pieces.take(n) =~= pieces);
                        }
                    }
                    return None;
                },
            };
            let (kind, data) = read_block(block.as_str());
            proof {
                reveal_strlit("delta");
                reveal_strlit("final");
                reveal_strlit("budget");
                assert("delta"@[0] != "final"@[0] && "delta"@[0] != "budget"@[0]);
                assert("final"@[0] != "budget"@[0]);
            }
            if same_text(kind.as_str(), "final") {
                return Some(Pending::Final(data));
            }
            if same_text(kind.as_str(), "budget") {
                return Some(Pending::Budget(data));
            }
            if same_text(kind.as_str(), "delta") {
                let piece = decode_or_raw(data.as_str());
                self.live_answer.append(piece.as_str());
                proof {
                    assert forall|pieces: Seq<Seq<char>>, rest: Seq<char>| #[trigger]
                        holds_deltas(text, pieces, rest) implies n + 1 <= pieces.len()
                        && holds_deltas(buffer@, pieces.skip(n + 1), rest) && self@ == (Live {
                        answer: start.answer + flowing(pieces.take(n + 1)),
                        ..start
                    }) by {
                        assert(data@ == json_string(pieces[n]));
                        assert(piece@ == pieces[n]);
                        assert(pieces.take(n + 1).drop_last() =~= pieces.take(n));
                        assert(start.answer + flowing(pieces.take(n)) + pieces[n]
                            =~= start.answer + flowing(pieces.take(n + 1)));
                    }
                    assert forall|
                        pieces: Seq<Seq<char>>,
                        kind: Seq<char>,
                        last: Seq<char>,
                        rest: Seq<char>,
                    | #[trigger]
                        holds_event(text, pieces, kind, last, rest) && (kind == "final"@ || kind
                            == "budget"@) implies n + 1 <= pieces.len() && holds_event(
                        buffer@,
                        pieces.skip(n + 1),
                        kind,
                        last,
                        rest,
                    ) && self@ == (Live {
                        answer: start.answer + flowing(pieces.take(n + 1)),
                        ..start
                    }) by {
                        assert(data@ == json_string(pieces[n]));
                        assert(piece@ == pieces[n]);
                        assert(pieces.take(n + 1).drop_last() =~= pieces.take(n));
                        assert(start.answer + flowing(pieces.take(n)) + pieces[n]
                            =~= start.answer + flowing(pieces.take(n + 1)));
                    }
                }
            } else if same_text(kind.as_str(), "error") {
                self.live_error = Some(data);
                self.streaming = false;
            }
            proof {
                n = n + 1;
            }
        }
    }

    /// A final answer replaces the pieces shown so far; data that could not be
    /// read changes nothing.
    pub fn apply_final(&mut self, parsed: Option<AskFinalView>)
        ensures
            final(self)@ == (match parsed {
                Some(f) => Live { answer: f.answer@, ..old(self)@ },
                None => old(self)@,
            }),
    {
        if let Some(f) = parsed {
            self.live_answer = f.answer;
        }
    }

    /// A budget replaces the one shown so far; data that could not be read
    /// changes nothing.
    pub fn apply_budget(&mut self, parsed: Option<BudgetSnapshotView>)
        ensures
            final(self)@ == (match parsed {
                Some(b) => Live { budget: Some(b), ..old(self)@ },
                None => old(self)@,
            }),
    {
        if let Some(b) = parsed {
            self.live_budget = Some(b);
        }
    }
}

// ---------------------------------------------------------------------------
// The page
// ---------------------------------------------------------------------------
/// The turn in flight as the page shows it.
#[derive(Debug, Clone, PartialEq, Eq)]
pub struct StreamingBlock {
    pub prompt: String,
    /// `streaming…` as long as the answer arrives.
    pub note: &'static str,
    pub answer: String,
    pub error: Option<String>,
    pub budget: Option<BudgetLines>,
}

/// Whether there is anything in flight to show: an answer is arriving, has
/// arrived, or has failed.
pub open spec fn is_active(s: Live) -> bool {
    s.streaming || s.answer.len() > 0 || s.error is Some
}

impl LiveState {
    /// The turn in flight as the page shows it, `None` if there is nothing to
    /// show. `cost` is the cost of the budget with four decimals, `precise`
    /// with six.
    pub fn render_streaming_block(&self, cost: &str, precise: &str) -> (r: Option<StreamingBlock>)
        ensures
            !is_active(self@) ==> r is None,
            is_active(self@) ==> {
                &&& r matches Some(b)
                &&& b.prompt@ == self@.pending_prompt
                &&& b.note@ == (if self@.streaming {
                    "streaming…"@
                } else {
                    ""@
                })
                &&& b.answer@ == self@.answer
                &&& optional_text(b.error) == (match self@.error {
                    Some(e) => Some("error: "@ + e),
                    None => None,
                })
                &&& (match self@.budget {
                    Some(budget) => b.budget matches Some(lines) && lines.summary@
                        == budget_summary(budget, cost@) && lines.total_tokens@
                        == "total tokens: "@ + decimal(budget.total_tokens as nat)
                        && lines.cached_input_tokens@ == "cached input tokens: "@ + decimal(
                        budget.cached_input_tokens as nat,
                    ) && lines.cost@ == "cost (USD): "@ + precise@ && lines.calls@
                        == "LLM calls: "@ + decimal(budget.call_count as nat),
                    None => b.budget is None,
                })
            },
    {
        let active = self.streaming || !self.live_answer.as_str().is_empty()
            || self.live_error.is_some();
        if !active {
            return None;
        }
        let note = if self.streaming {
            "streaming…"
        } else {
            ""
        };
        let error = match &self.live_error {
            Some(e) => Some(concat2("error: ", e.as_str())),
            None => None,
        };
        let budget = match self.live_budget {
            Some(b) => Some(BudgetBadge(b, cost, precise)),
            None => None,
        };
        Some(
            StreamingBlock {
                prompt: self.pending_prompt.clone(),
                note,
                answer: self.live_answer.clone(),
                error,
                budget,
            },
        )
    }

    /// The label of the form's button, which is disabled while an answer
    /// arrives.
    pub fn button_label(&self) -> (r: &'static str)
        ensures
            r@ == (if self@.streaming {
                "Streaming…"@
            } else {
                "Send"@
            }),
    {
        if self.streaming {
            "Streaming…"
        } else {
            "Send"
        }
    }
}

// ---------------------------------------------------------------------------
// The form
// ---------------------------------------------------------------------------
/// The name of the text area that holds the prompt.
pub const PROMPT_FIELD: &'static str = "prompt";

/// The element at `i` is a text area with the prompt's name.
pub open spec fn is_prompt(elements: Seq<Option<String>>, i: int) -> bool {
    elements[i] matches Some(name) && name@ == PROMPT_FIELD@
}

/// Which of a form's elements is the prompt: the first text area of that name.
/// An element that is no text area has no name here.
pub fn prompt_field(elements: &Vec<Option<String>>) -> (r: Option<usize>)
    ensures
        match r {
            Some(i) => i < elements@.len() && is_prompt(elements@, i as int) && forall|j: int|
                0 <= j < i ==> !#[trigger] is_prompt(elements@, j),
            None => forall|j: int| 0 <= j < elements@.len() ==> !#[trigger] is_prompt(elements@, j),
        },
{
    let mut i: usize = 0;
    while i < elements.len()
        invariant
            i <= elements@.len(),
            forall|j: int| 0 <= j < i ==> !#[trigger] is_prompt(elements@, j),
        decreases elements@.len() - i,
    {
        if let Some(name) = &elements[i] {
            if same_text(name.as_str(), PROMPT_FIELD) {
                return Some(i);
            }
        }
        i = i + 1;
    }
    None
}

/// A byte that stands for itself in a form: a letter, a digit, or one of
/// `-_.~`.
pub open spec fn is_unreserved(b: u8) -> bool {
    ||| 65 <= b <= 90
    ||| 97 <= b <= 122
    ||| 48 <= b <= 57
    ||| b == 45
    ||| b == 95
    ||| b == 46
    ||| b == 126
}

/// The upper-case hexadecimal digit `n`.
pub open spec fn upper_hex(n: u8) -> char {
    if n < 10 {
        (48 + n) as char
    } else {
        (55 + n) as char
    }
}

fn upper_hex_digit(n: u8) -> (r: char)
    requires
        n < 16,
    ensures
        r == upper_hex(n),
{
    if n < 10 {
        (48 + n) as char
    } else {
        (55 + n) as char
    }
}

/// How one byte is written in a form: itself, a plus sign for a space, or a
/// percent sign and two hexadecimal digits.
pub open spec fn escaped_byte(b: u8) -> Seq<char> {
    if is_unreserved(b) {
        seq![b as char]
    } else if b == 32 {
        seq!['+']
    } else {
        seq!['%', upper_hex((b / 16) as u8), upper_hex((b % 16) as u8)]
    }
}

/// Bytes as they are written in a form.
pub open spec fn form_bytes(bytes: Seq<u8>) -> Seq<char>
    decreases bytes.len(),
{
    if bytes.len() == 0 {
        Seq::empty()
    } else {
        form_bytes(bytes.drop_last()) + escaped_byte(bytes.last())
    }
}

/// A text as it is written in a form: byte by byte of its UTF-8 encoding.
pub open spec fn form_text(s: Seq<char>) -> Seq<char> {
    form_bytes(vstd::utf8::encode_utf8(s))
}

/// A text as it is written in a form.
pub fn urlencode(s: &str) -> (r: String)
    ensures
        r@ == form_text(s@),
{
    let bytes = s.as_bytes();
    let mut out = String::new();
    let mut i: usize = 0;
    while i < bytes.len()
        invariant
            i <= bytes@.len(),
            out@ == form_bytes(bytes@.take(i as int)),
        decreases bytes@.len() - i,
    {
        let b = bytes[i];
        let ghost was = out@;
        if (65 <= b && b <= 90) || (97 <= b && b <= 122) || (48 <= b && b <= 57) || b == 45 || b
            == 95 || b == 46 || b == 126 {
            out.push(b as char);
        } else if b == 32 {
            out.push('+');
        } else {
            out.push('%');
            out.push(upper_hex_digit(b / 16));
            out.push(upper_hex_digit(b % 16));
        }
        assert(out@ =~= was + escaped_byte(b));
        assert(bytes@.take(i + 1).drop_last() =~= bytes@.take(i as int));
        i = i + 1;
    }
    assert(bytes@.take(bytes@.len() as int) =~= bytes@);
    out
}

/// A field of a form: its name, an equals sign and its value.
pub open spec fn form_field(field: (String, String)) -> Seq<char> {
    form_text(field.0@) + "="@ + form_text(field.1@)
}

/// The fields of a form, in order.
pub open spec fn form_fields(fields: Seq<(String, String)>) -> Seq<Seq<char>> {
    fields.map_values(|f: (String, String)| form_field(f))
}

/// The body of a form: its fields in order, with an ampersand between each
/// two.
pub fn form_data_to_urlencoded(fields: &Vec<(String, String)>) -> (r: String)
    ensures
        r@ == joined(form_fields(fields@), "&"@),
{
    let mut out = String::new();
    let mut i: usize = 0;
    while i < fields.len()
        invariant
            i <= fields@.len(),
            out@ == joined(form_fields(fields@).take(i as int), "&"@),
        decreases fields@.len() - i,
    {
        proof {
            let next = form_fields(fields@).take(i + 1);
            assert(next.drop_last() =~= form_fields(fields@).take(i as int));
            assert(next.last() == form_field(fields@[i as int]));
        }
        let ghost was = out@;
        let name = urlencode(fields[i].0.as_str());
        let value = urlencode(fields[i].1.as_str());
        if i > 0 {
            out.append("&");
        }
        out.append(name.as_str());
        out.append("=");
        out.append(value.as_str());
        if i == 0 {
            assert(out@ =~= form_field(fields@[0]));
        } else {
            assert(out@ =~= was + "&"@ + form_field(fields@[i as int]));
        }
        i = i + 1;
    }
    assert(form_fields(fields@).take(fields@.len() as int) =~= form_fields(fields@));
    out
}

// ---------------------------------------------------------------------------
// Laws: the form
// ---------------------------------------------------------------------------
/// The bytes that a form's text stands for, as a server reads it: a plus sign
/// is a space, a percent sign and two hexadecimal digits are a byte, every
/// other character below 128 is itself.
pub open spec fn form_read(s: Seq<char>) -> Option<Seq<u8>>
    decreases s.len(),
{
    if s.len() == 0 {
        Some(Seq::empty())
    } else if s[0] == '%' {
        if s.len() < 3 {
            None
        } else {
            match (
                hex_value(s[1]),
                hex_value(s[2]),
                form_read(s.subrange(3, s.len() as int)),
            ) {
                (Some(h), Some(l), Some(rest)) => Some(seq![(16 * h + l) as u8] + rest),
                _ => None,
            }
        }
    } else if (s[0] as u32) < 128 {
        match form_read(s.subrange(1, s.len() as int)) {
            Some(rest) => Some(
                seq![
                    if s[0] == '+' {
                        32u8
                    } else {
                        s[0] as u8
                    },
                ] + rest,
            ),
            None => None,
        }
    } else {
        None
    }
}

proof fn lemma_hex_digit_read(n: u8)
    requires
        n < 16,
    ensures
        hex_value(upper_hex(n)) == Some(n as nat),
{
}

/// A byte in front is read first.
proof fn lemma_form_read_byte(b: u8, s: Seq<char>)
    ensures
        form_read(escaped_byte(b) + s) == (match form_read(s) {
            Some(rest) => Some(seq![b] + rest),
            None => None,
        }),
{
    let t = escaped_byte(b) + s;
    if is_unreserved(b) {
        assert(t[0] == b as char);
        assert(t.subrange(1, t.len() as int) =~= s);
        assert((b as char) as u8 == b);
    } else if b == 32 {
        assert(t[0] == '+');
        assert(t.subrange(1, t.len() as int) =~= s);
    } else {
        let h = (b / 16) as u8;
        let l = (b % 16) as u8;
        lemma_hex_digit_read(h);
        lemma_hex_digit_read(l);
        assert(t[0] == '%');
        assert(t[1] == upper_hex(h));
        assert(t[2] == upper_hex(l));
        assert(t.subrange(3, t.len() as int) =~= s);
        assert((16 * h + l) as u8 == b);
    }
}

/// The encoding of bytes, the first one in front.
proof fn lemma_form_bytes_first(bytes: Seq<u8>)
    requires
        bytes.len() > 0,
    ensures
        form_bytes(bytes) == escaped_byte(bytes[0]) + form_bytes(bytes.drop_first()),
    decreases bytes.len(),
{
    let front = bytes.drop_last();
    if bytes.len() == 1 {
        assert(front =~= Seq::empty());
        assert(bytes.drop_first() =~= Seq::empty());
        assert(form_bytes(bytes) =~= escaped_byte(bytes[0]) + form_bytes(bytes.drop_first()));
    } else {
        lemma_form_bytes_first(front);
        assert(front.drop_first() =~= bytes.drop_first().drop_last());
        assert(bytes.drop_first().last() == bytes.last());
        assert(form_bytes(bytes) =~= escaped_byte(bytes[0]) + form_bytes(bytes.drop_first()));
    }
}

proof fn lemma_form_bytes_read(bytes: Seq<u8>)
    ensures
        form_read(form_bytes(bytes)) == Some(bytes),
    decreases bytes.len(),
{
    if bytes.len() == 0 {
        assert(bytes =~= Seq::empty());
    } else {
        lemma_form_bytes_first(bytes);
        lemma_form_bytes_read(bytes.drop_first());
        lemma_form_read_byte(bytes[0], form_bytes(bytes.drop_first()));
        assert(seq![bytes[0]] + bytes.drop_first() =~= bytes);
    }
}

/// What is written into a form is what the server reads out of it.
pub proof fn form_text_reads_back(s: Seq<char>)
    ensures
        form_read(form_text(s)) == Some(vstd::utf8::encode_utf8(s)),
        vstd::utf8::decode_utf8(vstd::utf8::encode_utf8(s)) == s,
{
    lemma_form_bytes_read(vstd::utf8::encode_utf8(s));
    vstd::utf8::encode_utf8_decode_utf8(s);
}

proof fn lemma_form_bytes_are_safe(bytes: Seq<u8>, c: char)
    requires
        c == '&' || c == '=',
    ensures
        !form_bytes(bytes).contains(c),
    decreases bytes.len(),
{
    let s = form_bytes(bytes);
    if s.contains(c) {
        let i = choose|i: int| 0 <= i < s.len() && s[i] == c;
        let front = form_bytes(bytes.drop_last());
        lemma_form_bytes_are_safe(bytes.drop_last(), c);
        if i < front.len() {
            assert(front[i] == c);
        } else {
            assert(s[i] == escaped_byte(bytes.last())[i - front.len()]);
        }
    }
}

/// The body of a form comes apart into its fields at the ampersands, and each
/// field into its name and its value at the equals sign.
pub proof fn form_body_comes_apart(fields: Seq<(String, String)>)
    requires
        fields.len() > 0,
    ensures
        crate::text::pieces(joined(form_fields(fields), "&"@), '&') == form_fields(fields),
        forall|i: int|
            0 <= i < fields.len() ==> crate::text::pieces(#[trigger] form_fields(fields)[i], '=')
                == seq![form_text(fields[i].0@), form_text(fields[i].1@)],
{
    reveal_strlit("&");
    reveal_strlit("=");
    assert("&"@ =~= seq!['&']);
    assert("="@ =~= seq!['=']);
    let v = form_fields(fields);
    assert forall|i: int| 0 <= i < v.len() implies !(#[trigger] v[i]).contains('&') by {
        let a = form_text(fields[i].0@);
        let b = form_text(fields[i].1@);
        lemma_form_bytes_are_safe(vstd::utf8::encode_utf8(fields[i].0@), '&');
        lemma_form_bytes_are_safe(vstd::utf8::encode_utf8(fields[i].1@), '&');
        assert(v[i] == a + seq!['='] + b);
        if v[i].contains('&') {
            let j = choose|j: int| 0 <= j < v[i].len() && v[i][j] == '&';
            if j < a.len() {
                assert(a[j] == '&');
            } else if j > a.len() {
                assert(b[j - a.len() - 1] == '&');
            }
        }
    }
    crate::text::lemma_pieces_of_joined(v, '&');
    assert forall|i: int| 0 <= i < fields.len() implies crate::text::pieces(#[trigger] v[i], '=')
        == seq![form_text(fields[i].0@), form_text(fields[i].1@)] by {
        let a = form_text(fields[i].0@);
        let b = form_text(fields[i].1@);
        lemma_form_bytes_are_safe(vstd::utf8::encode_utf8(fields[i].0@), '=');
        lemma_form_bytes_are_safe(vstd::utf8::encode_utf8(fields[i].1@), '=');
        crate::text::lemma_pieces_single(a, '=');
        crate::text::lemma_pieces_single(b, '=');
        crate::text::lemma_pieces_concat(a, b, '=');
        assert(v[i] =~= a.push('=') + b);
        assert(seq![a] + seq![b] =~= seq![a, b]);
    }
}

// ---------------------------------------------------------------------------
// Laws: the stream
// ---------------------------------------------------------------------------
/// How the caller reads the data of `final` and `budget` events.
pub struct Readers {
    pub final_answer: spec_fn(Seq<char>) -> Option<FinalAnswer>,
    pub budget: spec_fn(Seq<char>) -> Option<BudgetSnapshotView>,
}

/// What the page shows after a block, whoever reads its data.
pub open spec fn shown(s: Live, block: Seq<char>, r: Readers) -> Live {
    if block_kind(block) == "final"@ {
        match (r.final_answer)(block_data(block)) {
            Some(f) => Live { answer: f.answer, ..s },
            None => s,
        }
    } else if block_kind(block) == "budget"@ {
        match (r.budget)(block_data(block)) {
            Some(b) => Live { budget: Some(b), ..s },
            None => s,
        }
    } else {
        with_block(s, block)
    }
}

/// What the page shows after blocks, the first one first.
pub open spec fn shown_all(s: Live, blocks: Seq<Seq<char>>, r: Readers) -> Live
    decreases blocks.len(),
{
    if blocks.len() == 0 {
        s
    } else {
        shown_all(shown(s, blocks[0], r), blocks.drop_first(), r)
    }
}

proof fn lemma_shown_all_concat(s: Live, a: Seq<Seq<char>>, b: Seq<Seq<char>>, r: Readers)
    ensures
        shown_all(s, a + b, r) == shown_all(shown_all(s, a, r), b, r),
    decreases a.len(),
{
    if a.len() == 0 {
        assert(a + b =~= b);
    } else {
        lemma_shown_all_concat(shown(s, a[0], r), a.drop_first(), b, r);
        assert((a + b).drop_first() =~= a.drop_first() + b);
        assert((a + b)[0] == a[0]);
    }
}

/// Stopping at an event for the caller to read loses nothing: the events shown
/// before it, the event itself and those taken off afterwards are the events
/// of the buffer, in order.
pub proof fn stopping_for_the_caller_loses_nothing(s: Live, buffer: Seq<char>, r: Readers)
    ensures
        match taken(s, buffer).block {
            None => taken(s, buffer).live == shown_all(s, drained(buffer).blocks, r) && taken(
                s,
                buffer,
            ).rest == drained(buffer).rest,
            Some(block) => shown_all(s, drained(buffer).blocks, r) == shown_all(
                shown(taken(s, buffer).live, block, r),
                drained(taken(s, buffer).rest).blocks,
                r,
            ) && drained(taken(s, buffer).rest).rest == drained(buffer).rest,
        },
    decreases buffer.len(),
{
    match blank_line(buffer) {
        Some(k) => if 0 <= k < buffer.len() - 1 {
            let block = buffer.subrange(0, k);
            let rest = buffer.subrange(k + 2, buffer.len() as int);
            let d = drained(rest);
            let all = seq![block] + d.blocks;
            assert(all.drop_first() =~= d.blocks);
            assert(drained(buffer).blocks == all);
            if !is_pending(block) {
                stopping_for_the_caller_loses_nothing(with_block(s, block), rest, r);
            }
        },
        None => {},
    }
}

/// However the reply is cut into chunks, the page shows the same in the end.
pub proof fn chunks_do_not_show(s: Live, a: Seq<char>, b: Seq<char>, r: Readers)
    ensures
        shown_all(s, drained(a + b).blocks, r) == shown_all(
            shown_all(s, drained(a).blocks, r),
            drained(drained(a).rest + b).blocks,
            r,
        ),
{
    crate::sse::chunks_do_not_matter(a, b);
    lemma_shown_all_concat(s, drained(a).blocks, drained(drained(a).rest + b).blocks, r);
}

/// A keep-alive comment changes nothing.
pub proof fn keep_alive_changes_nothing(s: Live, line: Seq<char>, r: Readers)
    requires
        line.len() > 0,
        line[0] == ':',
        !line.contains('\n'),
    ensures
        shown(s, line, r) == s,
{
    crate::sse::comment_is_silent(line);
    reveal_strlit("delta");
    reveal_strlit("final");
    reveal_strlit("budget");
    reveal_strlit("error");
    assert("delta"@.len() == 5 && "final"@.len() == 5 && "budget"@.len() == 6 && "error"@.len()
        == 5);
    assert(block_kind(line).len() == 0);
}

/// An error that the server sends is shown in its words, and ends the
/// streaming; the pieces shown so far stay.
pub proof fn error_is_shown(s: Live, words: Seq<char>, r: Readers)
    requires
        is_plain_data(words),
    ensures
        shown(s, event_block("error"@, words), r) == (Live {
            error: Some(words),
            streaming: false,
            ..s
        }),
{
    reveal_strlit("delta");
    reveal_strlit("final");
    reveal_strlit("budget");
    reveal_strlit("error");
    assert("error"@[0] != "delta"@[0]);
    assert("error"@[0] != "final"@[0]);
    assert("error"@[0] != "budget"@[0]);
    crate::sse::block_reads_back("error"@, words);
}

/// The pieces of an answer that the items carry, one for each that carries
/// one.
pub open spec fn pieces_in(items: Seq<AskItem>) -> Seq<Seq<char>>
    decreases items.len(),
{
    if items.len() == 0 {
        Seq::empty()
    } else {
        let front = pieces_in(items.drop_last());
        match items.last() {
            AskItem::Event(Some(AskPayload::PartialAnswer { text_delta })) => front.push(
                text_delta@,
            ),
            _ => front,
        }
    }
}

/// The pieces that the browser puts together are what the server has received.
pub proof fn pieces_flow_together(items: Seq<AskItem>)
    ensures
        flowing(pieces_in(items)) == said(items),
    decreases items.len(),
{
    if items.len() > 0 {
        let front = items.drop_last();
        pieces_flow_together(front);
        assert(said(front) + Seq::<char>::empty() =~= said(front));
        match items.last() {
            AskItem::Event(Some(AskPayload::PartialAnswer { text_delta })) => {
                assert(pieces_in(front).push(text_delta@).drop_last() =~= pieces_in(front));
            },
            _ => {},
        }
    }
}

/// An answer that arrived in pieces, without a final one, is recorded as the
/// page puts it together.
pub proof fn page_and_record_agree(items: Seq<AskItem>)
    requires
        forall|i: int| 0 <= i < items.len() ==> !is_final(#[trigger] items[i]),
        said(items).len() > 0,
    ensures
        recorded_text(received(items)) == flowing(pieces_in(items)),
{
    pieces_flow_together(items);
    crate::routes::ask::what_arrived_is_recorded(items);
}

/// The text that follows one more piece on the wire.
proof fn lemma_delta_stream_push(pieces: Seq<Seq<char>>, t: Seq<char>)
    ensures
        delta_stream(pieces.push(t)) == delta_stream(pieces) + event_text(
            "delta"@,
            json_string(t),
        ),
    decreases pieces.len(),
{
    let event = event_text("delta"@, json_string(t));
    if pieces.len() == 0 {
        assert(pieces.push(t).drop_first() =~= Seq::empty());
        assert(delta_stream(Seq::empty()) == Seq::<char>::empty());
        assert(delta_stream(pieces.push(t)) =~= event);
        assert(delta_stream(pieces) + event =~= event);
    } else {
        lemma_delta_stream_push(pieces.drop_first(), t);
        assert(pieces.push(t).drop_first() =~= pieces.drop_first().push(t));
        assert(pieces.push(t)[0] == pieces[0]);
        assert(delta_stream(pieces.push(t)) =~= delta_stream(pieces) + event);
    }
}

/// The `delta` events among the steps, as the browser receives them.
pub open spec fn deltas_sent(steps: Seq<RelayStep>) -> Seq<char>
    decreases steps.len(),
{
    if steps.len() == 0 {
        Seq::empty()
    } else {
        let front = deltas_sent(steps.drop_last());
        match steps.last() {
            RelayStep::Send(e) => match e {
                RelayEvent::Delta(data) => front + event_text(e.kind_name(), data@),
                _ => front,
            },
            _ => front,
        }
    }
}

/// What the relay sends of an answer is what the page puts together: read off
/// the events, the pieces are those that the agent sent, none cut, none lost
/// and none added, and together they are the answer that the relay has
/// received.
pub proof fn relayed_pieces_arrive_whole(items: Seq<AskItem>, steps: Seq<RelayStep>)
    requires
        items.len() == steps.len(),
        forall|i: int| 0 <= i < items.len() ==> step_for(items[i], #[trigger] steps[i]),
    ensures
        holds_deltas(deltas_sent(steps), pieces_in(items), Seq::empty()),
        flowing(pieces_in(items)) == received(items).answer,
        flowing(pieces_in(items)) == said(items),
    decreases items.len(),
{
    pieces_flow_together(items);
    crate::routes::ask::pieces_add_up(items);
    assert(delta_stream(pieces_in(items)) + Seq::<char>::empty() =~= delta_stream(
        pieces_in(items),
    ));
    assert(blank_line(Seq::empty()) is None) by {
        crate::sse::lemma_blank_line_found(Seq::empty());
    }
    if items.len() > 0 {
        let front = items.drop_last();
        let before = steps.drop_last();
        assert forall|i: int| 0 <= i < front.len() implies step_for(
            front[i],
            #[trigger] before[i],
        ) by {
            assert(before[i] == steps[i]);
        }
        relayed_pieces_arrive_whole(front, before);
        assert(delta_stream(pieces_in(front)) + Seq::<char>::empty() =~= delta_stream(
            pieces_in(front),
        ));
        let last = items.len() - 1;
        assert(step_for(items[last], steps[last]));
        match items[last] {
            AskItem::Event(Some(AskPayload::PartialAnswer { text_delta })) => {
                lemma_delta_stream_push(pieces_in(front), text_delta@);
            },
            _ => {},
        }
    }
}

/// The data of a `final` or `budget` event that the server wrote reaches the
/// caller as it was, under its kind; an event of another kind leaves the caller
/// nothing to read.
pub proof fn data_reaches_the_caller_whole(
    kind: Seq<char>,
    data: Seq<char>,
    p: Option<Pending>,
)
    requires
        is_plain_kind(kind),
        is_plain_data(data),
        leaves_pending(event_block(kind, data), p),
    ensures
        is_pending(event_block(kind, data)) <==> kind == "final"@ || kind == "budget"@,
        kind == "final"@ ==> (p matches Some(Pending::Final(d)) && d@ == data),
        kind == "budget"@ ==> (p matches Some(Pending::Budget(d)) && d@ == data),
        kind != "final"@ && kind != "budget"@ ==> p is None,
{
    crate::sse::block_reads_back(kind, data);
    reveal_strlit("final");
    reveal_strlit("budget");
    assert("final"@.len() != "budget"@.len());
}

/// Whoever wrote a `final` or `budget` block, the caller is handed its data lines
/// as they are.
pub proof fn foreign_data_reaches_the_caller_too(block: Seq<char>, p: Option<Pending>)
    requires
        leaves_pending(block, p),
    ensures
        p matches Some(Pending::Final(d)) ==> block_kind(block) == "final"@ && d@ == block_data(
            block,
        ),
        p matches Some(Pending::Budget(d)) ==> block_kind(block) == "budget"@ && d@ == block_data(
            block,
        ),
        p is None <==> block_kind(block) != "final"@ && block_kind(block) != "budget"@,
{
}

/// An event of a kind that the page does not know changes nothing.
pub proof fn unknown_events_change_nothing(s: Live, block: Seq<char>, r: Readers)
    requires
        block_kind(block) != "delta"@,
        block_kind(block) != "error"@,
        block_kind(block) != "final"@,
        block_kind(block) != "budget"@,
    ensures
        shown(s, block, r) == s,
{
}

/// A piece joins the answer at its end, and nothing else changes.
pub proof fn pieces_join_at_the_end(s: Live, block: Seq<char>, r: Readers)
    requires
        block_kind(block) == "delta"@,
    ensures
        shown(s, block, r).answer == s.answer + text_or_raw(block_data(block)),
        shown(s, block, r).pending_prompt == s.pending_prompt,
        shown(s, block, r).streaming == s.streaming,
        shown(s, block, r).error == s.error,
        shown(s, block, r).budget == s.budget,
{
    reveal_strlit("delta");
    reveal_strlit("final");
    reveal_strlit("budget");
    assert("delta"@[0] != "final"@[0] && "delta"@[0] != "budget"@[0]);
}

// ---------------------------------------------------------------------------
// Laws: the page
// ---------------------------------------------------------------------------
/// A question that is sent leaves nothing of the one before it on the page: only
/// the prompt, and that an answer is awaited. Before the first question there
/// is nothing to show.
pub proof fn a_question_starts_afresh(prompt: Seq<char>)
    ensures
        sending(prompt).pending_prompt == prompt,
        sending(prompt).streaming,
        sending(prompt).answer.len() == 0,
        sending(prompt).error is None,
        sending(prompt).budget is None,
        is_active(sending(prompt)),
        !is_active(idle()),
        idle().pending_prompt.len() == 0,
        idle().budget is None,
{
}

/// The page hides the turn in flight exactly if nothing is awaited, nothing has
/// arrived and nothing has failed.
pub proof fn only_an_empty_turn_is_hidden(s: Live)
    ensures
        !is_active(s) <==> !s.streaming && s.answer == Seq::<char>::empty() && s.error is None,
{
    if s.answer.len() == 0 {
        assert(s.answer =~= Seq::empty());
    }
}

/// A read changes nothing that is shown but the error, and that one only if it
/// failed or brought something that is not bytes.
pub proof fn reads_change_only_the_error(s: Live, read: Read)
    ensures
        after_read(s, read).pending_prompt == s.pending_prompt,
        after_read(s, read).streaming == s.streaming,
        after_read(s, read).answer == s.answer,
        after_read(s, read).budget == s.budget,
        match read {
            Read::Failed(t) => after_read(s, read).error == Some("read error: "@ + t@),
            Read::Chunk { value, .. } => after_read(s, read).error == (if value is Other {
                Some("non-bytes chunk"@)
            } else {
                s.error
            }),
        },
{
}

/// The text of a chunk stands in the buffer behind what waited there, all of
/// it; without text the buffer is as it was.
pub proof fn chunks_are_kept_whole(buffer: Seq<char>, read: Read)
    ensures
        match read {
            Read::Chunk { value: ChunkValue::Bytes(Some(t)), .. } => {
                &&& buffered(buffer, read).len() == buffer.len() + t@.len()
                &&& forall|i: int|
                    0 <= i < buffer.len() ==> #[trigger] buffered(buffer, read)[i] == buffer[i]
                &&& forall|i: int|
                    0 <= i < t@.len() ==> buffered(buffer, read)[buffer.len() + i]
                        == #[trigger] t@[i]
            },
            _ => buffered(buffer, read) == buffer,
        },
{
}

/// Reading goes on as long as chunks come that can be read, and ends with the
/// last; the events that have arrived by then are still shown.
pub proof fn reading_ends_with_the_last_chunk(read: Read)
    ensures
        next_of(read) == ReadNext::Stop <==> (match read {
            Read::Failed(_) => true,
            Read::Chunk { value, .. } => value is Other,
        }),
        read matches Read::Chunk { done, value } ==> (value !is Other ==> (next_of(read)
            == ReadNext::DrainAndStop <==> done) && (next_of(read) == ReadNext::Drain <==> !done)),
{
}

/// A failure to reach the server is told with its reason: the text that the
/// browser gave, or the number of the status.
pub proof fn failures_tell_their_reason(failure: SendFailure)
    ensures
        failure.words().len() > 0,
        failure is FormFields ==> failure.words() == "could not read form fields"@,
        failure is Request ==> failure.words() == "could not build streaming request"@,
        failure is Window ==> failure.words() == "no window object"@,
        failure is Response ==> failure.words() == "not a Response"@,
        failure is Body ==> failure.words() == "response had no body"@,
        failure is Reader ==> failure.words() == "cannot read response body"@,
        failure is Decoder ==> failure.words() == "no TextDecoder"@,
        failure matches SendFailure::Fetch(t) ==> failure.words() == "fetch failed: "@ + t@,
        failure matches SendFailure::Status(n) ==> failure.words() == "HTTP "@ + decimal(n as nat),
        failure matches SendFailure::Status(n) ==> failure.words().len() > 5
            && crate::text::number_of(failure.words().skip(5)) == n,
{
    reveal_strlit("could not read form fields");
    reveal_strlit("could not build streaming request");
    reveal_strlit("no window object");
    reveal_strlit("fetch failed: ");
    reveal_strlit("not a Response");
    reveal_strlit("HTTP ");
    reveal_strlit("response had no body");
    reveal_strlit("cannot read response body");
    reveal_strlit("no TextDecoder");
    match failure {
        SendFailure::Status(n) => {
            crate::text::decimal_spells_the_number(n as nat);
            assert(failure.words().skip(5) =~= decimal(n as nat));
        },
        _ => {},
    }
}

/// Letters, digits and the four marks `-_.~` are written as they are, a space
/// as a plus sign, and every other byte as a percent sign and two digits in
/// upper case.
pub proof fn plain_characters_are_not_escaped(b: u8)
    ensures
        'a' <= b as char <= 'z' || 'A' <= b as char <= 'Z' || '0' <= b as char <= '9' || b as char
            == '-' || b as char == '_' || b as char == '.' || b as char == '~' <==> escaped_byte(b)
            == seq![b as char],
        b as char == ' ' ==> escaped_byte(b) == seq!['+'],
        b as char != ' ' ==> escaped_byte(b) == seq![b as char] || {
            let e = escaped_byte(b);
            &&& e.len() == 3
            &&& e[0] == '%'
            &&& '0' <= e[1] <= '9' || 'A' <= e[1] <= 'F'
            &&& '0' <= e[2] <= '9' || 'A' <= e[2] <= 'F'
        },
{
    if escaped_byte(b).len() == 1 {
        assert(escaped_byte(b)[0] == seq![escaped_byte(b)[0]][0]);
    }
    if b == 32 {
        assert(escaped_byte(b)[0] == '+');
        assert(seq![b as char][0] == ' ');
    } else if !is_unreserved(b) {
        assert(escaped_byte(b).len() == 3 && seq![b as char].len() == 1);
    }
}

/// What the page shows is what its state holds.
pub proof fn the_state_is_shown_whole(s: LiveState)
    ensures
        s@.pending_prompt == s.pending_prompt@,
        s@.streaming == s.streaming,
        s@.answer == s.live_answer@,
        s@.error is None <==> s.live_error is None,
        s.live_error matches Some(e) ==> s@.error == Some(e@),
        s@.budget == s.live_budget,
{
}

/// The prompt is the text area named `prompt`, and nothing else is.
pub proof fn the_prompt_is_known_by_its_name(elements: Seq<Option<String>>, i: int)
    requires
        0 <= i < elements.len(),
    ensures
        is_prompt(elements, i) <==> (elements[i] matches Some(name) && name@ == "prompt"@),
{
}

/// What the turn in flight shows is what has arrived: the prompt, every word of
/// the answer, and the whole text of an error.
pub proof fn the_turn_in_flight_is_shown_whole(
    s: LiveState,
    cost: &str,
    precise: &str,
    block: Option<StreamingBlock>,
)
    requires
        call_ensures(LiveState::render_streaming_block, (&s, cost, precise), block),
    ensures
        block is None <==> !s.streaming && s.live_answer@.len() == 0 && s.live_error is None,
        block matches Some(b) ==> {
            &&& b.prompt@ == s.pending_prompt@
            &&& b.answer@ == s.live_answer@
            &&& b.note@.len() > 0 <==> s.streaming
            &&& b.error is Some <==> s.live_error is Some
            &&& b.error matches Some(t) ==> (s.live_error matches Some(e) && t@ == "error: "@ + e@)
            &&& b.budget is Some <==> s.live_budget is Some
        },
{
    reveal_strlit("streaming…");
    reveal_strlit("");
}

/// The body of a form that is sent comes apart into as many fields as the form
/// has, and the server reads each name and each value as it was.
pub proof fn the_form_arrives_whole(fields: Vec<(String, String)>, body: String)
    requires
        fields@.len() > 0,
        call_ensures(form_data_to_urlencoded, (&fields,), body),
    ensures
        crate::text::pieces(body@, '&').len() == fields@.len(),
        forall|i: int|
            0 <= i < fields@.len() ==> {
                let parts = crate::text::pieces(
                    #[trigger] crate::text::pieces(body@, '&')[i],
                    '=',
                );
                &&& parts.len() == 2
                &&& form_read(parts[0]) == Some(vstd::utf8::encode_utf8(fields@[i].0@))
                &&& form_read(parts[1]) == Some(vstd::utf8::encode_utf8(fields@[i].1@))
            },
{
    form_body_comes_apart(fields@);
    assert forall|i: int| 0 <= i < fields@.len() implies ({
        let parts = crate::text::pieces(#[trigger] crate::text::pieces(body@, '&')[i], '=');
        &&& parts.len() == 2
        &&& form_read(parts[0]) == Some(vstd::utf8::encode_utf8(fields@[i].0@))
        &&& form_read(parts[1]) == Some(vstd::utf8::encode_utf8(fields@[i].1@))
    }) by {
        assert(crate::text::pieces(form_fields(fields@)[i], '=').len() == 2);
        form_text_reads_back(fields@[i].0@);
        form_text_reads_back(fields@[i].1@);
    }
}

} // verus!
