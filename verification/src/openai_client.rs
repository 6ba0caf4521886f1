//! The completion-stream protocol: model identifiers, prompt messages, and
//! the parser for the event frames of a streaming chat-completion response.
//!
//! A response body is a sequence of newline-delimited frames. Every frame
//! line starting with `"data: "` is a candidate; the candidate body is either
//! the terminal marker `[DONE]` or one chunk-delta JSON object carrying an
//! optional text fragment at `choices[0].delta.content`.

use crate::models::SynthesisError;
use crate::text::str_eq;
use vstd::prelude::*;

verus! {

broadcast use vstd::string::group_string_axioms;

/// Available completion models.
#[derive(Clone, Copy, Debug)]
pub enum OpenAIModel {
    Gpt4o,
    Gpt4oMini,
}

/// The wire name of each model.
pub open spec fn model_name(m: OpenAIModel) -> Seq<char> {
    match m {
        OpenAIModel::Gpt4o => "gpt-4o"@,
        OpenAIModel::Gpt4oMini => "gpt-4o-mini"@,
    }
}

impl OpenAIModel {
    /// The model's wire name.
    pub fn as_str(&self) -> (r: &'static str)
        ensures
            r@ == model_name(*self),
    {
        match self {
            OpenAIModel::Gpt4o => "gpt-4o",
            OpenAIModel::Gpt4oMini => "gpt-4o-mini",
        }
    }
}

/// One prompt message: a role (`system` or `user`) and its text.
pub struct Message {
    pub role: String,
    pub content: String,
}

/// The optional text fragment carried by one chunk-delta object.
pub struct DeltaContent {
    pub content: Option<String>,
}

/// What parsing a candidate frame body as chunk-delta JSON yields: `None` for
/// malformed JSON, `Some(None)` for a well-formed chunk without a content
/// string, `Some(Some(text))` for one carrying a fragment. Parsing is a
/// function of the body text alone.
pub uninterp spec fn chunk_content_of(body: Seq<char>) -> Option<Option<Seq<char>>>;

/// Relies on serde_json::from_str and serde_json::Value's index and as_str
/// lookups: the parse is deterministic in the body text alone, fails exactly
/// on malformed JSON, indexing a missing path yields null (never a panic),
/// and as_str is `Some` exactly on a JSON string.
#[verifier::external_body]
fn parse_chunk_json(body: &str) -> (r: Option<DeltaContent>)
    ensures
        (match r {
            Some(d) => (match d.content {
                Some(c) => chunk_content_of(body@) == Some(Some(c@)),
                None => chunk_content_of(body@) == Some(None::<Seq<char>>),
            }),
            None => chunk_content_of(body@) is None,
        }),
{
    match serde_json::from_str::<serde_json::Value>(body) {
        Ok(v) => Some(DeltaContent {
            content: v["choices"][0]["delta"]["content"].as_str().map(|s| s.to_string()),
        }),
        Err(_) => None,
    }
}

/// Gates construction of the completion client on the bearer credential read
/// from the process environment: construction fails fast when it is absent.
pub fn require_credential(token: Option<String>) -> (r: Result<String, SynthesisError>)
    ensures
        (match token {
            Some(t) => (r matches Ok(k) && k@ == t@),
            None => (r matches Err(e) && e is MissingCredential),
        }),
{
    match token {
        Some(t) => Ok(t),
        None => Err(SynthesisError::MissingCredential),
    }
}

/// Gates the completion call on the endpoint's response status: any
/// non-success status fails the whole call, carrying the status code and the
/// full error body, before any chunk is read.
pub fn check_status(status: u16, error_body: String) -> (r: Result<(), SynthesisError>)
    ensures
        (200 <= status < 300) ==> r is Ok,
        !(200 <= status < 300) ==> (r matches Err(e) && (e matches SynthesisError::RequestFailed(
            s,
            b,
        ) && s == status && b@ == error_body@)),
{
    if 200 <= status && status < 300 {
        Ok(())
    } else {
        Err(SynthesisError::RequestFailed(status, error_body))
    }
}

/// One parsed unit of the streaming protocol: a (possibly empty) text
/// fragment, or the explicit end-of-stream marker.
pub enum StreamChunk {
    Content(String),
    Empty,
    Done,
}

/// The outcome of reading one frame line: not a candidate (or an empty
/// candidate), a chunk, or a hard parse failure.
pub enum FrameResult {
    Ignored,
    Chunk(StreamChunk),
    Malformed,
}

/// Whether a frame line begins with the candidate prefix `"data: "`.
pub open spec fn has_data_prefix(line: Seq<char>) -> bool {
    line.len() >= 6 && line.subrange(0, 6) == "data: "@
}

/// The candidate body of a frame line: everything after the prefix.
pub open spec fn frame_body(line: Seq<char>) -> Seq<char> {
    line.subrange(6, line.len() as int)
}

/// Ghost image of a frame's meaning, with text as mathematical strings.
pub enum FrameClass {
    Ignored,
    Done,
    Content(Seq<char>),
    Empty,
    Malformed,
}

/// What one frame line means: lines without the `"data: "` prefix and empty
/// candidate bodies are ignored, `[DONE]` ends the stream, and anything else
/// is chunk-delta JSON — malformed JSON is a hard failure, a missing content
/// string an empty chunk.
pub open spec fn classify_frame(line: Seq<char>) -> FrameClass {
    if !has_data_prefix(line) {
        FrameClass::Ignored
    } else if frame_body(line).len() == 0 {
        FrameClass::Ignored
    } else if frame_body(line) == "[DONE]"@ {
        FrameClass::Done
    } else {
        match chunk_content_of(frame_body(line)) {
            None => FrameClass::Malformed,
            Some(None) => FrameClass::Empty,
            Some(Some(c)) => FrameClass::Content(c),
        }
    }
}

/// Whether an executable frame outcome agrees with a frame's meaning.
pub open spec fn frame_result_matches(r: FrameResult, c: FrameClass) -> bool {
    match c {
        FrameClass::Ignored => r is Ignored,
        FrameClass::Done => r == FrameResult::Chunk(StreamChunk::Done),
        FrameClass::Empty => r == FrameResult::Chunk(StreamChunk::Empty),
        FrameClass::Content(s) => (r matches FrameResult::Chunk(StreamChunk::Content(t)) && t@
            == s),
        FrameClass::Malformed => r is Malformed,
    }
}

/// Whether `line` begins with `"data: "`.
fn has_prefix_data(line: &str) -> (r: bool)
    ensures
        r == has_data_prefix(line@),
{
    proof {
        reveal_strlit("data: ");
    }
    let n = line.unicode_len();
    if n < 6 {
        return false;
    }
    let ok = line.get_char(0) == 'd' && line.get_char(1) == 'a' && line.get_char(2) == 't'
        && line.get_char(3) == 'a' && line.get_char(4) == ':' && line.get_char(5) == ' ';
    proof {
        if ok {
            assert(line@.subrange(0, 6) =~= "data: "@);
        } else {
            assert(line@.subrange(0, 6) != "data: "@) by {
                assert(forall|i: int| 0 <= i < 6 ==> line@.subrange(0, 6)[i] == line@[i]);
            }
        }
    }
    ok
}

/// Whether a piece of text holds no frame separator.
pub open spec fn line_free(s: Seq<char>) -> bool {
    forall|i: int| 0 <= i < s.len() ==> s[i] != '\n'
}

/// The text that a sequence of complete frame lines plus an incomplete rest
/// stands for: each line followed by its separator, then the rest.
pub open spec fn joined(lines: Seq<Seq<char>>, rest: Seq<char>) -> Seq<char>
    decreases lines.len(),
{
    if lines.len() == 0 {
        rest
    } else {
        lines[0] + seq!['\n'] + joined(lines.drop_first(), rest)
    }
}

/// Completing one more line moves its text (and a separator) from the rest
/// into the line sequence without changing what the whole stands for.
proof fn lemma_joined_push(lines: Seq<Seq<char>>, l: Seq<char>, rest: Seq<char>)
    ensures
        joined(lines.push(l), rest) == joined(lines, l + seq!['\n'] + rest),
    decreases lines.len(),
{
    if lines.len() == 0 {
        assert(lines.push(l)[0] == l);
        assert(lines.push(l).drop_first() =~= Seq::<Seq<char>>::empty());
        assert(joined(lines.push(l), rest) == l + seq!['\n'] + joined(
            lines.push(l).drop_first(),
            rest,
        ));
        assert(joined(lines.push(l).drop_first(), rest) == rest);
        assert(joined(lines, l + seq!['\n'] + rest) == l + seq!['\n'] + rest);
    } else {
        assert(lines.push(l)[0] == lines[0]);
        assert(lines.push(l).drop_first() =~= lines.drop_first().push(l));
        lemma_joined_push(lines.drop_first(), l, rest);
        assert(joined(lines.push(l), rest) == lines[0] + seq!['\n'] + joined(
            lines.drop_first().push(l),
            rest,
        ));
        assert(joined(lines, l + seq!['\n'] + rest) == lines[0] + seq!['\n'] + joined(
            lines.drop_first(),
            l + seq!['\n'] + rest,
        ));
    }
}

/// Splits the text of a streaming response into its newline-delimited frame
/// lines, carrying text that straddles transport chunks over to the next one.
pub struct LineSplitter {
    pending: String,
}

impl View for LineSplitter {
    type V = Seq<char>;

    closed spec fn view(&self) -> Seq<char> {
        self.pending@
    }
}

impl LineSplitter {
    /// The carried-over text never holds a separator.
    pub open spec fn wf(self) -> bool {
        line_free(self@)
    }

    /// A splitter with nothing carried over.
    pub fn new() -> (s: Self)
        ensures
            s@ == Seq::<char>::empty(),
            s.wf(),
    {
        LineSplitter { pending: String::new() }
    }

    /// Takes the next piece of received text and hands out every frame line
    /// it completes; text after the last separator is carried over. The
    /// carried-over text before the call, the completed lines with their
    /// separators, and the text carried over after the call together spell
    /// out exactly the text seen so far.
    pub fn push_text(&mut self, text: &str) -> (lines: Vec<String>)
        requires
            old(self).wf(),
        ensures
            final(self).wf(),
            forall|k: int| 0 <= k < lines@.len() ==> line_free(#[trigger] lines@[k]@),
            joined(lines@.map_values(|l: String| l@), final(self)@) == old(self)@ + text@,
    {
        let n = text.unicode_len();
        let mut lines: Vec<String> = Vec::new();
        let mut cur = self.pending.clone();
        let mut start: usize = 0;
        let mut i: usize = 0;
        while i < n
            invariant
                start <= i <= n,
                n == text@.len(),
                line_free(cur@),
                forall|j: int| start <= j < i ==> text@[j] != '\n',
                forall|k: int| 0 <= k < lines@.len() ==> line_free(#[trigger] lines@[k]@),
                joined(lines@.map_values(|l: String| l@), cur@ + text@.subrange(start as int, n as int))
                    == old(self)@ + text@,
            decreases n - i,
        {
            if text.get_char(i) == '\n' {
                let ghost prior_lines = lines@.map_values(|l: String| l@);
                let ghost prior_cur = cur@;
                let ghost start0 = start as int;
                let ghost seg = text@.subrange(start as int, i as int);
                let ghost rest = text@.subrange(i as int + 1, n as int);
                cur.append(text.substring_char(start, i));
                lines.push(cur);
                cur = String::new();
                start = i + 1;
                proof {
                    assert(lines@.map_values(|l: String| l@) =~= prior_lines.push(
                        prior_cur + seg,
                    ));
                    assert(prior_cur + text@.subrange(start0, n as int) =~= (prior_cur + seg)
                        + seq!['\n'] + rest);
                    lemma_joined_push(prior_lines, prior_cur + seg, rest);
                    assert(cur@ + text@.subrange(start as int, n as int) =~= rest);
                }
            }
            i += 1;
        }
        cur.append(text.substring_char(start, n));
        self.pending = cur;
        lines
    }

    /// Surrenders the carried-over text as a final frame line, if the stream
    /// closed with an unterminated one.
    pub fn finish(&mut self) -> (last: Option<String>)
        ensures
            final(self)@ == Seq::<char>::empty(),
            final(self).wf(),
            (match last {
                Some(l) => l@ == old(self)@ && old(self)@.len() > 0,
                None => old(self)@.len() == 0,
            }),
    {
        if self.pending.as_str().is_empty() {
            None
        } else {
            let mut taken = String::new();
            std::mem::swap(&mut taken, &mut self.pending);
            Some(taken)
        }
    }
}

/// Reads one frame line of the streaming response.
pub fn parse_frame(line: &str) -> (r: FrameResult)
    ensures
        frame_result_matches(r, classify_frame(line@)),
{
    if !has_prefix_data(line) {
        return FrameResult::Ignored;
    }
    let n = line.unicode_len();
    let body = line.substring_char(6, n);
    if body.unicode_len() == 0 {
        return FrameResult::Ignored;
    }
    if str_eq(body, "[DONE]") {
        return FrameResult::Chunk(StreamChunk::Done);
    }
    match parse_chunk_json(body) {
        None => FrameResult::Malformed,
        Some(d) => match d.content {
            Some(c) => FrameResult::Chunk(StreamChunk::Content(c)),
            None => FrameResult::Chunk(StreamChunk::Empty),
        },
    }
}

} // verus!
