//! The synthesis orchestrator: resolves the platform's template, builds the
//! two-message prompt, and assembles the streamed completion under the
//! inactivity policy.
//!
//! The streaming transport itself is a collaborator: a driver forwards every
//! observation of the stream — a parsed chunk, a transport failure, the
//! stream closing, or the inactivity window elapsing — to
//! [`StreamAccumulator::step`], which decides whether to keep consuming,
//! finish with what was collected, or abort.

use crate::assets::{get_theme_template, template_lookup};
use crate::models::{SynthesisError, SynthesizerOutput, UserState};
use crate::openai_client::{classify_frame, parse_frame, FrameClass, FrameResult, Message, StreamChunk};
use crate::prompts::{system_message, SYSTEM_MESSAGE_PREFIX, SYSTEM_MESSAGE_SUFFIX};
use vstd::prelude::*;

verus! {

/// Everything of the user instruction that comes before the literal
/// description text.
pub const USER_MESSAGE_PREFIX: &'static str = "Create a theme by modifying ONLY the values in this template, keeping all field names exactly the same.\n\nUser Description: ";

/// The heading between the description text and the restated template.
pub const USER_MESSAGE_TEMPLATE_HEADER: &'static str = "\n\nTemplate Structure:\n";

/// The template a platform identifier names, as a total function; only
/// meaningful where `template_lookup` is `Some`.
pub open spec fn template_of(platform: Seq<char>) -> Seq<char> {
    match template_lookup(platform) {
        Some(t) => t,
        None => Seq::empty(),
    }
}

/// The exact text of the two prompt messages built for a platform and a
/// description: the system instruction embedding the platform's template, and
/// the user instruction carrying the description and restating the template.
pub open spec fn prompt_messages_ok(
    msgs: Seq<Message>,
    platform: Seq<char>,
    description: Seq<char>,
) -> bool {
    &&& msgs.len() == 2
    &&& msgs[0].role@ == "system"@
    &&& msgs[0].content@ == SYSTEM_MESSAGE_PREFIX@ + template_of(platform)
        + SYSTEM_MESSAGE_SUFFIX@
    &&& msgs[1].role@ == "user"@
    &&& msgs[1].content@ == USER_MESSAGE_PREFIX@ + description + USER_MESSAGE_TEMPLATE_HEADER@
        + template_of(platform)
}

/// The user instruction carries the description verbatim: it appears
/// unchanged as the slice right after the fixed user-message prefix.
pub proof fn lemma_prompt_contains_description(u: Seq<char>, d: Seq<char>, t: Seq<char>)
    requires
        u == USER_MESSAGE_PREFIX@ + d + USER_MESSAGE_TEMPLATE_HEADER@ + t,
    ensures
        u.subrange(USER_MESSAGE_PREFIX@.len() as int, (USER_MESSAGE_PREFIX@.len() + d.len()) as int)
            == d,
{
    assert(u.subrange(
        USER_MESSAGE_PREFIX@.len() as int,
        (USER_MESSAGE_PREFIX@.len() + d.len()) as int,
    ) =~= d);
}

/// Owns one user's request context and prepares its synthesis call.
pub struct Synthesizer {
    pub state: UserState,
}

impl Synthesizer {
    /// A synthesizer for one user's request context.
    pub fn new(state: UserState) -> (s: Self)
        ensures
            s.state@ == state@,
    {
        Self { state }
    }

    /// The two-message prompt for a platform and a description: the system
    /// instruction first, then the user instruction.
    pub fn get_base_prompt(&self, platform: String, description: String) -> (msgs: Vec<Message>)
        requires
            template_lookup(platform@) is Some,
        ensures
            prompt_messages_ok(msgs@, platform@, description@),
    {
        let template = match get_theme_template(platform.as_str()) {
            Some(t) => t,
            None => unreached(),
        };
        let sys = system_message(template.as_str());
        let mut user = String::from_str(USER_MESSAGE_PREFIX);
        user.append(description.as_str());
        user.append(USER_MESSAGE_TEMPLATE_HEADER);
        user.append(template.as_str());
        let mut msgs: Vec<Message> = Vec::new();
        msgs.push(Message { role: String::from_str("system"), content: sys });
        msgs.push(Message { role: String::from_str("user"), content: user });
        msgs
    }

    /// Resolves the template for the tracked request and builds its prompt;
    /// a platform without a template is a configuration defect reported as
    /// `TemplateNotFound`.
    ///
    /// Both `platform` and `theme_description` must be present: calling
    /// without them is a programming-contract failure, not a recoverable
    /// outcome.
    pub fn prepare(&self) -> (r: Result<Vec<Message>, SynthesisError>)
        requires
            self.state@.platform is Some,
            self.state@.theme_description is Some,
        ensures
            (match r {
                Ok(msgs) => template_lookup(self.state@.platform.unwrap()) is Some
                    && prompt_messages_ok(
                    msgs@,
                    self.state@.platform.unwrap(),
                    self.state@.theme_description.unwrap(),
                ),
                Err(e) => e is TemplateNotFound && template_lookup(
                    self.state@.platform.unwrap(),
                ) is None,
            }),
    {
        let platform = match &self.state.platform {
            Some(p) => p,
            None => unreached(),
        };
        let description = match &self.state.theme_description {
            Some(d) => d,
            None => unreached(),
        };
        match get_theme_template(platform.as_str()) {
            Some(_) => Ok(self.get_base_prompt(platform.clone(), description.clone())),
            None => Err(SynthesisError::TemplateNotFound),
        }
    }

    /// Packages an accumulated completion as the synthesis result, echoing
    /// the originating description.
    pub fn finish(&self, theme: String) -> (out: SynthesizerOutput)
        requires
            self.state@.theme_description is Some,
        ensures
            out.theme@ == theme@,
            out.description@ == self.state@.theme_description.unwrap(),
    {
        let description = match &self.state.theme_description {
            Some(d) => d.clone(),
            None => unreached(),
        };
        SynthesizerOutput { theme, description }
    }
}

/// One observation the stream driver makes while consuming a completion
/// stream: a parsed chunk arrived, the transport failed, the stream closed
/// without the explicit end marker, or the inactivity window elapsed with no
/// chunk since the last one.
pub enum StreamEvent {
    Item(StreamChunk),
    Failed(SynthesisError),
    Ended,
    Inactive,
}

/// What the driver must do after handing an event to the accumulator.
pub enum StepVerdict {
    Continue,
    Finished,
    Aborted(SynthesisError),
}

/// The text of a partial completion, assembled chunk by chunk.
pub struct StreamAccumulator {
    text: String,
}

impl View for StreamAccumulator {
    type V = Seq<char>;

    closed spec fn view(&self) -> Seq<char> {
        self.text@
    }
}

impl StreamAccumulator {
    /// An empty accumulator.
    pub fn new() -> (a: Self)
        ensures
            a@ == Seq::<char>::empty(),
    {
        StreamAccumulator { text: String::new() }
    }

    /// The text collected so far.
    pub fn text(&self) -> (t: &str)
        ensures
            t@ == self@,
    {
        self.text.as_str()
    }

    /// The collected text, surrendered.
    pub fn into_text(self) -> (t: String)
        ensures
            t@ == self@,
    {
        self.text
    }

    /// Consumes one stream observation. A content fragment is appended and
    /// consumption goes on; the end marker or the transport closing finishes
    /// with what was collected; a transport or parse failure aborts,
    /// discarding the partial text; and inactivity finishes gracefully if any
    /// content arrived but aborts with `StreamTimedOut` if none did.
    pub fn step(&mut self, ev: StreamEvent) -> (v: StepVerdict)
        ensures
            (match ev {
                StreamEvent::Item(chunk) => (match chunk {
                    StreamChunk::Content(s) => final(self)@ == old(self)@ + s@ && v is Continue,
                    StreamChunk::Empty => final(self)@ == old(self)@ && v is Continue,
                    StreamChunk::Done => final(self)@ == old(self)@ && v is Finished,
                }),
                StreamEvent::Failed(e) => final(self)@ == old(self)@ && v == StepVerdict::Aborted(
                    e,
                ),
                StreamEvent::Ended => final(self)@ == old(self)@ && v is Finished,
                StreamEvent::Inactive => final(self)@ == old(self)@ && (if old(self)@.len() > 0 {
                    v is Finished
                } else {
                    v == StepVerdict::Aborted(SynthesisError::StreamTimedOut)
                }),
            }),
    {
        match ev {
            StreamEvent::Item(chunk) => match chunk {
                StreamChunk::Content(s) => {
                    self.text.append(s.as_str());
                    StepVerdict::Continue
                },
                StreamChunk::Empty => StepVerdict::Continue,
                StreamChunk::Done => StepVerdict::Finished,
            },
            StreamEvent::Failed(e) => StepVerdict::Aborted(e),
            StreamEvent::Ended => StepVerdict::Finished,
            StreamEvent::Inactive => {
                if self.text.as_str().is_empty() {
                    StepVerdict::Aborted(SynthesisError::StreamTimedOut)
                } else {
                    StepVerdict::Finished
                }
            },
        }
    }

    /// Reads one frame line and consumes the chunk it carries, if any;
    /// malformed chunk JSON aborts the whole stream as `ParseError`.
    pub fn feed_frame(&mut self, line: &str) -> (v: StepVerdict)
        ensures
            (match classify_frame(line@) {
                FrameClass::Ignored => final(self)@ == old(self)@ && v is Continue,
                FrameClass::Done => final(self)@ == old(self)@ && v is Finished,
                FrameClass::Empty => final(self)@ == old(self)@ && v is Continue,
                FrameClass::Content(s) => final(self)@ == old(self)@ + s && v is Continue,
                FrameClass::Malformed => final(self)@ == old(self)@ && v == StepVerdict::Aborted(
                    SynthesisError::ParseError,
                ),
            }),
    {
        match parse_frame(line) {
            FrameResult::Ignored => StepVerdict::Continue,
            FrameResult::Chunk(c) => self.step(StreamEvent::Item(c)),
            FrameResult::Malformed => StepVerdict::Aborted(SynthesisError::ParseError),
        }
    }
}

/// What consuming a whole frame sequence yields: the text accumulated up to
/// the end marker (or the end of the sequence), or `None` on the first
/// malformed frame — partial text is discarded on hard failure.
pub open spec fn fold_frames(frames: Seq<Seq<char>>, acc: Seq<char>) -> Option<Seq<char>>
    decreases frames.len(),
{
    if frames.len() == 0 {
        Some(acc)
    } else {
        match classify_frame(frames[0]) {
            FrameClass::Malformed => None,
            FrameClass::Done => Some(acc),
            FrameClass::Content(c) => fold_frames(frames.drop_first(), acc + c),
            FrameClass::Ignored => fold_frames(frames.drop_first(), acc),
            FrameClass::Empty => fold_frames(frames.drop_first(), acc),
        }
    }
}

/// A malformed frame is a hard failure of the whole sequence: however much
/// content was accumulated, if a malformed frame comes before any end marker,
/// consumption yields no partial-success result.
pub proof fn lemma_malformed_frame_never_partial(frames: Seq<Seq<char>>, acc: Seq<char>, i: int)
    requires
        0 <= i < frames.len(),
        classify_frame(frames[i]) is Malformed,
        forall|j: int|
            0 <= j < i ==> !(classify_frame(frames[j]) is Done) && !(classify_frame(
                frames[j],
            ) is Malformed),
    ensures
        fold_frames(frames, acc) is None,
    decreases i,
{
    if i > 0 {
        match classify_frame(frames[0]) {
            FrameClass::Content(c) => {
                lemma_malformed_frame_never_partial(frames.drop_first(), acc + c, i - 1);
            },
            FrameClass::Ignored => {
                lemma_malformed_frame_never_partial(frames.drop_first(), acc, i - 1);
            },
            FrameClass::Empty => {
                lemma_malformed_frame_never_partial(frames.drop_first(), acc, i - 1);
            },
            _ => {},
        }
    }
}

/// Consumes a finite, already-received frame sequence: the accumulated
/// content fragments up to the end marker, or `ParseError` on the first
/// malformed frame.
pub fn run_frames(frames: &Vec<String>) -> (r: Result<String, SynthesisError>)
    ensures
        (match fold_frames(frames@.map_values(|s: String| s@), Seq::<char>::empty()) {
            Some(t) => (r matches Ok(text) && text@ == t),
            None => (r matches Err(e) && e is ParseError),
        }),
{
    let ghost views = frames@.map_values(|s: String| s@);
    let mut acc = StreamAccumulator::new();
    let mut i: usize = 0;
    proof {
        assert(views.skip(0) =~= views);
    }
    while i < frames.len()
        invariant
            i <= frames@.len(),
            views == frames@.map_values(|s: String| s@),
            fold_frames(views, Seq::<char>::empty()) == fold_frames(views.skip(i as int), acc@),
        decreases frames@.len() - i,
    {
        proof {
            assert(views.skip(i as int)[0] == views[i as int]);
            assert(views.skip(i as int).drop_first() =~= views.skip(i as int + 1));
        }
        let v = acc.feed_frame(frames[i].as_str());
        match v {
            StepVerdict::Continue => {},
            StepVerdict::Finished => {
                return Ok(acc.into_text());
            },
            StepVerdict::Aborted(e) => {
                return Err(e);
            },
        }
        i += 1;
    }
    proof {
        assert(views.skip(i as int) =~= Seq::<Seq<char>>::empty());
    }
    Ok(acc.into_text())
}

} // verus!
