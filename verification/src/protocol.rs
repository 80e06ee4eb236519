//! The vocabulary shared by the recognizers and the shell that drives them:
//! native resources, the calls made on them, the replies that come back, and
//! the ownership rules that every sequence of calls must keep.

use vstd::prelude::*;

verus! {

/// A resource that lives on the native side of the boundary.
#[derive(Clone, Copy, Debug, PartialEq, Eq, Structural)]
pub enum Resource {
    /// A recognizer, made by its factory from a configuration.
    Recognizer,
    /// A stream, made from a recognizer.
    Stream,
    /// A result record, fetched from a stream.
    Result,
}

/// One call into the native engine.
#[derive(Clone, Copy, Debug, PartialEq, Eq, Structural)]
pub enum NativeCall {
    /// Make the recognizer from the configuration.
    CreateRecognizer,
    /// Make a stream from the recognizer.
    CreateStream,
    /// Hand `num_samples` samples, recorded at `sample_rate`, to the stream.
    AcceptWaveform { sample_rate: i32, num_samples: i32 },
    /// Ask whether the stream holds input that can be decoded.
    IsReady,
    /// Decode: all of the input offline, one step of it online.
    Decode,
    /// Fetch the stream's result record.
    GetResult,
    /// Free the result record.
    DestroyResult,
    /// Ask whether the utterance has ended.
    IsEndpoint,
    /// Clear the stream's state; the stream itself stays.
    Reset,
    /// Free the stream.
    DestroyStream,
    /// Free the recognizer.
    DestroyRecognizer,
}

impl NativeCall {
    /// The resource that the call hands over when it succeeds.
    pub open spec fn acquires(self) -> Option<Resource> {
        match self {
            NativeCall::CreateRecognizer => Some(Resource::Recognizer),
            NativeCall::CreateStream => Some(Resource::Stream),
            NativeCall::GetResult => Some(Resource::Result),
            _ => None,
        }
    }

    /// The resource that the call frees.
    pub open spec fn releases(self) -> Option<Resource> {
        match self {
            NativeCall::DestroyResult => Some(Resource::Result),
            NativeCall::DestroyStream => Some(Resource::Stream),
            NativeCall::DestroyRecognizer => Some(Resource::Recognizer),
            _ => None,
        }
    }

    /// Whether the call reads or frees `resource`, which must then be alive.
    pub open spec fn touches(self, resource: Resource) -> bool {
        match self {
            NativeCall::CreateRecognizer => false,
            NativeCall::CreateStream => resource == Resource::Recognizer,
            NativeCall::AcceptWaveform { .. } => resource == Resource::Stream,
            NativeCall::GetResult => resource == Resource::Stream,
            NativeCall::IsReady | NativeCall::Decode | NativeCall::IsEndpoint | NativeCall::Reset =>
                resource == Resource::Recognizer || resource == Resource::Stream,
            NativeCall::DestroyResult => resource == Resource::Result,
            NativeCall::DestroyStream => resource == Resource::Stream,
            NativeCall::DestroyRecognizer => resource == Resource::Recognizer,
        }
    }
}

/// The call that frees `resource`.
pub open spec fn destructor(resource: Resource) -> NativeCall {
    match resource {
        Resource::Recognizer => NativeCall::DestroyRecognizer,
        Resource::Stream => NativeCall::DestroyStream,
        Resource::Result => NativeCall::DestroyResult,
    }
}

/// Whether `call` may be made while exactly the resources in `held` are
/// alive, listed in the order in which they were acquired. A call touches
/// only what is alive, never acquires what is already held, and frees only
/// the resource that was acquired last.
pub open spec fn permitted(held: Seq<Resource>, call: NativeCall) -> bool {
    &&& forall|r: Resource| call.touches(r) ==> held.contains(r)
    &&& call.acquires() matches Some(r) ==> !held.contains(r)
    &&& call.releases() matches Some(r) ==> held.len() > 0 && held.last() == r
}

/// The resources alive once `call` has been made: a destructor takes the
/// last one away.
pub open spec fn after_call(held: Seq<Resource>, call: NativeCall) -> Seq<Resource> {
    if call.releases() is Some {
        held.drop_last()
    } else {
        held
    }
}

/// The resources alive once `call` has returned: a factory that `granted` a
/// handle adds its resource.
pub open spec fn after_reply(held: Seq<Resource>, call: NativeCall, granted: bool) -> Seq<
    Resource,
> {
    match call.acquires() {
        Some(r) if granted => held.push(r),
        _ => held,
    }
}

/// The destructor calls that free everything in `held`, last acquired first.
pub open spec fn teardown(held: Seq<Resource>) -> Seq<NativeCall>
    decreases held.len(),
{
    if held.len() == 0 {
        Seq::<NativeCall>::empty()
    } else {
        seq![destructor(held.last())] + teardown(held.drop_last())
    }
}

/// One entry in the history of the native resources of a recognizer.
pub enum Action {
    /// A native call was made.
    Issue(NativeCall),
    /// The call before it returned a handle to this resource.
    Grant(Resource),
}

/// What is alive once `history` has happened, starting with `held`; `None`
/// where the history breaks the ownership rules: where it holds a call that
/// was not permitted when it was made, or a handle to a resource that was
/// alive already.
pub open spec fn ledger(held: Seq<Resource>, history: Seq<Action>) -> Option<Seq<Resource>>
    decreases history.len(),
{
    if history.len() == 0 {
        Some(held)
    } else {
        match history[0] {
            Action::Issue(call) => if permitted(held, call) {
                ledger(after_call(held, call), history.drop_first())
            } else {
                None
            },
            Action::Grant(resource) => if held.contains(resource) {
                None
            } else {
                ledger(held.push(resource), history.drop_first())
            },
        }
    }
}

/// The history in which `calls` are made one after the other and none of
/// them returns a handle.
pub open spec fn issues(calls: Seq<NativeCall>) -> Seq<Action> {
    Seq::new(calls.len(), |i: int| Action::Issue(calls[i]))
}

/// The history that a step adds: its call, if it asks for one.
pub open spec fn issued(step: StepShape) -> Seq<Action> {
    match step {
        StepShape::Call(call) => seq![Action::Issue(call)],
        _ => seq![],
    }
}

/// The history that a reply to `pending` adds: the handle, if the call
/// acquires a resource and the reply holds one.
pub open spec fn granted(pending: Option<NativeCall>, reply: ReplyShape) -> Seq<Action> {
    match pending {
        Some(call) => match call.acquires() {
            Some(resource) if reply.grants() => seq![Action::Grant(resource)],
            _ => seq![],
        },
        None => seq![],
    }
}

/// The number of native calls in a history.
pub open spec fn calls_made(history: Seq<Action>) -> nat
    decreases history.len(),
{
    if history.len() == 0 {
        0
    } else if history[0] is Issue {
        1 + calls_made(history.drop_first())
    } else {
        calls_made(history.drop_first())
    }
}

/// The calls of a history in two parts are those of its parts.
pub proof fn lemma_calls_made_of_two_parts(first: Seq<Action>, second: Seq<Action>)
    ensures
        calls_made(first + second) == calls_made(first) + calls_made(second),
    decreases first.len(),
{
    if first.len() == 0 {
        assert(first + second =~= second);
    } else {
        assert((first + second)[0] == first[0]);
        assert((first + second).drop_first() =~= first.drop_first() + second);
        lemma_calls_made_of_two_parts(first.drop_first(), second);
    }
}

/// The only orders in which resources are ever alive: a stream needs its
/// recognizer, and a result its stream.
pub open spec fn is_nested(held: Seq<Resource>) -> bool {
    ||| held =~= seq![]
    ||| held =~= seq![Resource::Recognizer]
    ||| held =~= seq![Resource::Recognizer, Resource::Stream]
    ||| held =~= seq![Resource::Recognizer, Resource::Stream, Resource::Result]
}

/// A history in two parts is checked part by part.
pub proof fn lemma_ledger_of_two_parts(held: Seq<Resource>, first: Seq<Action>, second: Seq<Action>)
    ensures
        ledger(held, first + second) == match ledger(held, first) {
            Some(between) => ledger(between, second),
            None => None,
        },
    decreases first.len(),
{
    if first.len() == 0 {
        assert(first + second =~= second);
    } else {
        let whole = first + second;
        assert(whole[0] == first[0]);
        assert(whole.drop_first() =~= first.drop_first() + second);
        match first[0] {
            Action::Issue(call) => {
                if permitted(held, call) {
                    lemma_ledger_of_two_parts(after_call(held, call), first.drop_first(), second);
                }
            },
            Action::Grant(resource) => {
                if !held.contains(resource) {
                    lemma_ledger_of_two_parts(held.push(resource), first.drop_first(), second);
                }
            },
        }
    }
}

/// What the ledger says of the history that one reply and the step after it
/// add.
pub proof fn lemma_ledger_of_one_step(
    held: Seq<Resource>,
    pending: Option<NativeCall>,
    reply: ReplyShape,
    step: StepShape,
)
    ensures
        ledger(held, granted(pending, reply) + issued(step)) == ({
            let alive = match pending {
                Some(call) => after_reply(held, call, reply.grants()),
                None => held,
            };
            if granted(pending, reply).len() > 0 && held.contains(pending.unwrap().acquires().unwrap()) {
                None
            } else {
                match step {
                    StepShape::Call(asked) => if permitted(alive, asked) {
                        Some(after_call(alive, asked))
                    } else {
                        None
                    },
                    _ => Some(alive),
                }
            }
        }),
{
    let first = granted(pending, reply);
    let second = issued(step);
    lemma_ledger_of_two_parts(held, first, second);
    reveal_with_fuel(ledger, 2);
    if first.len() > 0 {
        assert(first.drop_first() =~= Seq::<Action>::empty());
    }
    if second.len() > 0 {
        assert(second.drop_first() =~= Seq::<Action>::empty());
    }
}

/// Teardown frees every live resource exactly once, in the reverse of the
/// order of acquisition; each of its calls is permitted when its turn comes,
/// and nothing is alive at the end.
pub proof fn lemma_teardown_frees_everything(held: Seq<Resource>)
    requires
        held.no_duplicates(),
    ensures
        teardown(held).len() == held.len(),
        forall|i: int|
            0 <= i < held.len() ==> teardown(held)[i] == destructor(held[held.len() - 1 - i]),
        ledger(held, issues(teardown(held))) == Some(Seq::<Resource>::empty()),
    decreases held.len(),
{
    if held.len() == 0 {
        assert(held =~= Seq::<Resource>::empty());
    } else {
        let last = held.last();
        let rest = held.drop_last();
        let call = destructor(last);
        lemma_teardown_frees_everything(rest);
        assert(teardown(held) =~= seq![call] + teardown(rest));
        assert(issues(teardown(held))[0] == Action::Issue(call));
        assert(issues(teardown(held)).drop_first() =~= issues(teardown(rest)));
        assert forall|r: Resource| call.touches(r) implies held.contains(r) by {
            assert(r == last);
            assert(held[held.len() - 1] == r);
        }
        assert(permitted(held, call));
        assert(after_call(held, call) == rest);
    }
}

/// Once everything is torn down, a second teardown holds no call: nothing
/// is freed twice.
pub proof fn lemma_second_teardown_is_empty(held: Seq<Resource>)
    requires
        held.no_duplicates(),
    ensures
        ledger(held, issues(teardown(held))) matches Some(rest) && teardown(rest)
            == Seq::<NativeCall>::empty(),
{
    lemma_teardown_frees_everything(held);
}

/// A nested stack holds no resource twice.
pub proof fn lemma_nested_has_no_duplicates(held: Seq<Resource>)
    requires
        is_nested(held),
    ensures
        held.no_duplicates(),
{
}

/// What a nested stack holds, resource by resource.
pub proof fn lemma_nested_contains(held: Seq<Resource>)
    requires
        is_nested(held),
    ensures
        held.contains(Resource::Recognizer) <==> held.len() >= 1,
        held.contains(Resource::Stream) <==> held.len() >= 2,
        held.contains(Resource::Result) <==> held.len() >= 3,
        held.len() <= 3,
        held.len() >= 1 ==> held[0] == Resource::Recognizer,
        held.len() >= 2 ==> held[1] == Resource::Stream,
        held.len() >= 3 ==> held[2] == Resource::Result,
{
    if held.len() >= 1 {
        assert(held[0] == Resource::Recognizer);
    }
    if held.len() >= 2 {
        assert(held[1] == Resource::Stream);
    }
    if held.len() >= 3 {
        assert(held[2] == Resource::Result);
    }
}

/// A text option of a recognizer's configuration.
#[derive(Clone, Copy, Debug, PartialEq, Eq, Structural)]
pub enum TextOption {
    Decoder,
    Encoder,
    Joiner,
    Model,
    Tokens,
    Language,
    Provider,
    BpeVocab,
    DecodingMethod,
    HotwordsFile,
}

/// Why an operation on a recognizer failed.
#[derive(Clone, Copy, Debug, PartialEq, Eq, Structural)]
pub enum Error {
    /// Construction: a text option holds a zero byte at `position`.
    EmbeddedNul { option: TextOption, position: usize },
    /// Construction: the factory of this resource returned no handle.
    CreationFailed(Resource),
    /// The operation needs a live recognizer, and this one was never
    /// created, failed to be created, or has been destroyed.
    NotLive,
    /// An operation is under way; its pending call has to be answered first.
    Busy,
    /// The waveform holds more samples than one native call can take.
    WaveformTooLong,
    /// A native call made during use returned no handle.
    NativeCallFailed(NativeCall),
    /// The native result was not the expected record.
    MalformedOutput,
}

impl Error {
    /// Whether the error belongs to construction: the recognizer it came
    /// from can never be used.
    pub open spec fn is_construction(self) -> bool {
        self is EmbeddedNul || self is CreationFailed
    }
}

/// What came back from the call that the recognizer asked for.
#[derive(Debug)]
pub enum Reply<Raw, Record> {
    /// The call returned nothing.
    Done,
    /// A factory returned a pointer, null or not.
    Handle { present: bool },
    /// The call returned a number that stands for yes (positive) or no.
    Flag(i32),
    /// The result record that was fetched, its fields copied out of native
    /// memory; `None` for a null pointer.
    Fetched(Option<Raw>),
    /// The record that the fetched text was parsed into; `None` where the
    /// text has another shape.
    Parsed(Option<Record>),
}

/// A reply without its payload.
#[derive(Clone, Copy, Debug, PartialEq, Eq, Structural)]
pub enum ReplyShape {
    Done,
    Handle { present: bool },
    Flag(i32),
    Fetched { present: bool },
    Parsed { well_formed: bool },
}

impl<Raw, Record> Reply<Raw, Record> {
    /// What kind of reply this is, and whether it holds what was asked for.
    pub open spec fn shape(self) -> ReplyShape {
        match self {
            Reply::Done => ReplyShape::Done,
            Reply::Handle { present } => ReplyShape::Handle { present },
            Reply::Flag(value) => ReplyShape::Flag(value),
            Reply::Fetched(raw) => ReplyShape::Fetched { present: raw is Some },
            Reply::Parsed(record) => ReplyShape::Parsed { well_formed: record is Some },
        }
    }
}

impl ReplyShape {
    /// Whether the reply hands a native resource over.
    pub open spec fn grants(self) -> bool {
        match self {
            ReplyShape::Handle { present } => present,
            ReplyShape::Fetched { present } => present,
            _ => false,
        }
    }

    /// Whether a reply of this shape can come back from `call`.
    pub open spec fn answers(self, call: NativeCall) -> bool {
        match call {
            NativeCall::CreateRecognizer | NativeCall::CreateStream => self is Handle,
            NativeCall::GetResult => self is Fetched,
            NativeCall::IsReady | NativeCall::IsEndpoint => self is Flag,
            _ => self is Done,
        }
    }
}

/// What the shell does next.
#[derive(Debug, PartialEq, Eq)]
pub enum Step<Record> {
    /// Make this native call and resume with its reply.
    Call(NativeCall),
    /// Parse this text as a result record and resume with the outcome.
    Parse(String),
    /// Construction is complete: the recognizer is live.
    Live,
    /// The transcription is complete, with this record.
    Finished(Record),
    /// The operation failed. Every call that had to be made has been made.
    Failed(Error),
    /// The reply does not answer what was asked. Nothing has changed, and
    /// the earlier step still stands.
    Rejected,
}

/// A step without its payload.
#[derive(Clone, Copy, Debug, PartialEq, Eq, Structural)]
pub enum StepShape {
    Call(NativeCall),
    Parse,
    Live,
    Finished,
    Failed(Error),
    Rejected,
}

impl<Record> Step<Record> {
    /// What kind of step this is, with its call or its error.
    pub open spec fn shape(self) -> StepShape {
        match self {
            Step::Call(call) => StepShape::Call(call),
            Step::Parse(_) => StepShape::Parse,
            Step::Live => StepShape::Live,
            Step::Finished(_) => StepShape::Finished,
            Step::Failed(error) => StepShape::Failed(error),
            Step::Rejected => StepShape::Rejected,
        }
    }
}

/// What a recognizer is told, without payloads: one entry in the script
/// that the shell plays to it.
pub enum Event {
    /// A transcription is asked for.
    Begin { sample_rate: i32, num_samples: usize },
    /// A reply is handed in.
    Reply(ReplyShape),
    /// The recognizer is destroyed.
    Destroy,
}

} // verus!
