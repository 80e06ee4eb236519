//! The online recognizer: audio arrives piece by piece, and one stream lives
//! as long as the recognizer does.
//!
//! ```text
//! Ready -> accept -> decode while input is ready -> result -> reset at an endpoint -> Ready
//! ```
//!
//! The recognizer never touches native memory. It tells the shell which
//! native call to make next and is told what came back. The native calls
//! that it asks for keep the ownership rules of [`crate::protocol`] whatever
//! comes back.

use vstd::prelude::*;
use vstd::utf8::*;
use crate::bridge::{decode_nullable, from_nullable};
use crate::config::{
    convert_option, default_provider, embedded_nul, flag_to_native, get_default_provider,
    lemma_literals_hold_no_nul, native_flag, native_thread_count, text_or, thread_count_to_native,
    FeatureConfig, Float32, OnlineModelConfig, OnlineModelConfigView, OnlineRecognizerConfig,
    OnlineRecognizerConfigView, OnlineTransducerModelConfig, OnlineTransducerModelConfigView,
    Platform, FEATURE_DIM, MAX_ACTIVE_PATHS, RULE1_MIN_TRAILING_SILENCE,
    RULE2_MIN_TRAILING_SILENCE, RULE3_MIN_UTTERANCE_LENGTH, SAMPLE_RATE,
};
use crate::transcribe::Transcribe;
use crate::protocol::{
    after_call, after_reply, calls_made, granted, is_nested, issued, issues, ledger,
    lemma_calls_made_of_two_parts,
    lemma_ledger_of_one_step, lemma_ledger_of_two_parts, lemma_nested_contains,
    lemma_nested_has_no_duplicates, lemma_teardown_frees_everything, permitted, teardown, Error,
    Action, Event, NativeCall, Reply, ReplyShape, Resource, Step, StepShape, TextOption,
};

verus! {

/// What the online recognizer gives for the audio taken so far: the record
/// that the native result text spells out.
#[derive(Debug, PartialEq, Eq)]
pub struct OnlineRecognizerResult {
    pub text: String,
    pub tokens: Vec<String>,
    pub timestamps: Vec<Float32>,
    pub segment: Float32,
    pub start_time: Float32,
    pub is_final: bool,
}

/// The one field of the native result record that is read, copied out of
/// native memory with its terminator: the result as JSON text. `None` where
/// the record holds a null pointer.
#[derive(Debug, PartialEq, Eq)]
pub struct RawOnlineResult {
    pub json: Option<Vec<u8>>,
}

/// Where an online recognizer stands. Each phase but the resting ones
/// (`Ready`, `Failed`, `Destroyed`, and `Creating` before its call is made)
/// waits for one reply.
#[derive(Clone, Copy, Debug, PartialEq, Eq, Structural)]
pub enum OnlinePhase {
    /// The configuration is built; the factory call is to be answered.
    Creating,
    /// The recognizer exists; its stream is being created.
    OpeningStream,
    /// No stream could be created: the recognizer is freed again.
    Abandoning,
    /// Live, with no transcription under way.
    Ready,
    /// The stream is given more samples.
    Feeding { sample_rate: i32, num_samples: i32 },
    /// The stream is asked whether it holds input to decode.
    Polling,
    /// The stream is decoded by one step.
    Decoding,
    /// The result record is fetched.
    Fetching,
    /// The text of the result record is parsed. The record stays alive.
    Parsing,
    /// The result record has been read and is freed.
    FreeingResult,
    /// The stream is asked whether the utterance has ended.
    CheckingEndpoint,
    /// The utterance has ended: the stream's state is cleared.
    Resetting,
    /// Construction failed. Nothing can be done with this value.
    Failed,
    /// Every native resource has been given back.
    Destroyed,
}

impl OnlinePhase {
    /// The native resources that are alive in this phase, in the order in
    /// which they were acquired, once the call of this phase has been made.
    pub open spec fn held(self) -> Seq<Resource> {
        match self {
            OnlinePhase::Creating
            | OnlinePhase::Abandoning
            | OnlinePhase::Failed
            | OnlinePhase::Destroyed => seq![],
            OnlinePhase::OpeningStream => seq![Resource::Recognizer],
            OnlinePhase::Parsing => seq![Resource::Recognizer, Resource::Stream, Resource::Result],
            _ => seq![Resource::Recognizer, Resource::Stream],
        }
    }

    /// The native call that this phase waits for.
    pub open spec fn pending(self) -> Option<NativeCall> {
        match self {
            OnlinePhase::Creating => Some(NativeCall::CreateRecognizer),
            OnlinePhase::OpeningStream => Some(NativeCall::CreateStream),
            OnlinePhase::Abandoning => Some(NativeCall::DestroyRecognizer),
            OnlinePhase::Feeding { sample_rate, num_samples } => Some(
                NativeCall::AcceptWaveform { sample_rate, num_samples },
            ),
            OnlinePhase::Polling => Some(NativeCall::IsReady),
            OnlinePhase::Decoding => Some(NativeCall::Decode),
            OnlinePhase::Fetching => Some(NativeCall::GetResult),
            OnlinePhase::FreeingResult => Some(NativeCall::DestroyResult),
            OnlinePhase::CheckingEndpoint => Some(NativeCall::IsEndpoint),
            OnlinePhase::Resetting => Some(NativeCall::Reset),
            OnlinePhase::Parsing
            | OnlinePhase::Ready
            | OnlinePhase::Failed
            | OnlinePhase::Destroyed => None,
        }
    }
}

/// How a transcription of `num_samples` more samples begins in `phase`: the
/// next phase and the first step. Only a ready recognizer begins one.
pub open spec fn online_begin(phase: OnlinePhase, sample_rate: i32, num_samples: int) -> (
    OnlinePhase,
    StepShape,
) {
    match phase {
        OnlinePhase::Ready => if num_samples <= i32::MAX {
            (
                OnlinePhase::Feeding { sample_rate, num_samples: num_samples as i32 },
                StepShape::Call(
                    NativeCall::AcceptWaveform { sample_rate, num_samples: num_samples as i32 },
                ),
            )
        } else {
            (phase, StepShape::Failed(Error::WaveformTooLong))
        },
        OnlinePhase::Creating
        | OnlinePhase::OpeningStream
        | OnlinePhase::Abandoning
        | OnlinePhase::Failed
        | OnlinePhase::Destroyed => (phase, StepShape::Failed(Error::NotLive)),
        _ => (phase, StepShape::Failed(Error::Busy)),
    }
}

/// How the recognizer goes on in `phase` when `reply` comes back: the next
/// phase and the next step. `has_record` says whether a parsed record is
/// kept for the caller.
///
/// Decoding goes on for as long as the stream says that it is ready. The
/// result record is freed whether its text could be parsed or not. Only a
/// parsed result is followed by the endpoint check, and an endpoint by a
/// reset of the stream, before the record is handed out.
pub open spec fn online_next(phase: OnlinePhase, has_record: bool, reply: ReplyShape) -> (
    OnlinePhase,
    StepShape,
) {
    match (phase, reply) {
        (OnlinePhase::Creating, ReplyShape::Handle { present }) => if present {
            (OnlinePhase::OpeningStream, StepShape::Call(NativeCall::CreateStream))
        } else {
            (OnlinePhase::Failed, StepShape::Failed(Error::CreationFailed(Resource::Recognizer)))
        },
        (OnlinePhase::OpeningStream, ReplyShape::Handle { present }) => if present {
            (OnlinePhase::Ready, StepShape::Live)
        } else {
            (OnlinePhase::Abandoning, StepShape::Call(NativeCall::DestroyRecognizer))
        },
        (OnlinePhase::Abandoning, ReplyShape::Done) => (
            OnlinePhase::Failed,
            StepShape::Failed(Error::CreationFailed(Resource::Stream)),
        ),
        (OnlinePhase::Feeding { .. }, ReplyShape::Done) => (
            OnlinePhase::Polling,
            StepShape::Call(NativeCall::IsReady),
        ),
        (OnlinePhase::Polling, ReplyShape::Flag(ready)) => if ready > 0 {
            (OnlinePhase::Decoding, StepShape::Call(NativeCall::Decode))
        } else {
            (OnlinePhase::Fetching, StepShape::Call(NativeCall::GetResult))
        },
        (OnlinePhase::Decoding, ReplyShape::Done) => (
            OnlinePhase::Polling,
            StepShape::Call(NativeCall::IsReady),
        ),
        (OnlinePhase::Fetching, ReplyShape::Fetched { present }) => if present {
            (OnlinePhase::Parsing, StepShape::Parse)
        } else {
            (OnlinePhase::Ready, StepShape::Failed(Error::NativeCallFailed(NativeCall::GetResult)))
        },
        (OnlinePhase::Parsing, ReplyShape::Parsed { .. }) => (
            OnlinePhase::FreeingResult,
            StepShape::Call(NativeCall::DestroyResult),
        ),
        (OnlinePhase::FreeingResult, ReplyShape::Done) => if has_record {
            (OnlinePhase::CheckingEndpoint, StepShape::Call(NativeCall::IsEndpoint))
        } else {
            (OnlinePhase::Ready, StepShape::Failed(Error::MalformedOutput))
        },
        (OnlinePhase::CheckingEndpoint, ReplyShape::Flag(endpoint)) => if !has_record {
            (OnlinePhase::Ready, StepShape::Failed(Error::MalformedOutput))
        } else if endpoint > 0 {
            (OnlinePhase::Resetting, StepShape::Call(NativeCall::Reset))
        } else {
            (OnlinePhase::Ready, StepShape::Finished)
        },
        (OnlinePhase::Resetting, ReplyShape::Done) => (
            OnlinePhase::Ready,
            if has_record {
                StepShape::Finished
            } else {
                StepShape::Failed(Error::MalformedOutput)
            },
        ),
        _ => (phase, StepShape::Rejected),
    }
}

/// The settings of the online recognizer that no caller chooses: 16 kHz
/// input with 80 features, four active paths, and endpoint detection after
/// 2.4 s of silence, after 1.2 s of silence behind speech, or at 300 s.
pub open spec fn zipformer_config(
    decoder: Seq<char>,
    encoder: Seq<char>,
    joiner: Seq<char>,
    tokens: Seq<char>,
    debug: bool,
    num_threads: u32,
    decoding_method: Seq<char>,
    provider: Seq<char>,
    hotwords_file: Option<String>,
    hotwords_score: Option<Float32>,
) -> OnlineRecognizerConfigView {
    OnlineRecognizerConfigView {
        feat_config: FeatureConfig { sample_rate: 16000, feature_dim: 80 },
        model_config: OnlineModelConfigView {
            transducer: OnlineTransducerModelConfigView {
                encoder: encode_utf8(encoder),
                decoder: encode_utf8(decoder),
                joiner: encode_utf8(joiner),
            },
            tokens: encode_utf8(tokens),
            num_threads: native_thread_count(num_threads),
            provider: encode_utf8(provider),
            debug: native_flag(debug),
        },
        decoding_method: encode_utf8(decoding_method),
        max_active_paths: 4,
        enable_endpoint: 1,
        rule1_min_trailing_silence: Float32 { bits: 0x4019_999A },
        rule2_min_trailing_silence: Float32 { bits: 0x3F99_999A },
        rule3_min_utterance_length: Float32 { bits: 0x4396_0000 },
        hotwords_file: match hotwords_file {
            Some(path) => Some(encode_utf8(path@)),
            None => None,
        },
        hotwords_score,
    }
}

/// The error that construction of a zipformer recognizer ends with, if any:
/// that of the first text option, in the order in which they are converted,
/// that holds U+0000.
pub open spec fn zipformer_rejection(
    decoder: Seq<char>,
    encoder: Seq<char>,
    joiner: Seq<char>,
    tokens: Seq<char>,
    decoding_method: Seq<char>,
    provider: Seq<char>,
    hotwords_file: Option<String>,
) -> Option<Error> {
    if decoder.contains('\0') {
        Some(embedded_nul(TextOption::Decoder, decoder))
    } else if encoder.contains('\0') {
        Some(embedded_nul(TextOption::Encoder, encoder))
    } else if joiner.contains('\0') {
        Some(embedded_nul(TextOption::Joiner, joiner))
    } else if tokens.contains('\0') {
        Some(embedded_nul(TextOption::Tokens, tokens))
    } else if provider.contains('\0') {
        Some(embedded_nul(TextOption::Provider, provider))
    } else if decoding_method.contains('\0') {
        Some(embedded_nul(TextOption::DecodingMethod, decoding_method))
    } else if hotwords_file matches Some(path) && path@.contains('\0') {
        Some(embedded_nul(TextOption::HotwordsFile, hotwords_file->0@))
    } else {
        None
    }
}

/// An online recognizer: its configuration, where it stands, and the record
/// of a transcription that is not yet handed out.
#[derive(Debug)]
pub struct OnlineRecognizer {
    config: OnlineRecognizerConfig,
    phase: OnlinePhase,
    record: Option<OnlineRecognizerResult>,
}

pub struct OnlineRecognizerView {
    pub config: OnlineRecognizerConfigView,
    pub phase: OnlinePhase,
    pub record: Option<OnlineRecognizerResult>,
}

impl View for OnlineRecognizer {
    type V = OnlineRecognizerView;

    closed spec fn view(&self) -> OnlineRecognizerView {
        OnlineRecognizerView { config: self.config@, phase: self.phase, record: self.record }
    }
}

/// The record that an online recognizer keeps once `reply` has been taken:
/// what the result text was parsed into; none once it has been handed out;
/// otherwise what it kept before.
pub open spec fn online_record_after(
    before: OnlineRecognizerView,
    reply: Reply<RawOnlineResult, OnlineRecognizerResult>,
) -> Option<OnlineRecognizerResult> {
    match (before.phase, reply) {
        (OnlinePhase::Parsing, Reply::Parsed(parsed)) => parsed,
        (OnlinePhase::CheckingEndpoint, Reply::Flag(endpoint)) => if endpoint > 0 {
            before.record
        } else {
            None
        },
        (OnlinePhase::Resetting, Reply::Done) => None,
        _ => before.record,
    }
}

impl OnlineRecognizer {
    /// Builds the configuration of a streaming zipformer transducer. The
    /// recognizer that comes back is not live yet: it waits for the reply to
    /// the factory call, which takes `config()`.
    ///
    /// Where `decoding_method` is `None` decoding is greedy, and where
    /// `provider` is `None` the best provider of `platform` is taken. A
    /// hotwords option that is `None` stays unset. Numbers are handed on as
    /// they are.
    pub fn with_zipformer(
        decoder: String,
        encoder: String,
        joiner: String,
        tokens: String,
        debug: bool,
        num_threads: u32,
        decoding_method: Option<String>,
        provider: Option<String>,
        hotwords_file: Option<String>,
        hotwords_score: Option<Float32>,
        platform: Platform,
    ) -> (result: Result<OnlineRecognizer, Error>)
        ensures
            match result {
                Ok(recognizer) => {
                    &&& zipformer_rejection(
                        decoder@,
                        encoder@,
                        joiner@,
                        tokens@,
                        text_or(decoding_method, "greedy_search"@),
                        text_or(provider, default_provider(platform)),
                        hotwords_file,
                    ) is None
                    &&& recognizer@.config == zipformer_config(
                        decoder@,
                        encoder@,
                        joiner@,
                        tokens@,
                        debug,
                        num_threads,
                        text_or(decoding_method, "greedy_search"@),
                        text_or(provider, default_provider(platform)),
                        hotwords_file,
                        hotwords_score,
                    )
                    &&& recognizer@.phase == OnlinePhase::Creating
                    &&& recognizer@.record is None
                },
                Err(error) => zipformer_rejection(
                    decoder@,
                    encoder@,
                    joiner@,
                    tokens@,
                    text_or(decoding_method, "greedy_search"@),
                    text_or(provider, default_provider(platform)),
                    hotwords_file,
                ) == Some(error),
            },
    {
        proof {
            lemma_literals_hold_no_nul();
        }
        let decoder_c = match convert_option(TextOption::Decoder, decoder.as_str()) {
            Ok(buffer) => buffer,
            Err(error) => return Err(error),
        };
        let encoder_c = match convert_option(TextOption::Encoder, encoder.as_str()) {
            Ok(buffer) => buffer,
            Err(error) => return Err(error),
        };
        let joiner_c = match convert_option(TextOption::Joiner, joiner.as_str()) {
            Ok(buffer) => buffer,
            Err(error) => return Err(error),
        };
        let tokens_c = match convert_option(TextOption::Tokens, tokens.as_str()) {
            Ok(buffer) => buffer,
            Err(error) => return Err(error),
        };
        let provider_text: &str = match &provider {
            Some(name) => name.as_str(),
            None => get_default_provider(platform),
        };
        let provider_c = match convert_option(TextOption::Provider, provider_text) {
            Ok(buffer) => buffer,
            Err(error) => return Err(error),
        };
        let decoding_method_text: &str = match &decoding_method {
            Some(method) => method.as_str(),
            None => "greedy_search",
        };
        let decoding_method_c = match convert_option(
            TextOption::DecodingMethod,
            decoding_method_text,
        ) {
            Ok(buffer) => buffer,
            Err(error) => return Err(error),
        };
        let hotwords_file_c = match &hotwords_file {
            Some(path) => match convert_option(TextOption::HotwordsFile, path.as_str()) {
                Ok(buffer) => Some(buffer),
                Err(error) => return Err(error),
            },
            None => None,
        };
        let config = OnlineRecognizerConfig {
            feat_config: FeatureConfig { sample_rate: SAMPLE_RATE, feature_dim: FEATURE_DIM },
            model_config: OnlineModelConfig {
                transducer: OnlineTransducerModelConfig {
                    encoder: encoder_c,
                    decoder: decoder_c,
                    joiner: joiner_c,
                },
                tokens: tokens_c,
                num_threads: thread_count_to_native(num_threads),
                provider: provider_c,
                debug: flag_to_native(debug),
            },
            decoding_method: decoding_method_c,
            max_active_paths: MAX_ACTIVE_PATHS,
            enable_endpoint: 1,
            rule1_min_trailing_silence: Float32 { bits: RULE1_MIN_TRAILING_SILENCE },
            rule2_min_trailing_silence: Float32 { bits: RULE2_MIN_TRAILING_SILENCE },
            rule3_min_utterance_length: Float32 { bits: RULE3_MIN_UTTERANCE_LENGTH },
            hotwords_file: hotwords_file_c,
            hotwords_score,
        };
        Ok(OnlineRecognizer { config, phase: OnlinePhase::Creating, record: None })
    }

    /// The configuration that the factory call takes.
    pub fn config(&self) -> (config: &OnlineRecognizerConfig)
        ensures
            config@ == self@.config,
    {
        &self.config
    }

    /// Where the recognizer stands.
    pub fn phase(&self) -> (phase: OnlinePhase)
        ensures
            phase == self@.phase,
    {
        self.phase
    }

    /// The native call that the recognizer waits for, if any.
    pub fn pending(&self) -> (call: Option<NativeCall>)
        ensures
            call == self@.phase.pending(),
    {
        match self.phase {
            OnlinePhase::Creating => Some(NativeCall::CreateRecognizer),
            OnlinePhase::OpeningStream => Some(NativeCall::CreateStream),
            OnlinePhase::Abandoning => Some(NativeCall::DestroyRecognizer),
            OnlinePhase::Feeding { sample_rate, num_samples } => Some(
                NativeCall::AcceptWaveform { sample_rate, num_samples },
            ),
            OnlinePhase::Polling => Some(NativeCall::IsReady),
            OnlinePhase::Decoding => Some(NativeCall::Decode),
            OnlinePhase::Fetching => Some(NativeCall::GetResult),
            OnlinePhase::FreeingResult => Some(NativeCall::DestroyResult),
            OnlinePhase::CheckingEndpoint => Some(NativeCall::IsEndpoint),
            OnlinePhase::Resetting => Some(NativeCall::Reset),
            OnlinePhase::Parsing
            | OnlinePhase::Ready
            | OnlinePhase::Failed
            | OnlinePhase::Destroyed => None,
        }
    }

    /// Begins the transcription of `num_samples` more samples.
    ///
    /// A ready recognizer hands them to its stream. Any other gives the
    /// error that says why not, and stays as it is.
    pub fn transcribe(&mut self, sample_rate: i32, num_samples: usize) -> (step: Step<
        OnlineRecognizerResult,
    >)
        ensures
            (final(self)@.phase, step.shape()) == online_begin(
                old(self)@.phase,
                sample_rate,
                num_samples as int,
            ),
            final(self)@.config == old(self)@.config,
            final(self)@.record == old(self)@.record,
    {
        match self.phase {
            OnlinePhase::Ready => {
                if num_samples <= 0x7fff_ffff {
                    let num_samples: i32 = num_samples as i32;
                    self.phase = OnlinePhase::Feeding { sample_rate, num_samples };
                    Step::Call(NativeCall::AcceptWaveform { sample_rate, num_samples })
                } else {
                    Step::Failed(Error::WaveformTooLong)
                }
            },
            OnlinePhase::Creating
            | OnlinePhase::OpeningStream
            | OnlinePhase::Abandoning
            | OnlinePhase::Failed
            | OnlinePhase::Destroyed => Step::Failed(Error::NotLive),
            _ => Step::Failed(Error::Busy),
        }
    }

    /// Takes the reply to the pending step and says what to do next.
    ///
    /// The phase and the step are those of [`online_next`]. The text to
    /// parse is the JSON field of the fetched record, decoded by the rule of
    /// the string bridge, so that bytes that are not UTF-8 are parsed as the
    /// empty text. The record that finishes the transcription is the one
    /// that the text was parsed into.
    pub fn resume(&mut self, reply: Reply<RawOnlineResult, OnlineRecognizerResult>) -> (step: Step<
        OnlineRecognizerResult,
    >)
        ensures
            (final(self)@.phase, step.shape()) == online_next(
                old(self)@.phase,
                old(self)@.record is Some,
                reply.shape(),
            ),
            final(self)@.config == old(self)@.config,
            final(self)@.record == online_record_after(old(self)@, reply),
            step matches Step::Finished(record) ==> old(self)@.record == Some(record),
            step matches Step::Parse(text) ==> reply matches Reply::Fetched(Some(raw)) && text@
                == decode_nullable(raw.json),
    {
        match (self.phase, reply) {
            (OnlinePhase::Creating, Reply::Handle { present }) => {
                if present {
                    self.phase = OnlinePhase::OpeningStream;
                    Step::Call(NativeCall::CreateStream)
                } else {
                    self.phase = OnlinePhase::Failed;
                    Step::Failed(Error::CreationFailed(Resource::Recognizer))
                }
            },
            (OnlinePhase::OpeningStream, Reply::Handle { present }) => {
                if present {
                    self.phase = OnlinePhase::Ready;
                    Step::Live
                } else {
                    self.phase = OnlinePhase::Abandoning;
                    Step::Call(NativeCall::DestroyRecognizer)
                }
            },
            (OnlinePhase::Abandoning, Reply::Done) => {
                self.phase = OnlinePhase::Failed;
                Step::Failed(Error::CreationFailed(Resource::Stream))
            },
            (OnlinePhase::Feeding { .. }, Reply::Done) => {
                self.phase = OnlinePhase::Polling;
                Step::Call(NativeCall::IsReady)
            },
            (OnlinePhase::Polling, Reply::Flag(ready)) => {
                if ready > 0 {
                    self.phase = OnlinePhase::Decoding;
                    Step::Call(NativeCall::Decode)
                } else {
                    self.phase = OnlinePhase::Fetching;
                    Step::Call(NativeCall::GetResult)
                }
            },
            (OnlinePhase::Decoding, Reply::Done) => {
                self.phase = OnlinePhase::Polling;
                Step::Call(NativeCall::IsReady)
            },
            (OnlinePhase::Fetching, Reply::Fetched(fetched)) => {
                match fetched {
                    Some(raw) => {
                        self.phase = OnlinePhase::Parsing;
                        Step::Parse(from_nullable(&raw.json))
                    },
                    None => {
                        self.phase = OnlinePhase::Ready;
                        Step::Failed(Error::NativeCallFailed(NativeCall::GetResult))
                    },
                }
            },
            (OnlinePhase::Parsing, Reply::Parsed(parsed)) => {
                self.record = parsed;
                self.phase = OnlinePhase::FreeingResult;
                Step::Call(NativeCall::DestroyResult)
            },
            (OnlinePhase::FreeingResult, Reply::Done) => {
                if self.record.is_some() {
                    self.phase = OnlinePhase::CheckingEndpoint;
                    Step::Call(NativeCall::IsEndpoint)
                } else {
                    self.phase = OnlinePhase::Ready;
                    Step::Failed(Error::MalformedOutput)
                }
            },
            (OnlinePhase::CheckingEndpoint, Reply::Flag(endpoint)) => {
                if self.record.is_some() && endpoint > 0 {
                    self.phase = OnlinePhase::Resetting;
                    Step::Call(NativeCall::Reset)
                } else {
                    self.phase = OnlinePhase::Ready;
                    match self.record.take() {
                        Some(record) => Step::Finished(record),
                        None => Step::Failed(Error::MalformedOutput),
                    }
                }
            },
            (OnlinePhase::Resetting, Reply::Done) => {
                self.phase = OnlinePhase::Ready;
                match self.record.take() {
                    Some(record) => Step::Finished(record),
                    None => Step::Failed(Error::MalformedOutput),
                }
            },
            _ => Step::Rejected,
        }
    }

    /// Gives back every native resource that is alive: the destructor calls
    /// to make, the last acquired resource first, so the stream before the
    /// recognizer. Afterwards nothing is alive, so that a second call
    /// returns no destructor at all.
    pub fn destroy(&mut self) -> (calls: Vec<NativeCall>)
        ensures
            calls@ == teardown(old(self)@.phase.held()),
            final(self)@.phase == OnlinePhase::Destroyed,
            final(self)@.config == old(self)@.config,
            final(self)@.record is None,
    {
        let mut calls: Vec<NativeCall> = Vec::new();
        proof {
            lemma_online_teardown(self.phase);
        }
        match self.phase {
            OnlinePhase::Creating
            | OnlinePhase::Abandoning
            | OnlinePhase::Failed
            | OnlinePhase::Destroyed => {},
            OnlinePhase::OpeningStream => {
                calls.push(NativeCall::DestroyRecognizer);
            },
            OnlinePhase::Parsing => {
                calls.push(NativeCall::DestroyResult);
                calls.push(NativeCall::DestroyStream);
                calls.push(NativeCall::DestroyRecognizer);
            },
            _ => {
                calls.push(NativeCall::DestroyStream);
                calls.push(NativeCall::DestroyRecognizer);
            },
        }
        self.phase = OnlinePhase::Destroyed;
        self.record = None;
        assert(calls@ =~= teardown(old(self)@.phase.held()));
        calls
    }
}

impl Transcribe<OnlineRecognizerResult> for OnlineRecognizer {
    open spec fn first_step(&self, sample_rate: i32, num_samples: usize) -> StepShape {
        online_begin(self@.phase, sample_rate, num_samples as int).1
    }

    open spec fn begun(&self, after: &Self, sample_rate: i32, num_samples: usize) -> bool {
        &&& after@.phase == online_begin(self@.phase, sample_rate, num_samples as int).0
        &&& after@.config == self@.config
        &&& after@.record == self@.record
    }

    fn transcribe(&mut self, sample_rate: i32, num_samples: usize) -> (step: Step<
        OnlineRecognizerResult,
    >)
        ensures
            (final(self)@.phase, step.shape()) == online_begin(
                old(self)@.phase,
                sample_rate,
                num_samples as int,
            ),
            final(self)@.config == old(self)@.config,
            final(self)@.record == old(self)@.record,
    {
        OnlineRecognizer::transcribe(self, sample_rate, num_samples)
    }
}

/// What `teardown` is in each phase of an online recognizer.
proof fn lemma_online_teardown(phase: OnlinePhase)
    ensures
        teardown(phase.held()) =~= match phase {
            OnlinePhase::Creating
            | OnlinePhase::Abandoning
            | OnlinePhase::Failed
            | OnlinePhase::Destroyed => seq![],
            OnlinePhase::OpeningStream => seq![NativeCall::DestroyRecognizer],
            OnlinePhase::Parsing => seq![
                NativeCall::DestroyResult,
                NativeCall::DestroyStream,
                NativeCall::DestroyRecognizer,
            ],
            _ => seq![NativeCall::DestroyStream, NativeCall::DestroyRecognizer],
        },
{
    reveal_with_fuel(teardown, 4);
    let held = phase.held();
    if held.len() == 3 {
        assert(held.drop_last() =~= seq![Resource::Recognizer, Resource::Stream]);
        assert(held.drop_last().drop_last() =~= seq![Resource::Recognizer]);
        assert(held.drop_last().drop_last().drop_last() =~= Seq::<Resource>::empty());
    } else if held.len() == 2 {
        assert(held.drop_last() =~= seq![Resource::Recognizer]);
        assert(held.drop_last().drop_last() =~= Seq::<Resource>::empty());
    } else if held.len() == 1 {
        assert(held.drop_last() =~= Seq::<Resource>::empty());
    }
}

/// Whether `reply` is an answer to what the recognizer waits for in
/// `phase`: to its pending call, or to the parsing of the result text.
pub open spec fn online_expects(phase: OnlinePhase, reply: ReplyShape) -> bool {
    match phase.pending() {
        Some(call) => reply.answers(call),
        None => phase == OnlinePhase::Parsing && reply is Parsed,
    }
}

/// Ownership is kept at every step. Whatever reply comes back to what
/// `phase` waits for, the step that follows is never a rejection; a call
/// that is asked for is permitted by what is alive at that moment; and what
/// `held` says of the next phase is what is alive then. While the result
/// text is parsed, the result record stays alive.
pub proof fn lemma_online_step_keeps_ownership(
    phase: OnlinePhase,
    has_record: bool,
    reply: ReplyShape,
)
    requires
        online_expects(phase, reply),
    ensures
        ({
            let (next, step) = online_next(phase, has_record, reply);
            let alive = match phase.pending() {
                Some(call) => after_reply(phase.held(), call, reply.grants()),
                None => phase.held(),
            };
            &&& step != StepShape::Rejected
            &&& is_nested(next.held())
            &&& match step {
                StepShape::Call(asked) => {
                    &&& permitted(alive, asked)
                    &&& next.held() =~= after_call(alive, asked)
                    &&& next.pending() == Some(asked)
                },
                StepShape::Parse => {
                    &&& next == OnlinePhase::Parsing
                    &&& next.held() =~= alive
                    &&& alive.contains(Resource::Result)
                },
                _ => next.pending() is None && next != OnlinePhase::Parsing && next.held() =~= alive,
            }
        }),
{
    let next = online_next(phase, has_record, reply).0;
    let alive = match phase.pending() {
        Some(call) => after_reply(phase.held(), call, reply.grants()),
        None => phase.held(),
    };
    assert(is_nested(alive));
    lemma_nested_contains(alive);
    lemma_nested_contains(next.held());
}

/// A transcription begins with a call that is permitted, and only on a
/// recognizer that is ready; otherwise nothing changes.
pub proof fn lemma_online_begin_keeps_ownership(
    phase: OnlinePhase,
    sample_rate: i32,
    num_samples: int,
)
    ensures
        ({
            let (next, step) = online_begin(phase, sample_rate, num_samples);
            match step {
                StepShape::Call(asked) => {
                    &&& phase == OnlinePhase::Ready
                    &&& permitted(phase.held(), asked)
                    &&& next.held() =~= after_call(phase.held(), asked)
                    &&& next.pending() == Some(asked)
                },
                _ => next == phase,
            }
        }),
{
    lemma_nested_contains(phase.held());
}

/// Whether a record is kept only where it belongs: between the moment the
/// result text is parsed and the moment the record is handed out.
pub open spec fn online_is_tidy(phase: OnlinePhase, has_record: bool) -> bool {
    &&& has_record ==> phase == OnlinePhase::FreeingResult || phase
        == OnlinePhase::CheckingEndpoint || phase == OnlinePhase::Resetting
    &&& phase == OnlinePhase::CheckingEndpoint || phase == OnlinePhase::Resetting ==> has_record
}

/// No record outlives its transcription, and the endpoint is checked only
/// for a transcription that has a record: tidiness is kept by every step.
pub proof fn lemma_online_stays_tidy(
    before: OnlineRecognizerView,
    reply: Reply<RawOnlineResult, OnlineRecognizerResult>,
)
    requires
        online_is_tidy(before.phase, before.record is Some),
    ensures
        online_is_tidy(
            online_next(before.phase, before.record is Some, reply.shape()).0,
            online_record_after(before, reply) is Some,
        ),
{
}

/// Construction makes the recognizer and then its stream. Where the
/// recognizer cannot be made, nothing else is tried. Where the stream cannot
/// be made, the recognizer is freed again before the failure is reported,
/// so that nothing is left alive.
pub proof fn lemma_online_construction(recognizer_made: bool, stream_made: bool)
    ensures
        ({
            let (opening, first) = online_next(
                OnlinePhase::Creating,
                false,
                ReplyShape::Handle { present: recognizer_made },
            );
            let (opened, second) = online_next(
                opening,
                false,
                ReplyShape::Handle { present: stream_made },
            );
            let (abandoned, third) = online_next(opened, false, ReplyShape::Done);
            if !recognizer_made {
                &&& opening == OnlinePhase::Failed
                &&& first == StepShape::Failed(Error::CreationFailed(Resource::Recognizer))
            } else if !stream_made {
                &&& first == StepShape::Call(NativeCall::CreateStream)
                &&& second == StepShape::Call(NativeCall::DestroyRecognizer)
                &&& third == StepShape::Failed(Error::CreationFailed(Resource::Stream))
                &&& abandoned == OnlinePhase::Failed
                &&& abandoned.held() =~= Seq::<Resource>::empty()
            } else {
                &&& first == StepShape::Call(NativeCall::CreateStream)
                &&& second == StepShape::Live
                &&& opened == OnlinePhase::Ready
            }
        }),
{
}

/// The end of a transcription, from the fetched result on. The text is
/// parsed while the record is alive, and the record is freed whether the
/// text could be parsed or not. Text of another shape ends the
/// transcription with an error, without an endpoint check. Otherwise the
/// endpoint is checked, and where the utterance has ended the stream is
/// reset, and not freed, before the parsed record is handed out. In each
/// case the recognizer is ready for the next transcription, which goes to
/// the same stream.
pub proof fn lemma_online_result_and_endpoint(
    config: OnlineRecognizerConfigView,
    parsed: Option<OnlineRecognizerResult>,
    endpoint: i32,
    sample_rate: i32,
    num_samples: i32,
)
    requires
        num_samples >= 0,
    ensures
        ({
            let done = ReplyShape::Done;
            let (parsing, parse) = online_next(
                OnlinePhase::Fetching,
                false,
                ReplyShape::Fetched { present: true },
            );
            let (freeing, free_result) = online_next(
                parsing,
                false,
                ReplyShape::Parsed { well_formed: parsed is Some },
            );
            let record = online_record_after(
                OnlineRecognizerView { config, phase: parsing, record: None },
                Reply::Parsed(parsed),
            );
            let (checking, check) = online_next(freeing, record is Some, done);
            let (resetting, reset) = online_next(
                checking,
                record is Some,
                ReplyShape::Flag(endpoint),
            );
            let (after_reset, finish) = online_next(resetting, record is Some, done);
            let last = if parsed is None {
                checking
            } else if endpoint > 0 {
                after_reset
            } else {
                resetting
            };
            &&& parse == StepShape::Parse
            &&& free_result == StepShape::Call(NativeCall::DestroyResult)
            &&& record == parsed
            &&& if parsed is None {
                check == StepShape::Failed(Error::MalformedOutput)
            } else if endpoint > 0 {
                &&& check == StepShape::Call(NativeCall::IsEndpoint)
                &&& reset == StepShape::Call(NativeCall::Reset)
                &&& finish == StepShape::Finished
            } else {
                &&& check == StepShape::Call(NativeCall::IsEndpoint)
                &&& reset == StepShape::Finished
            }
            &&& last == OnlinePhase::Ready
            &&& last.held() =~= seq![Resource::Recognizer, Resource::Stream]
            &&& online_begin(last, sample_rate, num_samples as int).1 == StepShape::Call(
                NativeCall::AcceptWaveform { sample_rate, num_samples },
            )
        }),
{
}

/// Decoding goes on exactly as long as the stream says that it is ready:
/// each positive answer is followed by one decoding step and the question
/// again, and the first other answer by the fetch of the result.
pub proof fn lemma_online_decodes_while_ready(ready: i32)
    ensures
        ({
            let (next, step) = online_next(OnlinePhase::Polling, false, ReplyShape::Flag(ready));
            let (again, ask) = online_next(next, false, ReplyShape::Done);
            if ready > 0 {
                &&& step == StepShape::Call(NativeCall::Decode)
                &&& ask == StepShape::Call(NativeCall::IsReady)
                &&& again == OnlinePhase::Polling
            } else {
                &&& step == StepShape::Call(NativeCall::GetResult)
                &&& next == OnlinePhase::Fetching
            }
        }),
{
}

/// A construction error is fatal. It is reported only during construction,
/// when nothing is left alive; the recognizer is then failed and stays
/// failed: it begins no transcription and rejects every reply.
pub proof fn lemma_online_construction_error_is_fatal(
    phase: OnlinePhase,
    has_record: bool,
    reply: ReplyShape,
    sample_rate: i32,
    num_samples: int,
)
    ensures
        ({
            let (next, step) = online_next(phase, has_record, reply);
            step matches StepShape::Failed(error) && error.is_construction() ==> {
                &&& phase == OnlinePhase::Creating || phase == OnlinePhase::Abandoning
                &&& next == OnlinePhase::Failed
            }
        }),
        OnlinePhase::Failed.held() =~= Seq::<Resource>::empty(),
        online_next(OnlinePhase::Failed, has_record, reply) == (
            OnlinePhase::Failed,
            StepShape::Rejected,
        ),
        online_begin(OnlinePhase::Failed, sample_rate, num_samples) == (
            OnlinePhase::Failed,
            StepShape::Failed(Error::NotLive),
        ),
{
}

/// Destroying frees each live resource once, the stream before the
/// recognizer, with calls that are permitted; and destroying again frees
/// nothing, whatever the recognizer was doing when it was first destroyed.
pub proof fn lemma_online_destroy_frees_once(phase: OnlinePhase)
    ensures
        ledger(phase.held(), issues(teardown(phase.held()))) == Some(OnlinePhase::Destroyed.held()),
        teardown(OnlinePhase::Destroyed.held()) == Seq::<NativeCall>::empty(),
        teardown(phase.held()).no_duplicates(),
{
    lemma_nested_has_no_duplicates(phase.held());
    lemma_teardown_frees_everything(phase.held());
    lemma_online_teardown(phase);
    assert(OnlinePhase::Destroyed.held() =~= Seq::<Resource>::empty());
}

/// Whether a record is kept once a reply of this shape has been taken.
pub open spec fn online_keeps_record(phase: OnlinePhase, has_record: bool, reply: ReplyShape) -> bool {
    match (phase, reply) {
        (OnlinePhase::Parsing, ReplyShape::Parsed { well_formed }) => well_formed,
        (OnlinePhase::CheckingEndpoint, ReplyShape::Flag(endpoint)) => has_record && endpoint > 0,
        (OnlinePhase::Resetting, ReplyShape::Done) => false,
        _ => has_record,
    }
}

/// What one event does to an online recognizer: the next phase, whether a
/// record is kept, and what the event adds to the history of its native
/// resources. A reply that is rejected changes nothing.
pub open spec fn online_react(phase: OnlinePhase, has_record: bool, event: Event) -> (
    OnlinePhase,
    bool,
    Seq<Action>,
) {
    match event {
        Event::Begin { sample_rate, num_samples } => {
            let (next, step) = online_begin(phase, sample_rate, num_samples as int);
            (next, has_record, issued(step))
        },
        Event::Reply(reply) => {
            let (next, step) = online_next(phase, has_record, reply);
            if step == StepShape::Rejected {
                (phase, has_record, seq![])
            } else {
                (
                    next,
                    online_keeps_record(phase, has_record, reply),
                    granted(phase.pending(), reply) + issued(step),
                )
            }
        },
        Event::Destroy => (OnlinePhase::Destroyed, false, issues(teardown(phase.held()))),
    }
}

/// What a whole script does to an online recognizer, event by event.
pub open spec fn online_run(phase: OnlinePhase, has_record: bool, script: Seq<Event>) -> (
    OnlinePhase,
    bool,
    Seq<Action>,
)
    decreases script.len(),
{
    if script.len() == 0 {
        (phase, has_record, seq![])
    } else {
        let (next, kept, history) = online_react(phase, has_record, script[0]);
        let (last, record, rest) = online_run(next, kept, script.drop_first());
        (last, record, history + rest)
    }
}

/// The functions that change an online recognizer do to its phase and to
/// its record what `online_react` says.
pub proof fn lemma_online_react_is_what_happens(
    before: OnlineRecognizerView,
    reply: Reply<RawOnlineResult, OnlineRecognizerResult>,
)
    ensures
        online_next(before.phase, before.record is Some, reply.shape()).1 != StepShape::Rejected
            ==> online_react(before.phase, before.record is Some, Event::Reply(reply.shape()))
            == (
            online_next(before.phase, before.record is Some, reply.shape()).0,
            online_record_after(before, reply) is Some,
            granted(before.phase.pending(), reply.shape()) + issued(
                online_next(before.phase, before.record is Some, reply.shape()).1,
            ),
        ),
        online_next(before.phase, before.record is Some, reply.shape()).1 == StepShape::Rejected
            ==> online_record_after(before, reply) == before.record,
{
}

/// No event breaks the ownership rules: what an event adds to the history
/// is permitted by what is alive, and leaves alive what `held` says of the
/// next phase.
pub proof fn lemma_online_event_keeps_ownership(phase: OnlinePhase, has_record: bool, event: Event)
    ensures
        ledger(phase.held(), online_react(phase, has_record, event).2) == Some(
            online_react(phase, has_record, event).0.held(),
        ),
{
    match event {
        Event::Begin { sample_rate, num_samples } => {
            let step = online_begin(phase, sample_rate, num_samples as int).1;
            lemma_online_begin_keeps_ownership(phase, sample_rate, num_samples as int);
            lemma_ledger_of_one_step(phase.held(), None, ReplyShape::Done, step);
            assert(granted(None, ReplyShape::Done) + issued(step) =~= issued(step));
        },
        Event::Reply(reply) => {
            let step = online_next(phase, has_record, reply).1;
            if step != StepShape::Rejected {
                lemma_online_step_keeps_ownership(phase, has_record, reply);
                lemma_nested_contains(phase.held());
                lemma_ledger_of_one_step(phase.held(), phase.pending(), reply, step);
            }
        },
        Event::Destroy => {
            lemma_online_destroy_frees_once(phase);
        },
    }
}

/// Every native resource is freed exactly once. Whatever script is played
/// to an online recognizer, the history of its native resources keeps the
/// ownership rules from the first event to the last: no call touches what is
/// not alive, nothing is acquired twice, and nothing is freed but the
/// resource acquired last, so the stream before the recognizer. What is
/// alive at the end is what `held` says of the last phase, so that nothing
/// is alive once the recognizer is destroyed.
pub proof fn lemma_online_script_keeps_ownership(
    phase: OnlinePhase,
    has_record: bool,
    script: Seq<Event>,
)
    ensures
        ledger(phase.held(), online_run(phase, has_record, script).2) == Some(
            online_run(phase, has_record, script).0.held(),
        ),
        script.len() > 0 && script.last() == Event::Destroy ==> ledger(
            phase.held(),
            online_run(phase, has_record, script).2,
        ) == Some(Seq::<Resource>::empty()),
    decreases script.len(),
{
    if script.len() > 0 {
        let (next, kept, history) = online_react(phase, has_record, script[0]);
        let rest = script.drop_first();
        lemma_online_event_keeps_ownership(phase, has_record, script[0]);
        lemma_online_script_keeps_ownership(next, kept, rest);
        lemma_ledger_of_two_parts(phase.held(), history, online_run(next, kept, rest).2);
        if script.last() == Event::Destroy {
            if rest.len() > 0 {
                assert(rest.last() == script.last());
            } else {
                assert(online_run(next, kept, rest).0 == next);
                assert(next.held() =~= Seq::<Resource>::empty());
            }
        }
    }
}

/// A script in two parts is played part by part.
pub proof fn lemma_online_run_of_two_parts(
    phase: OnlinePhase,
    has_record: bool,
    first: Seq<Event>,
    second: Seq<Event>,
)
    ensures
        ({
            let whole = online_run(phase, has_record, first + second);
            let head = online_run(phase, has_record, first);
            let tail = online_run(head.0, head.1, second);
            &&& whole.0 == tail.0
            &&& whole.1 == tail.1
            &&& whole.2 =~= head.2 + tail.2
        }),
    decreases first.len(),
{
    if first.len() == 0 {
        assert(first + second =~= second);
    } else {
        let (next, kept, history) = online_react(phase, has_record, first[0]);
        assert((first + second)[0] == first[0]);
        assert((first + second).drop_first() =~= first.drop_first() + second);
        lemma_online_run_of_two_parts(next, kept, first.drop_first(), second);
    }
}

/// A script of one event does what the event does.
pub proof fn lemma_online_run_of_one(phase: OnlinePhase, has_record: bool, event: Event)
    ensures
        ({
            let run = online_run(phase, has_record, seq![event]);
            let (next, kept, history) = online_react(phase, has_record, event);
            &&& run.0 == next
            &&& run.1 == kept
            &&& run.2 =~= history
        }),
{
    reveal_with_fuel(online_run, 2);
    assert(seq![event].drop_first() =~= Seq::<Event>::empty());
}

/// The replies of `rounds` rounds of decoding: each time the stream says
/// that it is ready, and one step is decoded.
pub open spec fn decoding_rounds(rounds: nat) -> Seq<Event>
    decreases rounds,
{
    if rounds == 0 {
        seq![]
    } else {
        seq![Event::Reply(ReplyShape::Flag(1)), Event::Reply(ReplyShape::Done)] + decoding_rounds(
            (rounds - 1) as nat,
        )
    }
}

/// The script of one whole transcription in which every native call
/// succeeds: the samples are accepted, the stream is ready `rounds` times
/// and then no more, the result is fetched, parsed and freed, and the
/// endpoint is checked and, where it is found, followed by a reset.
pub open spec fn online_transcription(
    sample_rate: i32,
    num_samples: usize,
    rounds: nat,
    endpoint: bool,
) -> Seq<Event> {
    seq![Event::Begin { sample_rate, num_samples }, Event::Reply(ReplyShape::Done)]
        + decoding_rounds(rounds) + seq![
        Event::Reply(ReplyShape::Flag(0)),
        Event::Reply(ReplyShape::Fetched { present: true }),
        Event::Reply(ReplyShape::Parsed { well_formed: true }),
        Event::Reply(ReplyShape::Done),
    ] + if endpoint {
        seq![Event::Reply(ReplyShape::Flag(1)), Event::Reply(ReplyShape::Done)]
    } else {
        seq![Event::Reply(ReplyShape::Flag(0))]
    }
}

/// Rounds of decoding leave the recognizer asking whether the stream is
/// ready, and cost two native calls each.
pub proof fn lemma_online_decoding_rounds(rounds: nat)
    ensures
        ({
            let run = online_run(OnlinePhase::Polling, false, decoding_rounds(rounds));
            &&& run.0 == OnlinePhase::Polling
            &&& run.1 == false
            &&& calls_made(run.2) == 2 * rounds
        }),
    decreases rounds,
{
    if rounds == 0 {
    } else {
        let ready = Event::Reply(ReplyShape::Flag(1));
        let done = Event::Reply(ReplyShape::Done);
        let rest = decoding_rounds((rounds - 1) as nat);
        assert(decoding_rounds(rounds) =~= seq![ready] + (seq![done] + rest));
        lemma_online_run_of_two_parts(OnlinePhase::Polling, false, seq![ready], seq![done] + rest);
        lemma_online_run_of_one(OnlinePhase::Polling, false, ready);
        lemma_online_run_of_two_parts(OnlinePhase::Decoding, false, seq![done], rest);
        lemma_online_run_of_one(OnlinePhase::Decoding, false, done);
        lemma_online_decoding_rounds((rounds - 1) as nat);
        let first = online_run(OnlinePhase::Polling, false, seq![ready]).2;
        let second = online_run(OnlinePhase::Decoding, false, seq![done]).2;
        let third = online_run(OnlinePhase::Polling, false, rest).2;
        lemma_calls_made_of_two_parts(second, third);
        lemma_calls_made_of_two_parts(first, second + third);
        lemma_calls_made_of_one_step(OnlinePhase::Polling, false, ReplyShape::Flag(1));
        lemma_calls_made_of_one_step(OnlinePhase::Decoding, false, ReplyShape::Done);
    }
}

/// The native calls that one accepted reply adds: the call of the next
/// step, if it asks for one.
proof fn lemma_calls_made_of_one_step(phase: OnlinePhase, has_record: bool, reply: ReplyShape)
    ensures
        ({
            let step = online_next(phase, has_record, reply).1;
            let history = online_react(phase, has_record, Event::Reply(reply)).2;
            calls_made(history) == if step is Call {
                1nat
            } else {
                0nat
            }
        }),
{
    let step = online_next(phase, has_record, reply).1;
    let first = granted(phase.pending(), reply);
    let second = issued(step);
    reveal_with_fuel(calls_made, 2);
    if step != StepShape::Rejected {
        lemma_calls_made_of_two_parts(first, second);
        if first.len() > 0 {
            assert(first.drop_first() =~= Seq::<Action>::empty());
        }
        if second.len() > 0 {
            assert(second.drop_first() =~= Seq::<Action>::empty());
        }
    }
}

/// What one event followed by a script does: the event, then the script.
proof fn lemma_online_run_after(
    phase: OnlinePhase,
    has_record: bool,
    event: Event,
    rest: Seq<Event>,
)
    ensures
        ({
            let whole = online_run(phase, has_record, seq![event] + rest);
            let (next, kept, history) = online_react(phase, has_record, event);
            let tail = online_run(next, kept, rest);
            &&& whole.0 == tail.0
            &&& whole.1 == tail.1
            &&& calls_made(whole.2) == calls_made(history) + calls_made(tail.2)
        }),
{
    let (next, kept, history) = online_react(phase, has_record, event);
    lemma_online_run_of_two_parts(phase, has_record, seq![event], rest);
    lemma_online_run_of_one(phase, has_record, event);
    lemma_calls_made_of_two_parts(history, online_run(next, kept, rest).2);
}

/// An online transcription is a bounded sequence of native calls, and the
/// bound is set by the engine alone: with `rounds` rounds of decoding it
/// makes `5 + 2 * rounds` native calls, and one more, the reset, where an
/// endpoint is found. Afterwards the recognizer is ready again and keeps no
/// record.
pub proof fn lemma_online_transcription_is_bounded(
    sample_rate: i32,
    num_samples: usize,
    rounds: nat,
    endpoint: bool,
)
    requires
        num_samples <= i32::MAX,
    ensures
        ({
            let run = online_run(
                OnlinePhase::Ready,
                false,
                online_transcription(sample_rate, num_samples, rounds, endpoint),
            );
            &&& run.0 == OnlinePhase::Ready
            &&& run.1 == false
            &&& calls_made(run.2) == 5 + 2 * rounds + if endpoint {
                1nat
            } else {
                0nat
            }
        }),
{
    let begin = Event::Begin { sample_rate, num_samples };
    let done = Event::Reply(ReplyShape::Done);
    let idle = Event::Reply(ReplyShape::Flag(0));
    let found = Event::Reply(ReplyShape::Flag(1));
    let fetched = Event::Reply(ReplyShape::Fetched { present: true });
    let parsed = Event::Reply(ReplyShape::Parsed { well_formed: true });
    let decoding = decoding_rounds(rounds);
    let closing = if endpoint {
        seq![found] + seq![done]
    } else {
        seq![idle] + Seq::<Event>::empty()
    };
    let after_parse = seq![done] + closing;
    let after_fetch = seq![parsed] + after_parse;
    let after_poll = seq![fetched] + after_fetch;
    let after_rounds = seq![idle] + after_poll;
    let after_accept = decoding + after_rounds;
    let after_begin = seq![done] + after_accept;
    assert(online_transcription(sample_rate, num_samples, rounds, endpoint) =~= seq![begin]
        + after_begin);

    // The samples are accepted, and the stream is asked whether it is ready.
    lemma_online_run_after(OnlinePhase::Ready, false, begin, after_begin);
    let feeding = OnlinePhase::Feeding { sample_rate, num_samples: num_samples as i32 };
    assert(calls_made(online_react(OnlinePhase::Ready, false, begin).2) == 1) by {
        reveal_with_fuel(calls_made, 2);
        let history = online_react(OnlinePhase::Ready, false, begin).2;
        assert(history.drop_first() =~= Seq::<Action>::empty());
    }
    lemma_online_run_after(feeding, false, done, after_accept);
    lemma_calls_made_of_one_step(feeding, false, ReplyShape::Done);

    // The rounds of decoding.
    lemma_online_run_of_two_parts(OnlinePhase::Polling, false, decoding, after_rounds);
    lemma_online_decoding_rounds(rounds);
    lemma_calls_made_of_two_parts(
        online_run(OnlinePhase::Polling, false, decoding).2,
        online_run(OnlinePhase::Polling, false, after_rounds).2,
    );

    // The result is fetched, parsed and freed.
    lemma_online_run_after(OnlinePhase::Polling, false, idle, after_poll);
    lemma_calls_made_of_one_step(OnlinePhase::Polling, false, ReplyShape::Flag(0));
    lemma_online_run_after(OnlinePhase::Fetching, false, fetched, after_fetch);
    lemma_calls_made_of_one_step(
        OnlinePhase::Fetching,
        false,
        ReplyShape::Fetched { present: true },
    );
    lemma_online_run_after(OnlinePhase::Parsing, false, parsed, after_parse);
    lemma_calls_made_of_one_step(
        OnlinePhase::Parsing,
        false,
        ReplyShape::Parsed { well_formed: true },
    );
    lemma_online_run_after(OnlinePhase::FreeingResult, true, done, closing);
    lemma_calls_made_of_one_step(OnlinePhase::FreeingResult, true, ReplyShape::Done);

    // The endpoint is checked, and the stream reset where one is found.
    if endpoint {
        lemma_online_run_after(OnlinePhase::CheckingEndpoint, true, found, seq![done]);
        lemma_calls_made_of_one_step(OnlinePhase::CheckingEndpoint, true, ReplyShape::Flag(1));
        lemma_online_run_of_one(OnlinePhase::Resetting, true, done);
        lemma_calls_made_of_one_step(OnlinePhase::Resetting, true, ReplyShape::Done);
    } else {
        lemma_online_run_after(
            OnlinePhase::CheckingEndpoint,
            true,
            idle,
            Seq::<Event>::empty(),
        );
        lemma_calls_made_of_one_step(OnlinePhase::CheckingEndpoint, true, ReplyShape::Flag(0));
    }
}

} // verus!
