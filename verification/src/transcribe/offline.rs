//! The offline recognizer: one complete recording per transcription, and
//! nothing carried over from one transcription to the next.
//!
//! The recognizer never touches native memory. It tells the shell which
//! native call to make next and is told what came back. The native calls
//! that it asks for keep the ownership rules of [`crate::protocol`] whatever
//! comes back.

use vstd::prelude::*;
use vstd::utf8::*;
use crate::bridge::{decode_nullable, from_nullable, to_native_clean};
use crate::config::{
    convert_option, default_provider, embedded_nul, flag_to_native, get_default_provider,
    lemma_literals_hold_no_nul, native_flag, native_thread_count, text_or, thread_count_to_native,
    OfflineModel, OfflineModelConfig, OfflineModelConfigView, OfflineModelView,
    OfflineRecognizerConfig, OfflineRecognizerConfigView, OfflineSenseVoiceModelConfig,
    OfflineSenseVoiceModelConfigView, OfflineWhisperModelConfig, OfflineWhisperModelConfigView,
    Platform,
};
use crate::transcribe::Transcribe;
use crate::protocol::{
    after_call, after_reply, granted, is_nested, issued, issues, ledger,
    lemma_ledger_of_one_step, lemma_ledger_of_two_parts, lemma_nested_contains,
    lemma_nested_has_no_duplicates, lemma_teardown_frees_everything, permitted, teardown, Error,
    Action, Event, NativeCall, Reply, ReplyShape, Resource, Step, StepShape, TextOption,
};

verus! {

/// What an offline transcription gives.
#[derive(Debug, PartialEq, Eq)]
pub struct OfflineRecognizerResult {
    pub text: String,
    pub event: String,
    pub lang: String,
    pub emotion: String,
}

pub struct OfflineRecognizerResultView {
    pub text: Seq<char>,
    pub event: Seq<char>,
    pub lang: Seq<char>,
    pub emotion: Seq<char>,
}

impl View for OfflineRecognizerResult {
    type V = OfflineRecognizerResultView;

    open spec fn view(&self) -> OfflineRecognizerResultView {
        OfflineRecognizerResultView {
            text: self.text@,
            event: self.event@,
            lang: self.lang@,
            emotion: self.emotion@,
        }
    }
}

/// The text fields of a native result record, copied out of native memory
/// with their terminators. A field is `None` where the record holds a null
/// pointer.
#[derive(Debug, PartialEq, Eq)]
pub struct RawOfflineResult {
    pub text: Option<Vec<u8>>,
    pub event: Option<Vec<u8>>,
    pub lang: Option<Vec<u8>>,
    pub emotion: Option<Vec<u8>>,
}

/// The record that the native fields decode to, each by the rule of the
/// string bridge.
pub open spec fn decode_offline_result(raw: RawOfflineResult) -> OfflineRecognizerResultView {
    OfflineRecognizerResultView {
        text: decode_nullable(raw.text),
        event: decode_nullable(raw.event),
        lang: decode_nullable(raw.lang),
        emotion: decode_nullable(raw.emotion),
    }
}

impl OfflineRecognizerResult {
    /// Decodes the fields of a native result record. A field that is missing
    /// or is not UTF-8 becomes the empty text; the others are not affected.
    pub fn from_native(raw: &RawOfflineResult) -> (record: OfflineRecognizerResult)
        ensures
            record@ == decode_offline_result(*raw),
    {
        OfflineRecognizerResult {
            text: from_nullable(&raw.text),
            event: from_nullable(&raw.event),
            lang: from_nullable(&raw.lang),
            emotion: from_nullable(&raw.emotion),
        }
    }
}

/// Where an offline recognizer stands. Each phase but the four resting ones
/// (`Idle`, `Failed`, `Destroyed`, and `Creating` before its call is made)
/// waits for the reply to one native call.
#[derive(Clone, Copy, Debug, PartialEq, Eq, Structural)]
pub enum OfflinePhase {
    /// The configuration is built; the factory call is to be answered.
    Creating,
    /// Live, with no transcription under way.
    Idle,
    /// A transcription has begun: a stream is being created.
    OpeningStream { sample_rate: i32, num_samples: i32 },
    /// The stream is given the whole waveform.
    Feeding { sample_rate: i32, num_samples: i32 },
    /// The stream is decoded to completion.
    Decoding,
    /// The result record is fetched.
    Fetching,
    /// The result record has been read and is freed.
    FreeingResult,
    /// The stream is freed.
    ClosingStream,
    /// The factory gave no recognizer. Nothing can be done with this value.
    Failed,
    /// Every native resource has been given back.
    Destroyed,
}

impl OfflinePhase {
    /// The native resources that are alive in this phase, in the order in
    /// which they were acquired, once the call of this phase has been made.
    pub open spec fn held(self) -> Seq<Resource> {
        match self {
            OfflinePhase::Creating | OfflinePhase::Failed | OfflinePhase::Destroyed => seq![],
            OfflinePhase::Idle | OfflinePhase::OpeningStream { .. } | OfflinePhase::ClosingStream =>
                seq![Resource::Recognizer],
            OfflinePhase::Feeding { .. }
            | OfflinePhase::Decoding
            | OfflinePhase::Fetching
            | OfflinePhase::FreeingResult => seq![Resource::Recognizer, Resource::Stream],
        }
    }

    /// The native call that this phase waits for.
    pub open spec fn pending(self) -> Option<NativeCall> {
        match self {
            OfflinePhase::Creating => Some(NativeCall::CreateRecognizer),
            OfflinePhase::OpeningStream { .. } => Some(NativeCall::CreateStream),
            OfflinePhase::Feeding { sample_rate, num_samples } => Some(
                NativeCall::AcceptWaveform { sample_rate, num_samples },
            ),
            OfflinePhase::Decoding => Some(NativeCall::Decode),
            OfflinePhase::Fetching => Some(NativeCall::GetResult),
            OfflinePhase::FreeingResult => Some(NativeCall::DestroyResult),
            OfflinePhase::ClosingStream => Some(NativeCall::DestroyStream),
            OfflinePhase::Idle | OfflinePhase::Failed | OfflinePhase::Destroyed => None,
        }
    }
}

/// How a transcription of `num_samples` samples begins in `phase`: the next
/// phase and the first step. Only an idle recognizer begins one.
pub open spec fn offline_begin(phase: OfflinePhase, sample_rate: i32, num_samples: int) -> (
    OfflinePhase,
    StepShape,
) {
    match phase {
        OfflinePhase::Idle => if num_samples <= i32::MAX {
            (
                OfflinePhase::OpeningStream { sample_rate, num_samples: num_samples as i32 },
                StepShape::Call(NativeCall::CreateStream),
            )
        } else {
            (phase, StepShape::Failed(Error::WaveformTooLong))
        },
        OfflinePhase::Creating | OfflinePhase::Failed | OfflinePhase::Destroyed => (
            phase,
            StepShape::Failed(Error::NotLive),
        ),
        _ => (phase, StepShape::Failed(Error::Busy)),
    }
}

/// How the recognizer goes on in `phase` when `reply` comes back: the next
/// phase and the next step. `has_record` says whether a decoded record is
/// kept for the caller.
///
/// A stream that cannot be created ends the transcription at once. A result
/// that cannot be fetched ends it once the stream is freed. A fetched result
/// is freed before the stream, and the stream before the record is handed
/// out.
pub open spec fn offline_next(phase: OfflinePhase, has_record: bool, reply: ReplyShape) -> (
    OfflinePhase,
    StepShape,
) {
    match (phase, reply) {
        (OfflinePhase::Creating, ReplyShape::Handle { present }) => if present {
            (OfflinePhase::Idle, StepShape::Live)
        } else {
            (OfflinePhase::Failed, StepShape::Failed(Error::CreationFailed(Resource::Recognizer)))
        },
        (OfflinePhase::OpeningStream { sample_rate, num_samples }, ReplyShape::Handle { present }) =>
            if present {
            (
                OfflinePhase::Feeding { sample_rate, num_samples },
                StepShape::Call(NativeCall::AcceptWaveform { sample_rate, num_samples }),
            )
        } else {
            (
                OfflinePhase::Idle,
                StepShape::Failed(Error::NativeCallFailed(NativeCall::CreateStream)),
            )
        },
        (OfflinePhase::Feeding { .. }, ReplyShape::Done) => (
            OfflinePhase::Decoding,
            StepShape::Call(NativeCall::Decode),
        ),
        (OfflinePhase::Decoding, ReplyShape::Done) => (
            OfflinePhase::Fetching,
            StepShape::Call(NativeCall::GetResult),
        ),
        (OfflinePhase::Fetching, ReplyShape::Fetched { present }) => if present {
            (OfflinePhase::FreeingResult, StepShape::Call(NativeCall::DestroyResult))
        } else {
            (OfflinePhase::ClosingStream, StepShape::Call(NativeCall::DestroyStream))
        },
        (OfflinePhase::FreeingResult, ReplyShape::Done) => (
            OfflinePhase::ClosingStream,
            StepShape::Call(NativeCall::DestroyStream),
        ),
        (OfflinePhase::ClosingStream, ReplyShape::Done) => (
            OfflinePhase::Idle,
            if has_record {
                StepShape::Finished
            } else {
                StepShape::Failed(Error::NativeCallFailed(NativeCall::GetResult))
            },
        ),
        _ => (phase, StepShape::Rejected),
    }
}

/// The configuration of a Whisper recognizer. The task is transcription, no
/// tail padding is asked for, and decoding is greedy.
pub open spec fn whisper_config(
    decoder: Seq<char>,
    encoder: Seq<char>,
    tokens: Seq<char>,
    language: Seq<char>,
    debug: bool,
    provider: Seq<char>,
    num_threads: u32,
    bpe_vocab: Seq<char>,
) -> OfflineRecognizerConfigView {
    OfflineRecognizerConfigView {
        model_config: OfflineModelConfigView {
            model: OfflineModelView::Whisper(
                OfflineWhisperModelConfigView {
                    encoder: encode_utf8(encoder),
                    decoder: encode_utf8(decoder),
                    language: encode_utf8(language),
                    task: encode_utf8("transcribe"@),
                    tail_paddings: 0,
                },
            ),
            tokens: encode_utf8(tokens),
            num_threads: native_thread_count(num_threads),
            debug: native_flag(debug),
            provider: encode_utf8(provider),
            bpe_vocab: encode_utf8(bpe_vocab),
        },
        decoding_method: encode_utf8("greedy_search"@),
    }
}

/// The error that construction of a Whisper recognizer ends with, if any:
/// that of the first text option, in the order in which they are converted,
/// that holds U+0000.
pub open spec fn whisper_rejection(
    decoder: Seq<char>,
    encoder: Seq<char>,
    tokens: Seq<char>,
    language: Seq<char>,
    provider: Seq<char>,
    bpe_vocab: Seq<char>,
) -> Option<Error> {
    if decoder.contains('\0') {
        Some(embedded_nul(TextOption::Decoder, decoder))
    } else if encoder.contains('\0') {
        Some(embedded_nul(TextOption::Encoder, encoder))
    } else if language.contains('\0') {
        Some(embedded_nul(TextOption::Language, language))
    } else if tokens.contains('\0') {
        Some(embedded_nul(TextOption::Tokens, tokens))
    } else if provider.contains('\0') {
        Some(embedded_nul(TextOption::Provider, provider))
    } else if bpe_vocab.contains('\0') {
        Some(embedded_nul(TextOption::BpeVocab, bpe_vocab))
    } else {
        None
    }
}

/// The configuration of a SenseVoice recognizer. Decoding is greedy.
pub open spec fn sense_voice_config(
    model: Seq<char>,
    tokens: Seq<char>,
    language: Seq<char>,
    use_itn: i32,
    debug: bool,
    provider: Seq<char>,
    num_threads: u32,
    bpe_vocab: Seq<char>,
) -> OfflineRecognizerConfigView {
    OfflineRecognizerConfigView {
        model_config: OfflineModelConfigView {
            model: OfflineModelView::SenseVoice(
                OfflineSenseVoiceModelConfigView {
                    model: encode_utf8(model),
                    language: encode_utf8(language),
                    use_itn: use_itn as int,
                },
            ),
            tokens: encode_utf8(tokens),
            num_threads: native_thread_count(num_threads),
            debug: native_flag(debug),
            provider: encode_utf8(provider),
            bpe_vocab: encode_utf8(bpe_vocab),
        },
        decoding_method: encode_utf8("greedy_search"@),
    }
}

/// The error that construction of a SenseVoice recognizer ends with, if any:
/// that of the first text option, in the order in which they are converted,
/// that holds U+0000.
pub open spec fn sense_voice_rejection(
    model: Seq<char>,
    tokens: Seq<char>,
    language: Seq<char>,
    provider: Seq<char>,
    bpe_vocab: Seq<char>,
) -> Option<Error> {
    if tokens.contains('\0') {
        Some(embedded_nul(TextOption::Tokens, tokens))
    } else if provider.contains('\0') {
        Some(embedded_nul(TextOption::Provider, provider))
    } else if bpe_vocab.contains('\0') {
        Some(embedded_nul(TextOption::BpeVocab, bpe_vocab))
    } else if model.contains('\0') {
        Some(embedded_nul(TextOption::Model, model))
    } else if language.contains('\0') {
        Some(embedded_nul(TextOption::Language, language))
    } else {
        None
    }
}

/// An offline recognizer: its configuration, where it stands, and the record
/// of a transcription whose native resources are still being freed.
#[derive(Debug)]
pub struct OfflineRecognizer {
    config: OfflineRecognizerConfig,
    phase: OfflinePhase,
    record: Option<OfflineRecognizerResult>,
}

pub struct OfflineRecognizerView {
    pub config: OfflineRecognizerConfigView,
    pub phase: OfflinePhase,
    pub record: Option<OfflineRecognizerResultView>,
}

impl View for OfflineRecognizer {
    type V = OfflineRecognizerView;

    closed spec fn view(&self) -> OfflineRecognizerView {
        OfflineRecognizerView {
            config: self.config@,
            phase: self.phase,
            record: match self.record {
                Some(record) => Some(record@),
                None => None,
            },
        }
    }
}

impl OfflineRecognizer {
    /// Builds the configuration of a Whisper recognizer. The recognizer that
    /// comes back is not live yet: it waits for the reply to the factory
    /// call, which takes `config()`.
    ///
    /// Where `provider` is `None` the best provider of `platform` is taken,
    /// and where `bpe_vocab` is `None` the empty text. Numbers are handed on
    /// as they are.
    pub fn user_whisper(
        decoder: String,
        encoder: String,
        tokens: String,
        language: String,
        debug: bool,
        provider: Option<String>,
        num_threads: u32,
        bpe_vocab: Option<String>,
        platform: Platform,
    ) -> (result: Result<OfflineRecognizer, Error>)
        ensures
            match result {
                Ok(recognizer) => {
                    &&& whisper_rejection(
                        decoder@,
                        encoder@,
                        tokens@,
                        language@,
                        text_or(provider, default_provider(platform)),
                        text_or(bpe_vocab, Seq::<char>::empty()),
                    ) is None
                    &&& recognizer@.config == whisper_config(
                        decoder@,
                        encoder@,
                        tokens@,
                        language@,
                        debug,
                        text_or(provider, default_provider(platform)),
                        num_threads,
                        text_or(bpe_vocab, Seq::<char>::empty()),
                    )
                    &&& recognizer@.phase == OfflinePhase::Creating
                    &&& recognizer@.record is None
                },
                Err(error) => whisper_rejection(
                    decoder@,
                    encoder@,
                    tokens@,
                    language@,
                    text_or(provider, default_provider(platform)),
                    text_or(bpe_vocab, Seq::<char>::empty()),
                ) == Some(error),
            },
    {
        proof {
            lemma_literals_hold_no_nul();
        }
        let decoder_c = match convert_option(TextOption::Decoder, decoder.as_str()) {
            Ok(buffer) => buffer,
            Err(error) => return Err(error),
        };
        let encoder_c = match convert_option(TextOption::Encoder, encoder.as_str()) {
            Ok(buffer) => buffer,
            Err(error) => return Err(error),
        };
        let language_c = match convert_option(TextOption::Language, language.as_str()) {
            Ok(buffer) => buffer,
            Err(error) => return Err(error),
        };
        let task_c = to_native_clean("transcribe");
        let tokens_c = match convert_option(TextOption::Tokens, tokens.as_str()) {
            Ok(buffer) => buffer,
            Err(error) => return Err(error),
        };
        let provider_text: &str = match &provider {
            Some(name) => name.as_str(),
            None => get_default_provider(platform),
        };
        let provider_c = match convert_option(TextOption::Provider, provider_text) {
            Ok(buffer) => buffer,
            Err(error) => return Err(error),
        };
        let bpe_vocab_text: &str = match &bpe_vocab {
            Some(path) => path.as_str(),
            None => "",
        };
        let bpe_vocab_c = match convert_option(TextOption::BpeVocab, bpe_vocab_text) {
            Ok(buffer) => buffer,
            Err(error) => return Err(error),
        };
        let decoding_method_c = to_native_clean("greedy_search");
        let config = OfflineRecognizerConfig {
            model_config: OfflineModelConfig {
                model: OfflineModel::Whisper(
                    OfflineWhisperModelConfig {
                        encoder: encoder_c,
                        decoder: decoder_c,
                        language: language_c,
                        task: task_c,
                        tail_paddings: 0,
                    },
                ),
                tokens: tokens_c,
                num_threads: thread_count_to_native(num_threads),
                debug: flag_to_native(debug),
                provider: provider_c,
                bpe_vocab: bpe_vocab_c,
            },
            decoding_method: decoding_method_c,
        };
        Ok(OfflineRecognizer { config, phase: OfflinePhase::Creating, record: None })
    }

    /// Builds the configuration of a SenseVoice recognizer. The recognizer
    /// that comes back is not live yet: it waits for the reply to the factory
    /// call, which takes `config()`.
    ///
    /// Where `provider` is `None` the best provider of `platform` is taken,
    /// and where `bpe_vocab` is `None` the empty text. Numbers are handed on
    /// as they are.
    pub fn user_sense_voice(
        model: String,
        tokens: String,
        language: String,
        use_itn: i32,
        debug: bool,
        provider: Option<String>,
        num_threads: u32,
        bpe_vocab: Option<String>,
        platform: Platform,
    ) -> (result: Result<OfflineRecognizer, Error>)
        ensures
            match result {
                Ok(recognizer) => {
                    &&& sense_voice_rejection(
                        model@,
                        tokens@,
                        language@,
                        text_or(provider, default_provider(platform)),
                        text_or(bpe_vocab, Seq::<char>::empty()),
                    ) is None
                    &&& recognizer@.config == sense_voice_config(
                        model@,
                        tokens@,
                        language@,
                        use_itn,
                        debug,
                        text_or(provider, default_provider(platform)),
                        num_threads,
                        text_or(bpe_vocab, Seq::<char>::empty()),
                    )
                    &&& recognizer@.phase == OfflinePhase::Creating
                    &&& recognizer@.record is None
                },
                Err(error) => sense_voice_rejection(
                    model@,
                    tokens@,
                    language@,
                    text_or(provider, default_provider(platform)),
                    text_or(bpe_vocab, Seq::<char>::empty()),
                ) == Some(error),
            },
    {
        proof {
            lemma_literals_hold_no_nul();
        }
        let tokens_c = match convert_option(TextOption::Tokens, tokens.as_str()) {
            Ok(buffer) => buffer,
            Err(error) => return Err(error),
        };
        let provider_text: &str = match &provider {
            Some(name) => name.as_str(),
            None => get_default_provider(platform),
        };
        let provider_c = match convert_option(TextOption::Provider, provider_text) {
            Ok(buffer) => buffer,
            Err(error) => return Err(error),
        };
        let bpe_vocab_text: &str = match &bpe_vocab {
            Some(path) => path.as_str(),
            None => "",
        };
        let bpe_vocab_c = match convert_option(TextOption::BpeVocab, bpe_vocab_text) {
            Ok(buffer) => buffer,
            Err(error) => return Err(error),
        };
        let model_c = match convert_option(TextOption::Model, model.as_str()) {
            Ok(buffer) => buffer,
            Err(error) => return Err(error),
        };
        let language_c = match convert_option(TextOption::Language, language.as_str()) {
            Ok(buffer) => buffer,
            Err(error) => return Err(error),
        };
        let decoding_method_c = to_native_clean("greedy_search");
        let config = OfflineRecognizerConfig {
            model_config: OfflineModelConfig {
                model: OfflineModel::SenseVoice(
                    OfflineSenseVoiceModelConfig { model: model_c, language: language_c, use_itn },
                ),
                tokens: tokens_c,
                num_threads: thread_count_to_native(num_threads),
                debug: flag_to_native(debug),
                provider: provider_c,
                bpe_vocab: bpe_vocab_c,
            },
            decoding_method: decoding_method_c,
        };
        Ok(OfflineRecognizer { config, phase: OfflinePhase::Creating, record: None })
    }

    /// The configuration that the factory call takes.
    pub fn config(&self) -> (config: &OfflineRecognizerConfig)
        ensures
            config@ == self@.config,
    {
        &self.config
    }

    /// Where the recognizer stands.
    pub fn phase(&self) -> (phase: OfflinePhase)
        ensures
            phase == self@.phase,
    {
        self.phase
    }

    /// The native call that the recognizer waits for, if any.
    pub fn pending(&self) -> (call: Option<NativeCall>)
        ensures
            call == self@.phase.pending(),
    {
        match self.phase {
            OfflinePhase::Creating => Some(NativeCall::CreateRecognizer),
            OfflinePhase::OpeningStream { .. } => Some(NativeCall::CreateStream),
            OfflinePhase::Feeding { sample_rate, num_samples } => Some(
                NativeCall::AcceptWaveform { sample_rate, num_samples },
            ),
            OfflinePhase::Decoding => Some(NativeCall::Decode),
            OfflinePhase::Fetching => Some(NativeCall::GetResult),
            OfflinePhase::FreeingResult => Some(NativeCall::DestroyResult),
            OfflinePhase::ClosingStream => Some(NativeCall::DestroyStream),
            OfflinePhase::Idle | OfflinePhase::Failed | OfflinePhase::Destroyed => None,
        }
    }

    /// Begins the transcription of one recording of `num_samples` samples.
    ///
    /// An idle recognizer asks for a fresh stream. Any other gives the error
    /// that says why not, and stays as it is.
    pub fn transcribe(&mut self, sample_rate: i32, num_samples: usize) -> (step: Step<
        OfflineRecognizerResult,
    >)
        ensures
            (final(self)@.phase, step.shape()) == offline_begin(
                old(self)@.phase,
                sample_rate,
                num_samples as int,
            ),
            final(self)@.config == old(self)@.config,
            final(self)@.record == old(self)@.record,
    {
        match self.phase {
            OfflinePhase::Idle => {
                if num_samples <= 0x7fff_ffff {
                    self.phase =
                    OfflinePhase::OpeningStream { sample_rate, num_samples: num_samples as i32 };
                    Step::Call(NativeCall::CreateStream)
                } else {
                    Step::Failed(Error::WaveformTooLong)
                }
            },
            OfflinePhase::Creating | OfflinePhase::Failed | OfflinePhase::Destroyed => Step::Failed(
                Error::NotLive,
            ),
            _ => Step::Failed(Error::Busy),
        }
    }

    /// Takes the reply to the pending call and says what to do next.
    ///
    /// The phase and the step are those of [`offline_next`]. A fetched
    /// record is decoded at once, before the call that frees it is asked
    /// for, and kept until the stream is freed; the step that finishes the
    /// transcription hands it out.
    pub fn resume(&mut self, reply: Reply<RawOfflineResult, OfflineRecognizerResult>) -> (step:
        Step<OfflineRecognizerResult>)
        ensures
            (final(self)@.phase, step.shape()) == offline_next(
                old(self)@.phase,
                old(self)@.record is Some,
                reply.shape(),
            ),
            final(self)@.config == old(self)@.config,
            final(self)@.record == offline_record_after(old(self)@, reply),
            step matches Step::Finished(record) ==> old(self)@.record == Some(record@),
    {
        match (self.phase, reply) {
            (OfflinePhase::Creating, Reply::Handle { present }) => {
                if present {
                    self.phase = OfflinePhase::Idle;
                    Step::Live
                } else {
                    self.phase = OfflinePhase::Failed;
                    Step::Failed(Error::CreationFailed(Resource::Recognizer))
                }
            },
            (OfflinePhase::OpeningStream { sample_rate, num_samples }, Reply::Handle { present }) => {
                if present {
                    self.phase = OfflinePhase::Feeding { sample_rate, num_samples };
                    Step::Call(NativeCall::AcceptWaveform { sample_rate, num_samples })
                } else {
                    self.phase = OfflinePhase::Idle;
                    Step::Failed(Error::NativeCallFailed(NativeCall::CreateStream))
                }
            },
            (OfflinePhase::Feeding { .. }, Reply::Done) => {
                self.phase = OfflinePhase::Decoding;
                Step::Call(NativeCall::Decode)
            },
            (OfflinePhase::Decoding, Reply::Done) => {
                self.phase = OfflinePhase::Fetching;
                Step::Call(NativeCall::GetResult)
            },
            (OfflinePhase::Fetching, Reply::Fetched(fetched)) => {
                match fetched {
                    Some(raw) => {
                        self.record = Some(OfflineRecognizerResult::from_native(&raw));
                        self.phase = OfflinePhase::FreeingResult;
                        Step::Call(NativeCall::DestroyResult)
                    },
                    None => {
                        self.record = None;
                        self.phase = OfflinePhase::ClosingStream;
                        Step::Call(NativeCall::DestroyStream)
                    },
                }
            },
            (OfflinePhase::FreeingResult, Reply::Done) => {
                self.phase = OfflinePhase::ClosingStream;
                Step::Call(NativeCall::DestroyStream)
            },
            (OfflinePhase::ClosingStream, Reply::Done) => {
                self.phase = OfflinePhase::Idle;
                match self.record.take() {
                    Some(record) => Step::Finished(record),
                    None => Step::Failed(Error::NativeCallFailed(NativeCall::GetResult)),
                }
            },
            _ => Step::Rejected,
        }
    }

    /// Gives back every native resource that is alive: the destructor calls
    /// to make, the last acquired resource first. Afterwards nothing is
    /// alive, so that a second call returns no destructor at all.
    pub fn destroy(&mut self) -> (calls: Vec<NativeCall>)
        ensures
            calls@ == teardown(old(self)@.phase.held()),
            final(self)@.phase == OfflinePhase::Destroyed,
            final(self)@.config == old(self)@.config,
            final(self)@.record is None,
    {
        let mut calls: Vec<NativeCall> = Vec::new();
        proof {
            lemma_offline_teardown(self.phase);
        }
        match self.phase {
            OfflinePhase::Creating | OfflinePhase::Failed | OfflinePhase::Destroyed => {},
            OfflinePhase::Idle | OfflinePhase::OpeningStream { .. } | OfflinePhase::ClosingStream => {
                calls.push(NativeCall::DestroyRecognizer);
            },
            OfflinePhase::Feeding { .. }
            | OfflinePhase::Decoding
            | OfflinePhase::Fetching
            | OfflinePhase::FreeingResult => {
                calls.push(NativeCall::DestroyStream);
                calls.push(NativeCall::DestroyRecognizer);
            },
        }
        self.phase = OfflinePhase::Destroyed;
        self.record = None;
        assert(calls@ =~= teardown(old(self)@.phase.held()));
        calls
    }
}

impl Transcribe<OfflineRecognizerResult> for OfflineRecognizer {
    open spec fn first_step(&self, sample_rate: i32, num_samples: usize) -> StepShape {
        offline_begin(self@.phase, sample_rate, num_samples as int).1
    }

    open spec fn begun(&self, after: &Self, sample_rate: i32, num_samples: usize) -> bool {
        &&& after@.phase == offline_begin(self@.phase, sample_rate, num_samples as int).0
        &&& after@.config == self@.config
        &&& after@.record == self@.record
    }

    fn transcribe(&mut self, sample_rate: i32, num_samples: usize) -> (step: Step<
        OfflineRecognizerResult,
    >)
        ensures
            (final(self)@.phase, step.shape()) == offline_begin(
                old(self)@.phase,
                sample_rate,
                num_samples as int,
            ),
            final(self)@.config == old(self)@.config,
            final(self)@.record == old(self)@.record,
    {
        OfflineRecognizer::transcribe(self, sample_rate, num_samples)
    }
}

/// The record that an offline recognizer keeps once `reply` has been taken:
/// the decoded fields of a result that was fetched; none once the
/// transcription has ended; otherwise what it kept before.
pub open spec fn offline_record_after(
    before: OfflineRecognizerView,
    reply: Reply<RawOfflineResult, OfflineRecognizerResult>,
) -> Option<OfflineRecognizerResultView> {
    match (before.phase, reply) {
        (OfflinePhase::Fetching, Reply::Fetched(Some(raw))) => Some(decode_offline_result(raw)),
        (OfflinePhase::Fetching, Reply::Fetched(None)) => None,
        (OfflinePhase::ClosingStream, Reply::Done) => None,
        _ => before.record,
    }
}

/// What `teardown` is in each phase of an offline recognizer.
proof fn lemma_offline_teardown(phase: OfflinePhase)
    ensures
        teardown(phase.held()) =~= match phase {
            OfflinePhase::Creating | OfflinePhase::Failed | OfflinePhase::Destroyed => seq![],
            OfflinePhase::Idle | OfflinePhase::OpeningStream { .. } | OfflinePhase::ClosingStream =>
                seq![NativeCall::DestroyRecognizer],
            OfflinePhase::Feeding { .. }
            | OfflinePhase::Decoding
            | OfflinePhase::Fetching
            | OfflinePhase::FreeingResult => seq![
                NativeCall::DestroyStream,
                NativeCall::DestroyRecognizer,
            ],
        },
{
    reveal_with_fuel(teardown, 3);
    let held = phase.held();
    if held.len() == 2 {
        assert(held.drop_last() =~= seq![Resource::Recognizer]);
        assert(held.drop_last().drop_last() =~= Seq::<Resource>::empty());
    } else if held.len() == 1 {
        assert(held.drop_last() =~= Seq::<Resource>::empty());
    }
}

/// Ownership is kept at every step. Whatever reply comes back to the
/// pending call of `phase`, the step that follows is never a rejection; a
/// call that is asked for is permitted by what is alive at that moment; and
/// what `held` says of the next phase is what is alive then.
pub proof fn lemma_offline_step_keeps_ownership(
    phase: OfflinePhase,
    has_record: bool,
    reply: ReplyShape,
)
    requires
        phase.pending() matches Some(call) && reply.answers(call),
    ensures
        ({
            let call = phase.pending().unwrap();
            let (next, step) = offline_next(phase, has_record, reply);
            let alive = after_reply(phase.held(), call, reply.grants());
            &&& step != StepShape::Rejected
            &&& is_nested(next.held())
            &&& match step {
                StepShape::Call(asked) => {
                    &&& permitted(alive, asked)
                    &&& next.held() =~= after_call(alive, asked)
                    &&& next.pending() == Some(asked)
                },
                _ => next.pending() is None && next.held() =~= alive,
            }
        }),
{
    let call = phase.pending().unwrap();
    let next = offline_next(phase, has_record, reply).0;
    let alive = after_reply(phase.held(), call, reply.grants());
    assert(is_nested(alive));
    lemma_nested_contains(alive);
    lemma_nested_contains(next.held());
}

/// A transcription begins with a call that is permitted, and only on a
/// recognizer that is idle; otherwise nothing changes.
pub proof fn lemma_offline_begin_keeps_ownership(
    phase: OfflinePhase,
    sample_rate: i32,
    num_samples: int,
)
    ensures
        ({
            let (next, step) = offline_begin(phase, sample_rate, num_samples);
            match step {
                StepShape::Call(asked) => {
                    &&& phase == OfflinePhase::Idle
                    &&& permitted(phase.held(), asked)
                    &&& next.held() =~= after_call(phase.held(), asked)
                    &&& next.pending() == Some(asked)
                },
                _ => next == phase,
            }
        }),
{
    lemma_nested_contains(phase.held());
}

/// The number of replies that a transcription still needs before it ends.
pub open spec fn offline_replies_left(phase: OfflinePhase) -> nat {
    match phase {
        OfflinePhase::OpeningStream { .. } => 6,
        OfflinePhase::Feeding { .. } => 5,
        OfflinePhase::Decoding => 4,
        OfflinePhase::Fetching => 3,
        OfflinePhase::FreeingResult => 2,
        OfflinePhase::ClosingStream | OfflinePhase::Creating => 1,
        OfflinePhase::Idle | OfflinePhase::Failed | OfflinePhase::Destroyed => 0,
    }
}

/// A transcription is a bounded sequence of native calls: each reply that is
/// taken brings its end nearer, and it has ended when no reply is needed.
pub proof fn lemma_offline_transcription_is_bounded(
    phase: OfflinePhase,
    has_record: bool,
    reply: ReplyShape,
)
    ensures
        ({
            let (next, step) = offline_next(phase, has_record, reply);
            &&& step != StepShape::Rejected ==> offline_replies_left(next) < offline_replies_left(
                phase,
            )
            &&& step is Call <==> step != StepShape::Rejected && offline_replies_left(next) > 0
            &&& offline_replies_left(phase) <= 6
        }),
{
}

/// Whether a record is kept only where it belongs: between the moment it is
/// decoded and the moment it is handed out.
pub open spec fn offline_is_tidy(phase: OfflinePhase, has_record: bool) -> bool {
    has_record ==> phase == OfflinePhase::FreeingResult || phase == OfflinePhase::ClosingStream
}

/// No record outlives its transcription: tidiness is kept by every step,
/// and a transcription finishes with a record exactly when one was fetched.
pub proof fn lemma_offline_stays_tidy(
    before: OfflineRecognizerView,
    reply: Reply<RawOfflineResult, OfflineRecognizerResult>,
)
    requires
        offline_is_tidy(before.phase, before.record is Some),
    ensures
        offline_is_tidy(
            offline_next(before.phase, before.record is Some, reply.shape()).0,
            offline_record_after(before, reply) is Some,
        ),
{
}

/// A transcription whose native calls all succeed makes exactly these
/// calls, in this order: a fresh stream is created, given the whole
/// waveform and decoded; the result is fetched and freed; the stream is
/// freed; and the record that is handed out is the one that was fetched.
/// Afterwards the recognizer is as it was before: nothing is carried over to
/// the next transcription.
pub proof fn lemma_offline_transcription(
    sample_rate: i32,
    num_samples: i32,
    raw: RawOfflineResult,
    config: OfflineRecognizerConfigView,
)
    requires
        num_samples >= 0,
    ensures
        ({
            let done = ReplyShape::Done;
            let (opening, create) = offline_begin(
                OfflinePhase::Idle,
                sample_rate,
                num_samples as int,
            );
            let (feeding, accept) = offline_next(
                opening,
                false,
                ReplyShape::Handle { present: true },
            );
            let (decoding, decode) = offline_next(feeding, false, done);
            let (fetching, fetch) = offline_next(decoding, false, done);
            let (freeing, free_result) = offline_next(
                fetching,
                false,
                ReplyShape::Fetched { present: true },
            );
            let record = offline_record_after(
                OfflineRecognizerView { config, phase: fetching, record: None },
                Reply::Fetched(Some(raw)),
            );
            let (closing, free_stream) = offline_next(freeing, record is Some, done);
            let (idle, finish) = offline_next(closing, record is Some, done);
            &&& create == StepShape::Call(NativeCall::CreateStream)
            &&& accept == StepShape::Call(NativeCall::AcceptWaveform { sample_rate, num_samples })
            &&& decode == StepShape::Call(NativeCall::Decode)
            &&& fetch == StepShape::Call(NativeCall::GetResult)
            &&& free_result == StepShape::Call(NativeCall::DestroyResult)
            &&& free_stream == StepShape::Call(NativeCall::DestroyStream)
            &&& finish == StepShape::Finished
            &&& record == Some(decode_offline_result(raw))
            &&& idle == OfflinePhase::Idle
            &&& offline_record_after(
                OfflineRecognizerView { config, phase: closing, record },
                Reply::Done,
            ) is None
        }),
{
}

/// A construction error is fatal. It is reported only when the factory call
/// is answered without a handle; the recognizer is then failed, holds
/// nothing, and stays failed: it begins no transcription and rejects every
/// reply.
pub proof fn lemma_offline_construction_error_is_fatal(
    phase: OfflinePhase,
    has_record: bool,
    reply: ReplyShape,
    sample_rate: i32,
    num_samples: int,
)
    ensures
        ({
            let (next, step) = offline_next(phase, has_record, reply);
            step matches StepShape::Failed(error) && error.is_construction() ==> {
                &&& phase == OfflinePhase::Creating
                &&& reply == ReplyShape::Handle { present: false }
                &&& next == OfflinePhase::Failed
            }
        }),
        OfflinePhase::Failed.held() =~= Seq::<Resource>::empty(),
        offline_next(OfflinePhase::Failed, has_record, reply) == (
            OfflinePhase::Failed,
            StepShape::Rejected,
        ),
        offline_begin(OfflinePhase::Failed, sample_rate, num_samples) == (
            OfflinePhase::Failed,
            StepShape::Failed(Error::NotLive),
        ),
{
}

/// Destroying frees each live resource once, the stream before the
/// recognizer, with calls that are permitted; and destroying again frees
/// nothing, whatever the recognizer was doing when it was first destroyed.
pub proof fn lemma_offline_destroy_frees_once(phase: OfflinePhase)
    ensures
        ledger(phase.held(), issues(teardown(phase.held()))) == Some(OfflinePhase::Destroyed.held()),
        teardown(OfflinePhase::Destroyed.held()) == Seq::<NativeCall>::empty(),
        teardown(phase.held()).no_duplicates(),
{
    lemma_nested_has_no_duplicates(phase.held());
    lemma_teardown_frees_everything(phase.held());
    lemma_offline_teardown(phase);
    assert(OfflinePhase::Destroyed.held() =~= Seq::<Resource>::empty());
}

/// Whether a record is kept once a reply of this shape has been taken.
pub open spec fn offline_keeps_record(
    phase: OfflinePhase,
    has_record: bool,
    reply: ReplyShape,
) -> bool {
    match (phase, reply) {
        (OfflinePhase::Fetching, ReplyShape::Fetched { present }) => present,
        (OfflinePhase::ClosingStream, ReplyShape::Done) => false,
        _ => has_record,
    }
}

/// What one event does to an offline recognizer: the next phase, whether a
/// record is kept, and what the event adds to the history of its native
/// resources. A reply that is rejected changes nothing.
pub open spec fn offline_react(phase: OfflinePhase, has_record: bool, event: Event) -> (
    OfflinePhase,
    bool,
    Seq<Action>,
) {
    match event {
        Event::Begin { sample_rate, num_samples } => {
            let (next, step) = offline_begin(phase, sample_rate, num_samples as int);
            (next, has_record, issued(step))
        },
        Event::Reply(reply) => {
            let (next, step) = offline_next(phase, has_record, reply);
            if step == StepShape::Rejected {
                (phase, has_record, seq![])
            } else {
                (
                    next,
                    offline_keeps_record(phase, has_record, reply),
                    granted(phase.pending(), reply) + issued(step),
                )
            }
        },
        Event::Destroy => (OfflinePhase::Destroyed, false, issues(teardown(phase.held()))),
    }
}

/// What a whole script does to an offline recognizer, event by event.
pub open spec fn offline_run(phase: OfflinePhase, has_record: bool, script: Seq<Event>) -> (
    OfflinePhase,
    bool,
    Seq<Action>,
)
    decreases script.len(),
{
    if script.len() == 0 {
        (phase, has_record, seq![])
    } else {
        let (next, kept, history) = offline_react(phase, has_record, script[0]);
        let (last, record, rest) = offline_run(next, kept, script.drop_first());
        (last, record, history + rest)
    }
}

/// The functions that change an offline recognizer do to its phase and to
/// its record what `offline_react` says.
pub proof fn lemma_offline_react_is_what_happens(
    before: OfflineRecognizerView,
    reply: Reply<RawOfflineResult, OfflineRecognizerResult>,
)
    ensures
        offline_next(before.phase, before.record is Some, reply.shape()).1 != StepShape::Rejected
            ==> offline_react(before.phase, before.record is Some, Event::Reply(reply.shape()))
            == (
            offline_next(before.phase, before.record is Some, reply.shape()).0,
            offline_record_after(before, reply) is Some,
            granted(before.phase.pending(), reply.shape()) + issued(
                offline_next(before.phase, before.record is Some, reply.shape()).1,
            ),
        ),
        offline_next(before.phase, before.record is Some, reply.shape()).1 == StepShape::Rejected
            ==> offline_record_after(before, reply) == before.record,
{
}

/// No event breaks the ownership rules: what an event adds to the history
/// is permitted by what is alive, and leaves alive what `held` says of the
/// next phase.
pub proof fn lemma_offline_event_keeps_ownership(
    phase: OfflinePhase,
    has_record: bool,
    event: Event,
)
    ensures
        ledger(phase.held(), offline_react(phase, has_record, event).2) == Some(
            offline_react(phase, has_record, event).0.held(),
        ),
{
    match event {
        Event::Begin { sample_rate, num_samples } => {
            let step = offline_begin(phase, sample_rate, num_samples as int).1;
            lemma_offline_begin_keeps_ownership(phase, sample_rate, num_samples as int);
            lemma_ledger_of_one_step(phase.held(), None, ReplyShape::Done, step);
            assert(granted(None, ReplyShape::Done) + issued(step) =~= issued(step));
        },
        Event::Reply(reply) => {
            let step = offline_next(phase, has_record, reply).1;
            if step != StepShape::Rejected {
                lemma_offline_step_keeps_ownership(phase, has_record, reply);
                lemma_nested_contains(phase.held());
                lemma_ledger_of_one_step(phase.held(), phase.pending(), reply, step);
            }
        },
        Event::Destroy => {
            lemma_offline_destroy_frees_once(phase);
        },
    }
}

/// Every native resource is freed exactly once. Whatever script is played
/// to an offline recognizer, the history of its native resources keeps the
/// ownership rules from the first event to the last: no call touches what is
/// not alive, nothing is acquired twice, and nothing is freed but the
/// resource acquired last. What is alive at the end is what `held` says of
/// the last phase, so that nothing is alive once the recognizer is
/// destroyed.
pub proof fn lemma_offline_script_keeps_ownership(
    phase: OfflinePhase,
    has_record: bool,
    script: Seq<Event>,
)
    ensures
        ledger(phase.held(), offline_run(phase, has_record, script).2) == Some(
            offline_run(phase, has_record, script).0.held(),
        ),
        script.len() > 0 && script.last() == Event::Destroy ==> ledger(
            phase.held(),
            offline_run(phase, has_record, script).2,
        ) == Some(Seq::<Resource>::empty()),
    decreases script.len(),
{
    if script.len() > 0 {
        let (next, kept, history) = offline_react(phase, has_record, script[0]);
        let rest = script.drop_first();
        lemma_offline_event_keeps_ownership(phase, has_record, script[0]);
        lemma_offline_script_keeps_ownership(next, kept, rest);
        lemma_ledger_of_two_parts(phase.held(), history, offline_run(next, kept, rest).2);
        if script.last() == Event::Destroy {
            if rest.len() > 0 {
                assert(rest.last() == script.last());
            } else {
                assert(offline_run(next, kept, rest).0 == next);
                assert(next.held() =~= Seq::<Resource>::empty());
            }
        }
    }
}

} // verus!
