//! The configuration builder: native configuration records as plain values.
//!
//! Each record mirrors the native record of the same role. A text field holds
//! the NUL-terminated buffer that the native field will point to. What a
//! record here does not name is zero on the native side.

use vstd::prelude::*;
use vstd::utf8::*;
use crate::bridge::{nul_position, to_native, NativeString};
use crate::protocol::{Error, TextOption};

verus! {

/// A single-precision number of the native interface, carried by its
/// IEEE-754 bit pattern. Nothing here computes with it: it is handed through
/// unchanged.
#[derive(Clone, Copy, Debug, PartialEq, Eq, Structural)]
pub struct Float32 {
    pub bits: u32,
}

/// The sample rate, in hertz, that every recognition path works at.
pub const SAMPLE_RATE: i32 = 16000;

/// The feature dimension of the streaming models.
pub const FEATURE_DIM: i32 = 80;

/// The number of paths that a beam search keeps.
pub const MAX_ACTIVE_PATHS: i32 = 4;

/// 2.4 seconds, as the bits of a single-precision number: the trailing
/// silence that ends an utterance in which nothing was decoded.
pub const RULE1_MIN_TRAILING_SILENCE: u32 = 0x4019_999A;

/// 1.2 seconds, as the bits of a single-precision number: the trailing
/// silence that ends an utterance in which something was decoded.
pub const RULE2_MIN_TRAILING_SILENCE: u32 = 0x3F99_999A;

/// 300 seconds, as the bits of a single-precision number: the length at
/// which an utterance ends whatever it holds.
pub const RULE3_MIN_UTTERANCE_LENGTH: u32 = 0x4396_0000;

/// What the build was made for, as far as it decides the execution provider.
#[derive(Clone, Copy, Debug, PartialEq, Eq, Structural)]
pub struct Platform {
    /// The engine was built with CUDA.
    pub cuda: bool,
    /// The target is macOS.
    pub macos: bool,
    /// The engine was built with DirectML.
    pub directml: bool,
}

/// The name of the best execution provider on `platform`.
pub open spec fn default_provider(platform: Platform) -> Seq<char> {
    if platform.cuda {
        "cuda"@
    } else if platform.macos {
        "coreml"@
    } else if platform.directml {
        "directml"@
    } else {
        "cpu"@
    }
}

/// The execution provider to use where the caller names none: a function of
/// the platform alone.
pub fn get_default_provider(platform: Platform) -> (name: &'static str)
    ensures
        name@ == default_provider(platform),
        !name@.contains('\0'),
{
    proof {
        lemma_literals_hold_no_nul();
    }
    if platform.cuda {
        "cuda"
    } else if platform.macos {
        "coreml"
    } else if platform.directml {
        "directml"
    } else {
        "cpu"
    }
}

/// None of the texts that the builders supply themselves holds U+0000.
pub proof fn lemma_literals_hold_no_nul()
    ensures
        !"cuda"@.contains('\0'),
        !"coreml"@.contains('\0'),
        !"directml"@.contains('\0'),
        !"cpu"@.contains('\0'),
        !"transcribe"@.contains('\0'),
        !"greedy_search"@.contains('\0'),
        !""@.contains('\0'),
        ""@ == Seq::<char>::empty(),
{
    reveal_strlit("cuda");
    reveal_strlit("coreml");
    reveal_strlit("directml");
    reveal_strlit("cpu");
    reveal_strlit("transcribe");
    reveal_strlit("greedy_search");
    reveal_strlit("");
    assert(""@ =~= Seq::<char>::empty());
}

/// The number that `flag` is on the native side.
pub open spec fn native_flag(flag: bool) -> int {
    if flag {
        1
    } else {
        0
    }
}

/// The native thread count for `num_threads`: the same 32 bits read as a
/// signed number.
pub open spec fn native_thread_count(num_threads: u32) -> int {
    if num_threads <= i32::MAX {
        num_threads as int
    } else {
        num_threads - 0x1_0000_0000
    }
}

/// The text of an option that the caller may leave out.
pub open spec fn text_or(option: Option<String>, default: Seq<char>) -> Seq<char> {
    match option {
        Some(text) => text@,
        None => default,
    }
}

/// The error for a text option that holds U+0000.
pub open spec fn embedded_nul(option: TextOption, text: Seq<char>) -> Error {
    Error::EmbeddedNul { option, position: nul_position(encode_utf8(text)) as usize }
}

/// A flag as the native side takes it: one for yes, zero for no.
pub(crate) fn flag_to_native(flag: bool) -> (value: i32)
    ensures
        value == native_flag(flag),
{
    if flag {
        1
    } else {
        0
    }
}

/// A thread count as the native side takes it, bit for bit.
pub(crate) fn thread_count_to_native(num_threads: u32) -> (value: i32)
    ensures
        value == native_thread_count(num_threads),
{
    if num_threads <= 0x7fff_ffff {
        num_threads as i32
    } else {
        let low: u32 = num_threads - 0x8000_0000;
        (low as i32) + i32::MIN
    }
}

/// Converts the text of `option` for the native side.
pub(crate) fn convert_option(option: TextOption, text: &str) -> (result: Result<NativeString, Error>)
    ensures
        match result {
            Ok(buffer) => !text@.contains('\0') && buffer@ == encode_utf8(text@),
            Err(error) => text@.contains('\0') && error == embedded_nul(option, text@),
        },
{
    match to_native(text) {
        Ok(buffer) => Ok(buffer),
        Err(e) => Err(Error::EmbeddedNul { option, position: e.position }),
    }
}

/// The Whisper model of the offline recognizer.
#[derive(Debug, PartialEq, Eq)]
pub struct OfflineWhisperModelConfig {
    pub encoder: NativeString,
    pub decoder: NativeString,
    pub language: NativeString,
    pub task: NativeString,
    pub tail_paddings: i32,
}

pub struct OfflineWhisperModelConfigView {
    pub encoder: Seq<u8>,
    pub decoder: Seq<u8>,
    pub language: Seq<u8>,
    pub task: Seq<u8>,
    pub tail_paddings: int,
}

impl View for OfflineWhisperModelConfig {
    type V = OfflineWhisperModelConfigView;

    open spec fn view(&self) -> OfflineWhisperModelConfigView {
        OfflineWhisperModelConfigView {
            encoder: self.encoder@,
            decoder: self.decoder@,
            language: self.language@,
            task: self.task@,
            tail_paddings: self.tail_paddings as int,
        }
    }
}

/// The SenseVoice model of the offline recognizer.
#[derive(Debug, PartialEq, Eq)]
pub struct OfflineSenseVoiceModelConfig {
    pub model: NativeString,
    pub language: NativeString,
    pub use_itn: i32,
}

pub struct OfflineSenseVoiceModelConfigView {
    pub model: Seq<u8>,
    pub language: Seq<u8>,
    pub use_itn: int,
}

impl View for OfflineSenseVoiceModelConfig {
    type V = OfflineSenseVoiceModelConfigView;

    open spec fn view(&self) -> OfflineSenseVoiceModelConfigView {
        OfflineSenseVoiceModelConfigView {
            model: self.model@,
            language: self.language@,
            use_itn: self.use_itn as int,
        }
    }
}

/// The one model variant that a configuration fills in. The native records
/// of all other variants stay zero.
#[derive(Debug, PartialEq, Eq)]
pub enum OfflineModel {
    Whisper(OfflineWhisperModelConfig),
    SenseVoice(OfflineSenseVoiceModelConfig),
}

pub enum OfflineModelView {
    Whisper(OfflineWhisperModelConfigView),
    SenseVoice(OfflineSenseVoiceModelConfigView),
}

impl View for OfflineModel {
    type V = OfflineModelView;

    open spec fn view(&self) -> OfflineModelView {
        match self {
            OfflineModel::Whisper(whisper) => OfflineModelView::Whisper(whisper@),
            OfflineModel::SenseVoice(sense_voice) => OfflineModelView::SenseVoice(sense_voice@),
        }
    }
}

/// The model part of an offline configuration.
#[derive(Debug, PartialEq, Eq)]
pub struct OfflineModelConfig {
    pub model: OfflineModel,
    pub tokens: NativeString,
    pub num_threads: i32,
    pub debug: i32,
    pub provider: NativeString,
    pub bpe_vocab: NativeString,
}

pub struct OfflineModelConfigView {
    pub model: OfflineModelView,
    pub tokens: Seq<u8>,
    pub num_threads: int,
    pub debug: int,
    pub provider: Seq<u8>,
    pub bpe_vocab: Seq<u8>,
}

impl View for OfflineModelConfig {
    type V = OfflineModelConfigView;

    open spec fn view(&self) -> OfflineModelConfigView {
        OfflineModelConfigView {
            model: self.model@,
            tokens: self.tokens@,
            num_threads: self.num_threads as int,
            debug: self.debug as int,
            provider: self.provider@,
            bpe_vocab: self.bpe_vocab@,
        }
    }
}

/// What the factory of the offline recognizer is given.
#[derive(Debug, PartialEq, Eq)]
pub struct OfflineRecognizerConfig {
    pub model_config: OfflineModelConfig,
    pub decoding_method: NativeString,
}

pub struct OfflineRecognizerConfigView {
    pub model_config: OfflineModelConfigView,
    pub decoding_method: Seq<u8>,
}

impl View for OfflineRecognizerConfig {
    type V = OfflineRecognizerConfigView;

    open spec fn view(&self) -> OfflineRecognizerConfigView {
        OfflineRecognizerConfigView {
            model_config: self.model_config@,
            decoding_method: self.decoding_method@,
        }
    }
}

/// The feature extraction part of a configuration.
#[derive(Clone, Copy, Debug, PartialEq, Eq, Structural)]
pub struct FeatureConfig {
    pub sample_rate: i32,
    pub feature_dim: i32,
}

/// The transducer model of the online recognizer.
#[derive(Debug, PartialEq, Eq)]
pub struct OnlineTransducerModelConfig {
    pub encoder: NativeString,
    pub decoder: NativeString,
    pub joiner: NativeString,
}

pub struct OnlineTransducerModelConfigView {
    pub encoder: Seq<u8>,
    pub decoder: Seq<u8>,
    pub joiner: Seq<u8>,
}

impl View for OnlineTransducerModelConfig {
    type V = OnlineTransducerModelConfigView;

    open spec fn view(&self) -> OnlineTransducerModelConfigView {
        OnlineTransducerModelConfigView {
            encoder: self.encoder@,
            decoder: self.decoder@,
            joiner: self.joiner@,
        }
    }
}

/// The model part of an online configuration.
#[derive(Debug, PartialEq, Eq)]
pub struct OnlineModelConfig {
    pub transducer: OnlineTransducerModelConfig,
    pub tokens: NativeString,
    pub num_threads: i32,
    pub provider: NativeString,
    pub debug: i32,
}

pub struct OnlineModelConfigView {
    pub transducer: OnlineTransducerModelConfigView,
    pub tokens: Seq<u8>,
    pub num_threads: int,
    pub provider: Seq<u8>,
    pub debug: int,
}

impl View for OnlineModelConfig {
    type V = OnlineModelConfigView;

    open spec fn view(&self) -> OnlineModelConfigView {
        OnlineModelConfigView {
            transducer: self.transducer@,
            tokens: self.tokens@,
            num_threads: self.num_threads as int,
            provider: self.provider@,
            debug: self.debug as int,
        }
    }
}

/// What the factory of the online recognizer is given. A hotwords option
/// that is `None` leaves its native field zero.
#[derive(Debug, PartialEq, Eq)]
pub struct OnlineRecognizerConfig {
    pub feat_config: FeatureConfig,
    pub model_config: OnlineModelConfig,
    pub decoding_method: NativeString,
    pub max_active_paths: i32,
    pub enable_endpoint: i32,
    pub rule1_min_trailing_silence: Float32,
    pub rule2_min_trailing_silence: Float32,
    pub rule3_min_utterance_length: Float32,
    pub hotwords_file: Option<NativeString>,
    pub hotwords_score: Option<Float32>,
}

pub struct OnlineRecognizerConfigView {
    pub feat_config: FeatureConfig,
    pub model_config: OnlineModelConfigView,
    pub decoding_method: Seq<u8>,
    pub max_active_paths: int,
    pub enable_endpoint: int,
    pub rule1_min_trailing_silence: Float32,
    pub rule2_min_trailing_silence: Float32,
    pub rule3_min_utterance_length: Float32,
    pub hotwords_file: Option<Seq<u8>>,
    pub hotwords_score: Option<Float32>,
}

impl View for OnlineRecognizerConfig {
    type V = OnlineRecognizerConfigView;

    open spec fn view(&self) -> OnlineRecognizerConfigView {
        OnlineRecognizerConfigView {
            feat_config: self.feat_config,
            model_config: self.model_config@,
            decoding_method: self.decoding_method@,
            max_active_paths: self.max_active_paths as int,
            enable_endpoint: self.enable_endpoint as int,
            rule1_min_trailing_silence: self.rule1_min_trailing_silence,
            rule2_min_trailing_silence: self.rule2_min_trailing_silence,
            rule3_min_utterance_length: self.rule3_min_utterance_length,
            hotwords_file: match self.hotwords_file {
                Some(file) => Some(file@),
                None => None,
            },
            hotwords_score: self.hotwords_score,
        }
    }
}

} // verus!
