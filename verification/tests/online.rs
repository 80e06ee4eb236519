use sherpa_rs::config::{Float32, Platform};
use sherpa_rs::protocol::{Error, NativeCall, Reply, Resource, Step, TextOption};
use sherpa_rs::transcribe::online::{
    OnlinePhase, OnlineRecognizer, OnlineRecognizerResult, RawOnlineResult,
};
use sherpa_rs::transcribe::Transcribe;

type OnlineReply = Reply<RawOnlineResult, OnlineRecognizerResult>;

const CPU: Platform = Platform { cuda: false, macos: false, directml: false };

fn zipformer() -> OnlineRecognizer {
    OnlineRecognizer::with_zipformer(
        "decoder.onnx".to_string(),
        "encoder.onnx".to_string(),
        "joiner.onnx".to_string(),
        "tokens.txt".to_string(),
        false,
        1,
        None,
        None,
        None,
        None,
        CPU,
    )
    .unwrap()
}

fn ready() -> OnlineRecognizer {
    let mut recognizer = zipformer();
    assert_eq!(recognizer.pending(), Some(NativeCall::CreateRecognizer));
    assert_eq!(
        recognizer.resume(OnlineReply::Handle { present: true }),
        Step::Call(NativeCall::CreateStream)
    );
    assert_eq!(recognizer.resume(OnlineReply::Handle { present: true }), Step::Live);
    recognizer
}

fn json(text: &str) -> OnlineReply {
    let mut bytes = text.as_bytes().to_vec();
    bytes.push(0);
    OnlineReply::Fetched(Some(RawOnlineResult { json: Some(bytes) }))
}

fn number(value: f32) -> Float32 {
    Float32 { bits: value.to_bits() }
}

fn record(text: &str, segment: f32, is_final: bool) -> OnlineRecognizerResult {
    OnlineRecognizerResult {
        text: text.to_string(),
        tokens: vec![text.to_string()],
        timestamps: vec![number(0.32)],
        segment: number(segment),
        start_time: number(0.0),
        is_final,
    }
}

/// Feeds `num_samples` samples and answers `decodes` times that the stream
/// is ready. Leaves the recognizer waiting for the fetched result.
fn feed(recognizer: &mut OnlineRecognizer, num_samples: usize, decodes: usize) {
    assert_eq!(
        recognizer.transcribe(16000, num_samples),
        Step::Call(NativeCall::AcceptWaveform { sample_rate: 16000, num_samples: num_samples as i32 })
    );
    assert_eq!(recognizer.resume(OnlineReply::Done), Step::Call(NativeCall::IsReady));
    for _ in 0..decodes {
        assert_eq!(recognizer.resume(OnlineReply::Flag(1)), Step::Call(NativeCall::Decode));
        assert_eq!(recognizer.resume(OnlineReply::Done), Step::Call(NativeCall::IsReady));
    }
    assert_eq!(recognizer.resume(OnlineReply::Flag(0)), Step::Call(NativeCall::GetResult));
}

#[test]
fn zipformer_config_holds_the_fixed_settings() {
    let recognizer = zipformer();
    let config = recognizer.config();
    assert_eq!(config.feat_config.sample_rate, 16000);
    assert_eq!(config.feat_config.feature_dim, 80);
    assert_eq!(config.max_active_paths, 4);
    assert_eq!(config.enable_endpoint, 1);
    assert_eq!(f32::from_bits(config.rule1_min_trailing_silence.bits), 2.4);
    assert_eq!(f32::from_bits(config.rule2_min_trailing_silence.bits), 1.2);
    assert_eq!(f32::from_bits(config.rule3_min_utterance_length.bits), 300.0);
    assert_eq!(config.decoding_method.as_bytes_with_nul(), b"greedy_search\0");
    assert_eq!(config.hotwords_file, None);
    assert_eq!(config.hotwords_score, None);
    let model_config = &config.model_config;
    assert_eq!(model_config.transducer.decoder.as_bytes_with_nul(), b"decoder.onnx\0");
    assert_eq!(model_config.transducer.encoder.as_bytes_with_nul(), b"encoder.onnx\0");
    assert_eq!(model_config.transducer.joiner.as_bytes_with_nul(), b"joiner.onnx\0");
    assert_eq!(model_config.tokens.as_bytes_with_nul(), b"tokens.txt\0");
    assert_eq!(model_config.provider.as_bytes_with_nul(), b"cpu\0");
    assert_eq!(model_config.num_threads, 1);
    assert_eq!(model_config.debug, 0);
    assert_eq!(recognizer.phase(), OnlinePhase::Creating);
}

#[test]
fn zipformer_config_takes_the_options_that_are_given() {
    let recognizer = OnlineRecognizer::with_zipformer(
        "d".to_string(),
        "e".to_string(),
        "j".to_string(),
        "t".to_string(),
        true,
        u32::MAX,
        Some("modified_beam_search".to_string()),
        Some("coreml".to_string()),
        Some("hotwords.txt".to_string()),
        Some(number(1.5)),
        Platform { cuda: true, macos: false, directml: false },
    )
    .unwrap();
    let config = recognizer.config();
    assert_eq!(config.decoding_method.as_bytes_with_nul(), b"modified_beam_search\0");
    assert_eq!(config.model_config.provider.as_bytes_with_nul(), b"coreml\0");
    assert_eq!(config.model_config.debug, 1);
    assert_eq!(config.model_config.num_threads, -1);
    assert_eq!(config.hotwords_file.as_ref().unwrap().as_bytes_with_nul(), b"hotwords.txt\0");
    assert_eq!(config.hotwords_score.map(|score| f32::from_bits(score.bits)), Some(1.5));
}

#[test]
fn a_hotwords_score_is_handed_on_bit_for_bit() {
    for bits in [0u32, 0x8000_0000, 0x7fc0_0001, 0xff80_0000, 0x0000_0001] {
        let recognizer = OnlineRecognizer::with_zipformer(
            "d".to_string(),
            "e".to_string(),
            "j".to_string(),
            "t".to_string(),
            false,
            1,
            None,
            None,
            None,
            Some(Float32 { bits }),
            CPU,
        )
        .unwrap();
        assert_eq!(recognizer.config().hotwords_score, Some(Float32 { bits }));
    }
}

#[test]
fn zipformer_reports_the_first_option_with_an_embedded_nul() {
    let build = |texts: [&str; 4], method: Option<&str>, provider: Option<&str>, hotwords: Option<&str>| {
        OnlineRecognizer::with_zipformer(
            texts[0].to_string(),
            texts[1].to_string(),
            texts[2].to_string(),
            texts[3].to_string(),
            false,
            1,
            method.map(str::to_string),
            provider.map(str::to_string),
            hotwords.map(str::to_string),
            None,
            CPU,
        )
        .map(|_| ())
    };
    let nul = |option, position| Err(Error::EmbeddedNul { option, position });
    assert_eq!(build(["d", "e", "j", "t"], None, None, None), Ok(()));
    assert_eq!(build(["\0", "\0", "\0", "\0"], Some("\0"), Some("\0"), Some("\0")), nul(TextOption::Decoder, 0));
    assert_eq!(build(["d", "e\0", "\0", "\0"], Some("\0"), Some("\0"), Some("\0")), nul(TextOption::Encoder, 1));
    assert_eq!(build(["d", "e", "jo\0", "\0"], Some("\0"), Some("\0"), Some("\0")), nul(TextOption::Joiner, 2));
    assert_eq!(build(["d", "e", "j", "tok\0"], Some("\0"), Some("\0"), Some("\0")), nul(TextOption::Tokens, 3));
    // The provider is converted before the decoding method.
    assert_eq!(build(["d", "e", "j", "t"], Some("\0"), Some("cpu\0"), Some("\0")), nul(TextOption::Provider, 3));
    assert_eq!(build(["d", "e", "j", "t"], Some("g\0"), None, Some("\0")), nul(TextOption::DecodingMethod, 1));
    assert_eq!(build(["d", "e", "j", "t"], None, None, Some("hot\0words")), nul(TextOption::HotwordsFile, 3));
}

#[test]
fn the_default_provider_follows_the_platform() {
    let provider = |cuda, macos, directml| {
        let recognizer = OnlineRecognizer::with_zipformer(
            "d".to_string(),
            "e".to_string(),
            "j".to_string(),
            "t".to_string(),
            false,
            1,
            None,
            None,
            None,
            None,
            Platform { cuda, macos, directml },
        )
        .unwrap();
        recognizer.config().model_config.provider.as_bytes_with_nul().to_vec()
    };
    assert_eq!(provider(false, false, false), b"cpu\0");
    assert_eq!(provider(false, false, true), b"directml\0");
    assert_eq!(provider(false, true, false), b"coreml\0");
    assert_eq!(provider(false, true, true), b"coreml\0");
    assert_eq!(provider(true, false, false), b"cuda\0");
    assert_eq!(provider(true, true, true), b"cuda\0");
}

#[test]
fn a_null_online_recognizer_is_a_construction_error() {
    let mut recognizer = zipformer();
    assert_eq!(
        recognizer.resume(OnlineReply::Handle { present: false }),
        Step::Failed(Error::CreationFailed(Resource::Recognizer))
    );
    assert_eq!(recognizer.phase(), OnlinePhase::Failed);
    assert_eq!(recognizer.transcribe(16000, 1), Step::Failed(Error::NotLive));
    assert_eq!(recognizer.destroy(), vec![]);
}

#[test]
fn a_null_stream_frees_the_recognizer_before_it_fails() {
    let mut recognizer = zipformer();
    recognizer.resume(OnlineReply::Handle { present: true });
    assert_eq!(
        recognizer.resume(OnlineReply::Handle { present: false }),
        Step::Call(NativeCall::DestroyRecognizer)
    );
    assert_eq!(
        recognizer.resume(OnlineReply::Done),
        Step::Failed(Error::CreationFailed(Resource::Stream))
    );
    assert_eq!(recognizer.phase(), OnlinePhase::Failed);
    assert_eq!(recognizer.transcribe(16000, 1), Step::Failed(Error::NotLive));
    // The recognizer was freed on the way; nothing is left.
    assert_eq!(recognizer.destroy(), vec![]);
}

#[test]
fn online_transcription_decodes_while_the_stream_is_ready() {
    for decodes in [0usize, 1, 7] {
        let mut recognizer = ready();
        feed(&mut recognizer, 3200, decodes);
        assert_eq!(recognizer.phase(), OnlinePhase::Fetching);
    }
}

#[test]
fn any_positive_answer_means_ready() {
    let mut recognizer = ready();
    recognizer.transcribe(16000, 1);
    recognizer.resume(OnlineReply::Done);
    assert_eq!(recognizer.resume(OnlineReply::Flag(i32::MAX)), Step::Call(NativeCall::Decode));
    recognizer.resume(OnlineReply::Done);
    assert_eq!(recognizer.resume(OnlineReply::Flag(-1)), Step::Call(NativeCall::GetResult));
}

#[test]
fn online_transcription_without_an_endpoint_keeps_the_stream_as_it_is() {
    let mut recognizer = ready();
    feed(&mut recognizer, 1600, 2);
    let text = r#"{"text":"hel","tokens":["hel"],"timestamps":[0.32],"segment":0,"start_time":0,"is_final":false}"#;
    assert_eq!(recognizer.resume(json(text)), Step::Parse(text.to_string()));
    assert_eq!(recognizer.phase(), OnlinePhase::Parsing);
    assert_eq!(
        recognizer.resume(OnlineReply::Parsed(Some(record("hel", 0.0, false)))),
        Step::Call(NativeCall::DestroyResult)
    );
    assert_eq!(recognizer.resume(OnlineReply::Done), Step::Call(NativeCall::IsEndpoint));
    assert_eq!(recognizer.resume(OnlineReply::Flag(0)), Step::Finished(record("hel", 0.0, false)));
    assert_eq!(recognizer.phase(), OnlinePhase::Ready);
}

#[test]
fn an_endpoint_resets_the_stream_before_the_record_is_handed_out() {
    let mut recognizer = ready();
    // Speech, then silence beyond the threshold: the engine reports an endpoint.
    feed(&mut recognizer, 16000, 3);
    recognizer.resume(json("{}"));
    recognizer.resume(OnlineReply::Parsed(Some(record("hello", 0.0, true))));
    assert_eq!(recognizer.resume(OnlineReply::Done), Step::Call(NativeCall::IsEndpoint));
    assert_eq!(recognizer.resume(OnlineReply::Flag(1)), Step::Call(NativeCall::Reset));
    assert_eq!(recognizer.phase(), OnlinePhase::Resetting);
    assert_eq!(recognizer.resume(OnlineReply::Done), Step::Finished(record("hello", 0.0, true)));
    assert_eq!(recognizer.phase(), OnlinePhase::Ready);

    // The next call starts a fresh utterance on the same stream: no stream
    // is created or freed, and the engine counts a new segment.
    feed(&mut recognizer, 16000, 1);
    recognizer.resume(json("{}"));
    recognizer.resume(OnlineReply::Parsed(Some(record("world", 1.0, false))));
    assert_eq!(recognizer.resume(OnlineReply::Done), Step::Call(NativeCall::IsEndpoint));
    assert_eq!(recognizer.resume(OnlineReply::Flag(0)), Step::Finished(record("world", 1.0, false)));
    assert_eq!(recognizer.destroy(), vec![NativeCall::DestroyStream, NativeCall::DestroyRecognizer]);
}

#[test]
fn malformed_json_frees_the_result_and_skips_the_endpoint_check() {
    let mut recognizer = ready();
    feed(&mut recognizer, 100, 0);
    assert_eq!(recognizer.resume(json("{\"text\": 3}")), Step::Parse("{\"text\": 3}".to_string()));
    assert_eq!(recognizer.resume(OnlineReply::Parsed(None)), Step::Call(NativeCall::DestroyResult));
    assert_eq!(recognizer.resume(OnlineReply::Done), Step::Failed(Error::MalformedOutput));
    assert_eq!(recognizer.phase(), OnlinePhase::Ready);
    // The stream goes on.
    assert_eq!(
        recognizer.transcribe(16000, 100),
        Step::Call(NativeCall::AcceptWaveform { sample_rate: 16000, num_samples: 100 })
    );
}

#[test]
fn result_text_that_is_not_utf8_is_parsed_as_the_empty_text() {
    let mut recognizer = ready();
    feed(&mut recognizer, 100, 0);
    let broken = OnlineReply::Fetched(Some(RawOnlineResult { json: Some(vec![b'{', 0xc3, b'}', 0]) }));
    assert_eq!(recognizer.resume(broken), Step::Parse(String::new()));

    let mut recognizer = ready();
    feed(&mut recognizer, 100, 0);
    let missing = OnlineReply::Fetched(Some(RawOnlineResult { json: None }));
    assert_eq!(recognizer.resume(missing), Step::Parse(String::new()));
}

#[test]
fn a_null_online_result_ends_the_transcription() {
    let mut recognizer = ready();
    feed(&mut recognizer, 100, 1);
    assert_eq!(
        recognizer.resume(OnlineReply::Fetched(None)),
        Step::Failed(Error::NativeCallFailed(NativeCall::GetResult))
    );
    assert_eq!(recognizer.phase(), OnlinePhase::Ready);
}

#[test]
fn online_replies_that_answer_nothing_are_rejected() {
    let mut recognizer = ready();
    assert_eq!(recognizer.resume(OnlineReply::Done), Step::Rejected);
    assert_eq!(recognizer.resume(OnlineReply::Flag(1)), Step::Rejected);
    feed(&mut recognizer, 100, 0);
    assert_eq!(recognizer.resume(OnlineReply::Done), Step::Rejected);
    assert_eq!(recognizer.resume(OnlineReply::Parsed(None)), Step::Rejected);
    assert_eq!(recognizer.phase(), OnlinePhase::Fetching);
    recognizer.resume(json("{}"));
    assert_eq!(recognizer.resume(OnlineReply::Done), Step::Rejected);
    assert_eq!(recognizer.resume(OnlineReply::Flag(0)), Step::Rejected);
    assert_eq!(recognizer.phase(), OnlinePhase::Parsing);
}

#[test]
fn online_transcribe_refuses_what_it_cannot_take() {
    let mut recognizer = ready();
    let most = i32::MAX as usize;
    assert_eq!(recognizer.transcribe(16000, most + 1), Step::Failed(Error::WaveformTooLong));
    assert_eq!(recognizer.phase(), OnlinePhase::Ready);
    assert_eq!(
        recognizer.transcribe(16000, most),
        Step::Call(NativeCall::AcceptWaveform { sample_rate: 16000, num_samples: i32::MAX })
    );
    assert_eq!(recognizer.transcribe(16000, 1), Step::Failed(Error::Busy));

    let mut creating = zipformer();
    assert_eq!(creating.transcribe(16000, 1), Step::Failed(Error::NotLive));
    creating.resume(OnlineReply::Handle { present: true });
    assert_eq!(creating.transcribe(16000, 1), Step::Failed(Error::NotLive));
}

#[test]
fn online_destroy_frees_the_stream_before_the_recognizer() {
    let mut creating = zipformer();
    assert_eq!(creating.destroy(), vec![]);

    let mut half = zipformer();
    half.resume(OnlineReply::Handle { present: true });
    assert_eq!(half.destroy(), vec![NativeCall::DestroyRecognizer]);

    let mut live = ready();
    assert_eq!(live.destroy(), vec![NativeCall::DestroyStream, NativeCall::DestroyRecognizer]);
    assert_eq!(live.phase(), OnlinePhase::Destroyed);

    let mut parsing = ready();
    feed(&mut parsing, 10, 0);
    parsing.resume(json("{}"));
    assert_eq!(
        parsing.destroy(),
        vec![NativeCall::DestroyResult, NativeCall::DestroyStream, NativeCall::DestroyRecognizer]
    );

    let mut freeing = ready();
    feed(&mut freeing, 10, 0);
    freeing.resume(json("{}"));
    freeing.resume(OnlineReply::Parsed(Some(record("x", 0.0, false))));
    assert_eq!(freeing.destroy(), vec![NativeCall::DestroyStream, NativeCall::DestroyRecognizer]);
}

#[test]
fn online_destroy_twice_frees_nothing_twice() {
    let mut recognizer = ready();
    feed(&mut recognizer, 10, 2);
    assert_eq!(recognizer.destroy(), vec![NativeCall::DestroyStream, NativeCall::DestroyRecognizer]);
    assert_eq!(recognizer.destroy(), vec![]);
    assert_eq!(recognizer.phase(), OnlinePhase::Destroyed);
    assert_eq!(recognizer.transcribe(16000, 1), Step::Failed(Error::NotLive));
    assert_eq!(recognizer.resume(OnlineReply::Done), Step::Rejected);
}

/// Reads the record out of the result text: an object with exactly the six
/// fields of the record, each of its own type.
fn parse(text: &str) -> Option<OnlineRecognizerResult> {
    let value: serde_json::Value = serde_json::from_str(text).ok()?;
    let fields = value.as_object()?;
    if fields.len() != 6 {
        return None;
    }
    let single = |value: &serde_json::Value| value.as_f64().map(|x| number(x as f32));
    let mut tokens = Vec::new();
    for token in fields.get("tokens")?.as_array()? {
        tokens.push(token.as_str()?.to_string());
    }
    let mut timestamps = Vec::new();
    for timestamp in fields.get("timestamps")?.as_array()? {
        timestamps.push(single(timestamp)?);
    }
    Some(OnlineRecognizerResult {
        text: fields.get("text")?.as_str()?.to_string(),
        tokens,
        timestamps,
        segment: single(fields.get("segment")?)?,
        start_time: single(fields.get("start_time")?)?,
        is_final: fields.get("is_final")?.as_bool()?,
    })
}

/// The name of a step, without what it carries.
fn label(step: &Step<OnlineRecognizerResult>) -> String {
    match step {
        Step::Call(NativeCall::AcceptWaveform { .. }) => "AcceptWaveform".to_string(),
        Step::Call(call) => format!("{:?}", call),
        Step::Parse(_) => "Parse".to_string(),
        Step::Live => "Live".to_string(),
        Step::Finished(_) => "Finished".to_string(),
        Step::Failed(error) => format!("Failed({:?})", error),
        Step::Rejected => "Rejected".to_string(),
    }
}

/// Plays one whole transcription, answering the parse step by parsing, and
/// gives the names of the steps that were taken.
fn transcribe_json(recognizer: &mut OnlineRecognizer, json_text: &str, endpoint: i32) -> Vec<String> {
    let mut trace = Vec::new();
    let mut step = recognizer.transcribe(16000, 160);
    loop {
        trace.push(label(&step));
        let reply = match step {
            Step::Call(NativeCall::AcceptWaveform { .. }) => OnlineReply::Done,
            Step::Call(NativeCall::IsReady) => OnlineReply::Flag(0),
            Step::Call(NativeCall::GetResult) => json(json_text),
            Step::Parse(text) => {
                assert_eq!(text, json_text);
                OnlineReply::Parsed(parse(&text))
            }
            Step::Call(NativeCall::DestroyResult) => OnlineReply::Done,
            Step::Call(NativeCall::IsEndpoint) => OnlineReply::Flag(endpoint),
            Step::Call(NativeCall::Reset) => OnlineReply::Done,
            Step::Finished(_) | Step::Failed(_) => return trace,
            other => panic!("unexpected step {:?}", other),
        };
        step = recognizer.resume(reply);
    }
}

#[test]
fn the_result_text_of_the_engine_is_parsed_into_the_record() {
    let mut recognizer = ready();
    feed(&mut recognizer, 160, 0);
    let text = r#"{"text": "今天 weather", "tokens": ["今", "天", " weather"], "timestamps": [0.00, 0.16, 0.48], "segment": 2, "start_time": 1.5, "is_final": true}"#;
    let step = recognizer.resume(json(text));
    let parsed = match step {
        Step::Parse(asked) => {
            assert_eq!(asked, text);
            parse(&asked)
        }
        other => panic!("not a parse step: {:?}", other),
    };
    recognizer.resume(OnlineReply::Parsed(parsed));
    recognizer.resume(OnlineReply::Done);
    match recognizer.resume(OnlineReply::Flag(0)) {
        Step::Finished(record) => {
            assert_eq!(record.text, "今天 weather");
            assert_eq!(record.tokens, vec!["今", "天", " weather"]);
            let timestamps: Vec<f32> = record.timestamps.iter().map(|t| f32::from_bits(t.bits)).collect();
            assert_eq!(timestamps, vec![0.0, 0.16, 0.48]);
            assert_eq!(f32::from_bits(record.segment.bits), 2.0);
            assert_eq!(f32::from_bits(record.start_time.bits), 1.5);
            assert!(record.is_final);
        }
        other => panic!("not finished: {:?}", other),
    }
}

#[test]
fn result_text_of_another_shape_is_a_failure_and_nothing_leaks() {
    for broken in [
        "",
        "{",
        "[]",
        r#"{"text": "no other field"}"#,
        r#"{"text": 1, "tokens": [], "timestamps": [], "segment": 0, "start_time": 0, "is_final": false}"#,
        r#"{"text": "", "tokens": [1], "timestamps": [], "segment": 0, "start_time": 0, "is_final": false}"#,
        r#"{"text": "", "tokens": [], "timestamps": [], "segment": 0, "start_time": 0, "is_final": "no"}"#,
        r#"{"text": "", "tokens": [], "timestamps": [], "segment": 0, "start_time": 0, "is_final": true, "lang": "en"}"#,
        r#"["", [], [], 0, 0, true]"#,
    ] {
        let mut recognizer = ready();
        assert_eq!(
            transcribe_json(&mut recognizer, broken, 1),
            ["AcceptWaveform", "IsReady", "GetResult", "Parse", "DestroyResult", "Failed(MalformedOutput)"],
            "for {:?}",
            broken
        );
        assert_eq!(recognizer.phase(), OnlinePhase::Ready);
        assert_eq!(recognizer.destroy(), vec![NativeCall::DestroyStream, NativeCall::DestroyRecognizer]);
    }
}

#[test]
fn a_whole_online_transcription_makes_its_calls_in_order() {
    let text = r#"{"text": "hi", "tokens": ["hi"], "timestamps": [0.1], "segment": 0, "start_time": 0, "is_final": false}"#;
    let mut recognizer = ready();
    assert_eq!(
        transcribe_json(&mut recognizer, text, 0),
        ["AcceptWaveform", "IsReady", "GetResult", "Parse", "DestroyResult", "IsEndpoint", "Finished"]
    );
    assert_eq!(
        transcribe_json(&mut recognizer, text, 1),
        ["AcceptWaveform", "IsReady", "GetResult", "Parse", "DestroyResult", "IsEndpoint", "Reset", "Finished"]
    );
}

/// Begins a transcription through the trait that both recognizers share.
fn begin<R>(recognizer: &mut impl Transcribe<R>, num_samples: usize) -> Step<R> {
    recognizer.transcribe(16000, num_samples)
}

#[test]
fn both_recognizers_are_begun_through_the_same_trait() {
    let mut online = ready();
    assert_eq!(
        begin(&mut online, 8),
        Step::Call(NativeCall::AcceptWaveform { sample_rate: 16000, num_samples: 8 })
    );
    // The recognizer has gone on: it waits for the reply to that call.
    assert_eq!(online.phase(), OnlinePhase::Feeding { sample_rate: 16000, num_samples: 8 });
    assert_eq!(online.resume(OnlineReply::Done), Step::Call(NativeCall::IsReady));
    let mut not_live = zipformer();
    assert_eq!(begin(&mut not_live, 8), Step::Failed(Error::NotLive));
    assert_eq!(not_live.phase(), OnlinePhase::Creating);
}

#[test]
fn an_online_transcription_makes_five_calls_and_two_for_each_round() {
    for rounds in [0usize, 1, 4, 25] {
        for endpoint in [0, 1] {
            let mut recognizer = ready();
            let mut calls = 0;
            let mut ready_left = rounds;
            let mut step = recognizer.transcribe(16000, 320);
            loop {
                let reply = match step {
                    Step::Call(NativeCall::IsReady) if ready_left > 0 => {
                        ready_left -= 1;
                        OnlineReply::Flag(1)
                    }
                    Step::Call(NativeCall::IsReady) => OnlineReply::Flag(0),
                    Step::Call(NativeCall::IsEndpoint) => OnlineReply::Flag(endpoint),
                    Step::Call(NativeCall::GetResult) => json("{}"),
                    Step::Call(_) => OnlineReply::Done,
                    Step::Parse(_) => OnlineReply::Parsed(Some(record("x", 0.0, false))),
                    Step::Finished(_) => break,
                    other => panic!("unexpected step {:?}", other),
                };
                if !matches!(reply, OnlineReply::Parsed(_)) {
                    calls += 1;
                }
                step = recognizer.resume(reply);
            }
            assert_eq!(calls, 5 + 2 * rounds + endpoint as usize);
            assert_eq!(recognizer.phase(), OnlinePhase::Ready);
        }
    }
}
