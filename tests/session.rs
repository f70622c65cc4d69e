use vibe_tts::batch::{FrameRange, TtsError};
use vibe_tts::config::TtsConfig;
use vibe_tts::session::{Action, Event, Session};

fn config<'a>(styles: &'a [String], texts: &'a [String], n_test: usize) -> TtsConfig<'a> {
    TtsConfig {
        use_gpu: false,
        onnx_dir: "onnx",
        total_step: 5,
        n_test,
        voice_style_paths: styles,
        text_list: texts,
        save_dir: "out",
    }
}

fn strings(v: &[&str]) -> Vec<String> {
    v.iter().map(|s| s.to_string()).collect()
}

fn is_finish(a: &Action, expected: Result<(), TtsError>) -> bool {
    matches!(a, Action::Finish { result } if *result == expected)
}

fn save_of(a: &Action) -> (String, FrameRange) {
    match a {
        Action::Save { file_name, range } => (file_name.clone(), *range),
        other => panic!("expected a save, got {:?}", other),
    }
}

#[test]
fn single_item_scenario() {
    let styles = strings(&["style.json"]);
    let texts = strings(&["Hello world"]);
    let (mut s, a) = Session::start(&config(&styles, &texts, 1));
    assert!(matches!(a, Action::LoadModel));
    assert!(matches!(s.step(Event::Succeeded), Action::LoadStyles));
    assert!(matches!(s.step(Event::Succeeded), Action::CreateOutputDir));
    assert!(matches!(s.step(Event::Succeeded), Action::Synthesize { repetition: 0 }));
    let a = s.step(Event::Synthesized { samples: 16000, voiced_frames: vec![8000] });
    let (name, range) = save_of(&a);
    assert_eq!(name, "Hello world_1.wav");
    assert_eq!(range, FrameRange { start: 0, end: 8000 });
    assert_eq!(range.end - range.start, 8000);
    assert!(is_finish(&s.step(Event::Succeeded), Ok(())));
}

#[test]
fn style_count_mismatch_is_config_error() {
    let styles = strings(&["style.json"]);
    let texts = strings(&["one", "two"]);
    let (mut s, a) = Session::start(&config(&styles, &texts, 1));
    assert!(is_finish(&a, Err(TtsError::Config)));
    assert!(is_finish(&s.step(Event::Succeeded), Err(TtsError::Config)));
}

#[test]
fn empty_batch_is_config_error() {
    let (_, a) = Session::start(&config(&[], &[], 1));
    assert!(is_finish(&a, Err(TtsError::Config)));
}

#[test]
fn model_load_failure_stops_before_styles() {
    let styles = strings(&["style.json"]);
    let texts = strings(&["Hello"]);
    let (mut s, _) = Session::start(&config(&styles, &texts, 1));
    assert!(is_finish(&s.step(Event::Failed), Err(TtsError::Model)));
    assert!(is_finish(&s.step(Event::Succeeded), Err(TtsError::Model)));
}

#[test]
fn style_and_directory_failures() {
    let styles = strings(&["style.json"]);
    let texts = strings(&["Hello"]);
    let (mut s, _) = Session::start(&config(&styles, &texts, 1));
    s.step(Event::Succeeded);
    assert!(is_finish(&s.step(Event::Failed), Err(TtsError::Model)));
    let (mut s, _) = Session::start(&config(&styles, &texts, 1));
    s.step(Event::Succeeded);
    s.step(Event::Succeeded);
    assert!(is_finish(&s.step(Event::Failed), Err(TtsError::Io)));
}

#[test]
fn batch_over_repetitions_names_every_file() {
    let styles = strings(&["F1.json", "M1.json"]);
    let texts = strings(&["First text!", "Second, text"]);
    let (mut s, _) = Session::start(&config(&styles, &texts, 2));
    s.step(Event::Succeeded);
    s.step(Event::Succeeded);
    let mut a = s.step(Event::Succeeded);
    let mut saved = Vec::new();
    for n in 0..2usize {
        assert!(matches!(a, Action::Synthesize { repetition } if repetition == n));
        a = s.step(Event::Synthesized { samples: 200, voiced_frames: vec![30, 500] });
        for _ in 0..2 {
            saved.push(save_of(&a));
            a = s.step(Event::Succeeded);
        }
    }
    assert!(is_finish(&a, Ok(())));
    let names: Vec<String> = saved.iter().map(|(n, _)| n.clone()).collect();
    assert_eq!(
        names,
        strings(&["First text_1.wav", "Second text_1.wav", "First text_2.wav", "Second text_2.wav"])
    );
    assert_eq!(saved[0].1, FrameRange { start: 0, end: 30 });
    assert_eq!(saved[1].1, FrameRange { start: 100, end: 200 });
}

#[test]
fn zero_repetitions_write_nothing() {
    let styles = strings(&["style.json"]);
    let texts = strings(&["Hello"]);
    let (mut s, _) = Session::start(&config(&styles, &texts, 0));
    s.step(Event::Succeeded);
    s.step(Event::Succeeded);
    assert!(is_finish(&s.step(Event::Succeeded), Ok(())));
}

#[test]
fn malformed_model_output_is_model_error() {
    let styles = strings(&["a.json", "b.json"]);
    let texts = strings(&["a", "b"]);
    let (mut s, _) = Session::start(&config(&styles, &texts, 1));
    s.step(Event::Succeeded);
    s.step(Event::Succeeded);
    s.step(Event::Succeeded);
    let a = s.step(Event::Synthesized { samples: 201, voiced_frames: vec![1, 1] });
    assert!(is_finish(&a, Err(TtsError::Model)));
}

#[test]
fn failed_inference_and_failed_write() {
    let styles = strings(&["a.json"]);
    let texts = strings(&["a"]);
    let (mut s, _) = Session::start(&config(&styles, &texts, 1));
    s.step(Event::Succeeded);
    s.step(Event::Succeeded);
    s.step(Event::Succeeded);
    assert!(is_finish(&s.step(Event::Failed), Err(TtsError::Model)));
    let (mut s, _) = Session::start(&config(&styles, &texts, 3));
    s.step(Event::Succeeded);
    s.step(Event::Succeeded);
    s.step(Event::Succeeded);
    s.step(Event::Synthesized { samples: 10, voiced_frames: vec![5] });
    assert!(is_finish(&s.step(Event::Failed), Err(TtsError::Io)));
}
