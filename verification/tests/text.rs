use sbv2_core::tts_util::preprocess_parse_text;
use sbv2_core::utils::{ends_with, same_text, starts_with};

/// What the stand-in analysis keeps of a text.
#[derive(Debug, PartialEq)]
struct Analysis {
    characters: usize,
}

fn num2word(text: &str) -> Result<String, String> {
    if text.is_empty() {
        Err("nothing to read".to_string())
    } else {
        Ok(text.replace('1', "一"))
    }
}

fn normalize(text: &String) -> String {
    text.trim().to_string()
}

fn analyse(text: &String) -> Result<Analysis, String> {
    if text.contains('?') {
        Err(format!("cannot analyse {text}"))
    } else {
        Ok(Analysis { characters: text.chars().count() })
    }
}

#[test]
fn test_jpreprocess_with_various_texts() {
    let test_texts = vec![
        "お電話",
        "お名前",
        "お日にち",
        "お手前",
        "こんにちは",
        "今日は良い天気です",
    ];

    for text in test_texts {
        println!("Testing: {}", text);

        match preprocess_parse_text(text, num2word, normalize, analyse) {
            Ok((normalized_text, process)) => {
                println!("Preprocessing success: {}", normalized_text);
                assert_eq!(normalized_text, text);
                assert_eq!(process.characters, text.chars().count());
            }
            Err(e) => panic!("Preprocessing failed: {}", e),
        }
    }
}

#[test]
fn each_step_gets_what_the_step_before_gave() {
    let out = preprocess_parse_text(" 1番 ", num2word, normalize, analyse);
    assert_eq!(out, Ok(("一番".to_string(), Analysis { characters: 2 })));
}

#[test]
fn a_failed_first_step_ends_the_work() {
    let mut normalised = false;
    let mut analysed = false;
    let out = preprocess_parse_text(
        "",
        num2word,
        |t: &String| {
            normalised = true;
            t.clone()
        },
        |_t: &String| {
            analysed = true;
            Ok::<Analysis, String>(Analysis { characters: 0 })
        },
    );
    assert_eq!(out, Err("nothing to read".to_string()));
    assert!(!normalised && !analysed);
}

#[test]
fn a_failed_analysis_is_the_failure_of_the_whole() {
    let out = preprocess_parse_text(" 何? ", num2word, normalize, analyse);
    assert_eq!(out, Err("cannot analyse 何?".to_string()));
}

#[test]
fn text_helpers() {
    assert!(same_text("コン", "コン"));
    assert!(!same_text("コン", "コ"));
    assert!(!same_text("コン", "コソ"));
    assert!(same_text("", ""));
    assert!(starts_with("model_a", "model_"));
    assert!(starts_with("model_", "model_"));
    assert!(!starts_with("model", "model_"));
    assert!(starts_with("anything", ""));
    assert!(ends_with("声.sbv2", ".sbv2"));
    assert!(!ends_with("sbv2", ".sbv2"));
    assert!(!ends_with("a.sbv2x", ".sbv2"));
}
