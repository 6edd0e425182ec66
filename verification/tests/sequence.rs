use sbv2_core::align::{adjust_word2ph, repeat_rows};
use sbv2_core::error::{ErrorKind, TtsError};
use sbv2_core::tts_util::{parse_text, parse_text_blocking, parse_text_with};
use sbv2_core::utils::intersperse;

#[test]
fn intersperse_puts_the_separator_between_neighbours() {
    assert_eq!(intersperse(&[5i64, 6, 7], 0), vec![5, 0, 6, 0, 7]);
    assert_eq!(intersperse(&[9i64], 0), vec![9]);
    assert_eq!(intersperse(&[1u8, 2], 255), vec![1, 255, 2]);
}

#[test]
fn intersperse_of_nothing_is_nothing() {
    let none: [i64; 0] = [];
    assert_eq!(intersperse(&none, 0), Vec::<i64>::new());
}

#[test]
fn interspersed_length_and_positions() {
    for n in 1usize..40 {
        let items: Vec<i64> = (0..n).map(|i| 100 + i as i64).collect();
        let out = intersperse(&items, -1);
        assert_eq!(out.len(), 2 * n - 1);
        for (k, value) in out.iter().enumerate() {
            if k % 2 == 0 {
                assert_eq!(*value, items[k / 2]);
            } else {
                assert_eq!(*value, -1);
            }
        }
    }
}

#[test]
fn counts_are_doubled_and_the_first_raised() {
    assert_eq!(adjust_word2ph(&vec![1, 2, 0, 3], 13), Ok(vec![3, 4, 0, 6]));
    assert_eq!(adjust_word2ph(&vec![0], 1), Ok(vec![1]));
    assert_eq!(adjust_word2ph(&vec![], 0), Ok(vec![]));
}

#[test]
fn counts_that_miss_the_length_are_misaligned() {
    assert_eq!(adjust_word2ph(&vec![1, 2, 0, 3], 12), Err(TtsError::Misaligned));
    assert_eq!(adjust_word2ph(&vec![1, 2, 0, 3], 14), Err(TtsError::Misaligned));
    assert_eq!(adjust_word2ph(&vec![], 1), Err(TtsError::Misaligned));
    assert_eq!(adjust_word2ph(&vec![usize::MAX, 1], 5), Err(TtsError::Misaligned));
    assert_eq!(adjust_word2ph(&vec![usize::MAX / 2], usize::MAX), Ok(vec![usize::MAX]));
}

#[test]
fn rows_are_repeated_in_order() {
    let rows = vec![vec![1.5f32, 2.5], vec![3.0, 4.0], vec![5.0, 6.0]];
    let out = repeat_rows(&rows, &vec![2, 0, 3]);
    assert_eq!(
        out,
        vec![
            vec![1.5, 2.5],
            vec![1.5, 2.5],
            vec![5.0, 6.0],
            vec![5.0, 6.0],
            vec![5.0, 6.0],
        ]
    );
}

#[test]
fn inputs_of_a_short_text() {
    // Two characters of one and two phonemes: adjusted counts 3 and 4.
    let phones = vec![10i64, 11, 12, 13, 14, 15, 16];
    let tones = vec![6i64, 6, 7, 7, 6, 6, 6];
    let lang_ids = vec![1i64; 7];
    let bert = vec![vec![0.25f32, 0.5], vec![-1.0, 2.0]];
    let (rows, p, t, l) = parse_text(&phones, &tones, &lang_ids, &vec![1, 2], &bert).unwrap();
    assert_eq!(
        rows,
        vec![
            vec![0.25, 0.5],
            vec![0.25, 0.5],
            vec![0.25, 0.5],
            vec![-1.0, 2.0],
            vec![-1.0, 2.0],
            vec![-1.0, 2.0],
            vec![-1.0, 2.0],
        ]
    );
    assert_eq!(p, vec![10, 0, 11, 0, 12, 0, 13, 0, 14, 0, 15, 0, 16]);
    assert_eq!(t, vec![6, 0, 6, 0, 7, 0, 7, 0, 6, 0, 6, 0, 6]);
    assert_eq!(l, vec![1, 0, 1, 0, 1, 0, 1, 0, 1, 0, 1, 0, 1]);
    assert_eq!(rows.len(), phones.len());
    assert_eq!(p.len(), 2 * phones.len() - 1);
}

#[test]
fn a_mismatched_fixture_is_an_alignment_failure() {
    let phones = vec![10i64, 11, 12, 13, 14, 15];
    let tones = vec![6i64; 6];
    let lang_ids = vec![1i64; 6];
    let bert = vec![vec![0.25f32], vec![-1.0]];
    // The adjusted counts sum to 7, the sequences hold 6.
    let out = parse_text(&phones, &tones, &lang_ids, &vec![1, 2], &bert);
    assert_eq!(out, Err(TtsError::Misaligned));
    assert_eq!(out.unwrap_err().kind(), ErrorKind::Alignment);
}

#[test]
fn every_length_has_to_agree() {
    let phones = vec![10i64, 11, 12];
    let tones = vec![6i64; 3];
    let lang_ids = vec![1i64; 3];
    let bert = vec![vec![0.5f32]];
    let word2ph = vec![1usize];
    assert!(parse_text(&phones, &tones, &lang_ids, &word2ph, &bert).is_ok());
    let short_tones = vec![6i64; 2];
    assert_eq!(
        parse_text(&phones, &short_tones, &lang_ids, &word2ph, &bert),
        Err(TtsError::Misaligned)
    );
    let long_langs = vec![1i64; 4];
    assert_eq!(
        parse_text(&phones, &tones, &long_langs, &word2ph, &bert),
        Err(TtsError::Misaligned)
    );
    let two_rows = vec![vec![0.5f32], vec![0.5]];
    assert_eq!(
        parse_text(&phones, &tones, &lang_ids, &word2ph, &two_rows),
        Err(TtsError::Misaligned)
    );
    let no_rows: Vec<Vec<f32>> = Vec::new();
    assert_eq!(
        parse_text(&phones, &tones, &lang_ids, &vec![], &no_rows),
        Err(TtsError::Misaligned)
    );
}

#[test]
fn nothing_at_all_does_not_line_up() {
    // Without a first count there is nothing to carry the boundary token.
    let none: Vec<i64> = Vec::new();
    let no_rows: Vec<Vec<f32>> = Vec::new();
    assert_eq!(parse_text(&none, &none, &none, &vec![], &no_rows), Err(TtsError::Misaligned));
}

#[test]
fn the_shortest_text_is_one_boundary_token() {
    let (rows, p, t, l) = parse_text(&[3i64], &[6i64], &[1i64], &vec![0], &vec![vec![9u8]]).unwrap();
    assert_eq!(rows, vec![vec![9]]);
    assert_eq!((p, t, l), (vec![3], vec![6], vec![1]));
}

#[test]
fn given_tones_take_the_place_of_the_tones() {
    let phones = vec![10i64, 11, 12];
    let tones = vec![6i64, 6, 6];
    let lang_ids = vec![1i64; 3];
    let bert = vec![vec![7u8, 8]];
    let word2ph = vec![1usize];
    let (_, _, kept, _) =
        parse_text_blocking(&phones, &tones, None, &lang_ids, &word2ph, &bert).unwrap();
    assert_eq!(kept, vec![6, 0, 6, 0, 6]);
    let (rows, p, given, l) =
        parse_text_blocking(&phones, &tones, Some(vec![6, 7, 6]), &lang_ids, &word2ph, &bert)
            .unwrap();
    assert_eq!(given, vec![6, 0, 7, 0, 6]);
    assert_eq!(p, vec![10, 0, 11, 0, 12]);
    assert_eq!(l, vec![1, 0, 1, 0, 1]);
    assert_eq!(rows, vec![vec![7, 8], vec![7, 8], vec![7, 8]]);
    assert_eq!(
        parse_text_blocking(&phones, &tones, Some(vec![6, 7]), &lang_ids, &word2ph, &bert),
        Err(TtsError::Misaligned)
    );
}

type Tokens = Result<(Vec<i64>, Vec<i64>), String>;

fn one_token_each(kata: &str) -> Tokens {
    let n = kata.chars().count() + 2;
    Ok(((0..n as i64).collect(), vec![1; n]))
}

#[test]
fn the_encoder_runs_on_what_the_tokenizer_gave() {
    let phones = vec![10i64, 11, 12, 13, 14];
    let tones = vec![6i64; 5];
    let lang_ids = vec![1i64; 5];
    let word2ph = vec![1usize, 1, 0];
    let out = parse_text_with(
        "ア",
        &phones,
        &tones,
        Some(vec![7, 7, 7, 7, 7]),
        &lang_ids,
        &word2ph,
        one_token_each,
        |ids: Vec<i64>, masks: Vec<i64>| -> Result<Vec<Vec<i64>>, String> {
            assert_eq!(ids, vec![0, 1, 2]);
            assert_eq!(masks, vec![1, 1, 1]);
            Ok(ids.iter().map(|id| vec![*id * 10]).collect())
        },
    );
    let (rows, p, t, l) = out.unwrap().unwrap();
    assert_eq!(rows, vec![vec![0], vec![0], vec![0], vec![10], vec![10]]);
    assert_eq!(p, vec![10, 0, 11, 0, 12, 0, 13, 0, 14]);
    assert_eq!(t, vec![7, 0, 7, 0, 7, 0, 7, 0, 7]);
    assert_eq!(l, vec![1, 0, 1, 0, 1, 0, 1, 0, 1]);
}

#[test]
fn a_failed_tokenizer_ends_the_work_before_the_encoder() {
    let mut ran = false;
    let out = parse_text_with(
        "ア",
        &[1i64],
        &[6i64],
        None,
        &[1i64],
        &vec![0usize],
        |_kata: &str| -> Tokens { Err("no vocabulary".to_string()) },
        |_ids: Vec<i64>, _masks: Vec<i64>| -> Result<Vec<Vec<u8>>, String> {
            ran = true;
            Ok(Vec::new())
        },
    );
    assert_eq!(out, Err("no vocabulary".to_string()));
    assert!(!ran);
}

#[test]
fn a_failed_encoder_is_the_failure_of_the_whole() {
    let out = parse_text_with(
        "ア",
        &[1i64],
        &[6i64],
        None,
        &[1i64],
        &vec![0usize],
        one_token_each,
        |_ids: Vec<i64>, _masks: Vec<i64>| -> Result<Vec<Vec<u8>>, String> {
            Err("out of memory".to_string())
        },
    );
    assert_eq!(out, Err("out of memory".to_string()));
}

#[test]
fn rows_that_do_not_line_up_are_an_alignment_failure_of_the_inputs() {
    let out = parse_text_with(
        "ア",
        &[1i64],
        &[6i64],
        None,
        &[1i64],
        &vec![0usize],
        one_token_each,
        |_ids: Vec<i64>, _masks: Vec<i64>| -> Result<Vec<Vec<u8>>, String> {
            Ok(vec![vec![1], vec![2]])
        },
    );
    assert_eq!(out, Ok(Err(TtsError::Misaligned)));
}
