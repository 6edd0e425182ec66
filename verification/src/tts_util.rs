//! From analysed text to the inputs of the synthesis network.

use vstd::prelude::*;
use crate::align::{
    adjust_word2ph, adjusted, as_ints, lemma_adjusted_total, lemma_repeated_len,
    lemma_total_nonnegative, repeat_rows, repeated, rows_of, total,
};
use crate::audio::{AudioTensor, SampleKind};
use crate::error::TtsError;
use crate::mora::{mora_phonemes, phonemes_of};
use crate::norm::{is_punctuation, is_punctuation_mark};
use crate::utils::{intersperse, interspersed};
use crate::wav::{carries, encode_wav, error_text, wav_file, MAX_SAMPLES};

verus! {

/// The value put between neighbouring phones, tones and language ids.
pub const SEPARATOR: i64 = 0;

/// The number of channels of the audio that is written.
pub const CHANNELS: u16 = 1;

/// The sample rate of the audio that is written, in hertz.
pub const SAMPLE_RATE: u32 = 44100;

/// The number of bits of a sample of the audio that is written.
pub const BITS_PER_SAMPLE: u16 = 32;

/// Reads numbers out, normalises the text and analyses it.
///
/// The three steps are the caller's: `num2word` spells out the numbers of the
/// text, `normalize_text` normalises what it gives, and `process_text` analyses
/// the normalised text. The result is the normalised text with its analysis. A
/// step that fails ends the work with its failure, and no later step is taken.
pub fn preprocess_parse_text<P, E, N, M, A>(
    text: &str,
    num2word: N,
    normalize_text: M,
    process_text: A,
) -> (result: Result<(String, P), E>) where
    N: FnOnce(&str) -> Result<String, E>,
    M: FnOnce(&String) -> String,
    A: FnOnce(&String) -> Result<P, E>,

    requires
        forall|t: &str| num2word.requires((t,)),
        forall|t: &String| normalize_text.requires((t,)),
        forall|t: &String| process_text.requires((t,)),
    ensures
        match result {
            Ok((normalized, process)) => exists|words: String|
                {
                    &&& #[trigger] num2word.ensures((text,), Ok(words))
                    &&& normalize_text.ensures((&words,), normalized)
                    &&& process_text.ensures((&normalized,), Ok(process))
                },
            Err(e) => {
                ||| num2word.ensures((text,), Err(e))
                ||| exists|words: String, normalized: String|
                    {
                        &&& #[trigger] num2word.ensures((text,), Ok(words))
                        &&& #[trigger] normalize_text.ensures((&words,), normalized)
                        &&& process_text.ensures((&normalized,), Err(e))
                    }
            },
        },
{
    let words = match num2word(text) {
        Ok(words) => words,
        Err(e) => {
            return Err(e);
        },
    };
    let normalized = normalize_text(&words);
    match process_text(&normalized) {
        Ok(process) => Ok((normalized, process)),
        Err(e) => Err(e),
    }
}

/// Whether the phoneme-level sequences, the phoneme counts and the embedding rows
/// line up: there is a first count to carry the leading boundary token, one
/// embedding row per count, and the adjusted counts sum to the common length of
/// the three sequences.
pub open spec fn lines_up(
    phones: Seq<i64>,
    tones: Seq<i64>,
    lang_ids: Seq<i64>,
    word2ph: Seq<usize>,
    rows: int,
) -> bool {
    &&& word2ph.len() >= 1
    &&& rows == word2ph.len()
    &&& total(adjusted(word2ph)) == phones.len()
    &&& tones.len() == phones.len()
    &&& lang_ids.len() == phones.len()
}

/// Whether `result` is what the data gives: the inputs of the network where the
/// data lines up, and an alignment failure where it does not.
///
/// In the inputs, row `i` of `rows` is repeated over as many rows as the adjusted
/// count of character `i` says, and each of the three sequences has the separator
/// between neighbours.
pub open spec fn is_parsed<T>(
    result: Result<(Vec<Vec<T>>, Vec<i64>, Vec<i64>, Vec<i64>), TtsError>,
    phones: Seq<i64>,
    tones: Seq<i64>,
    lang_ids: Seq<i64>,
    word2ph: Seq<usize>,
    rows: Seq<Vec<T>>,
) -> bool {
    match result {
        Ok((bert, p, t, l)) => {
            &&& lines_up(phones, tones, lang_ids, word2ph, rows.len() as int)
            &&& rows_of(bert@) == repeated(rows_of(rows), adjusted(word2ph))
            &&& bert.len() == phones.len()
            &&& p.len() == 2 * phones.len() - 1
            &&& p@ == interspersed(phones, SEPARATOR)
            &&& t@ == interspersed(tones, SEPARATOR)
            &&& l@ == interspersed(lang_ids, SEPARATOR)
        },
        Err(e) => {
            &&& e == TtsError::Misaligned
            &&& !lines_up(phones, tones, lang_ids, word2ph, rows.len() as int)
        },
    }
}

/// The tones that count: the given ones where some are given.
pub open spec fn tones_used(tones: Seq<i64>, given_tones: Option<Vec<i64>>) -> Seq<i64> {
    match given_tones {
        Some(given) => given@,
        None => tones,
    }
}

/// Builds the inputs of the synthesis network from phoneme-level sequences and
/// per-character embeddings.
///
/// Row `i` of `bert_content` is repeated over as many rows as the adjusted count
/// of character `i` says; the three sequences get the separator between
/// neighbours. Data that does not line up is refused, never padded or cut.
pub fn parse_text<T: Copy>(
    phones: &[i64],
    tones: &[i64],
    lang_ids: &[i64],
    word2ph: &Vec<usize>,
    bert_content: &Vec<Vec<T>>,
) -> (result: Result<(Vec<Vec<T>>, Vec<i64>, Vec<i64>, Vec<i64>), TtsError>)
    ensures
        is_parsed(result, phones@, tones@, lang_ids@, word2ph@, bert_content@),
{
    if word2ph.len() == 0 || tones.len() != phones.len() || lang_ids.len() != phones.len()
        || bert_content.len() != word2ph.len() {
        return Err(TtsError::Misaligned);
    }
    let counts = match adjust_word2ph(word2ph, phones.len()) {
        Ok(counts) => counts,
        Err(e) => {
            return Err(e);
        },
    };
    let bert = repeat_rows(bert_content, &counts);
    proof {
        lemma_repeated_len(rows_of(bert_content@), adjusted(word2ph@));
        lemma_adjusted_total(word2ph@);
        lemma_total_nonnegative(as_ints(word2ph@));
    }
    Ok(
        (
            bert,
            intersperse(phones, SEPARATOR),
            intersperse(tones, SEPARATOR),
            intersperse(lang_ids, SEPARATOR),
        ),
    )
}

/// As [`parse_text`], with the tones replaced by `given_tones` where some are given.
pub fn parse_text_blocking<T: Copy>(
    phones: &[i64],
    tones: &[i64],
    given_tones: Option<Vec<i64>>,
    lang_ids: &[i64],
    word2ph: &Vec<usize>,
    bert_content: &Vec<Vec<T>>,
) -> (result: Result<(Vec<Vec<T>>, Vec<i64>, Vec<i64>, Vec<i64>), TtsError>)
    ensures
        is_parsed(
            result,
            phones@,
            tones_used(tones@, given_tones),
            lang_ids@,
            word2ph@,
            bert_content@,
        ),
{
    match given_tones {
        Some(given) => parse_text(phones, given.as_slice(), lang_ids, word2ph, bert_content),
        None => parse_text(phones, tones, lang_ids, word2ph, bert_content),
    }
}

/// As [`parse_text_blocking`], with the embeddings still to be had: the katakana
/// text is tokenized, the text encoder is run on the tokens, and the inputs are
/// built from the rows it returns.
///
/// `tokenize` and `bert_predict` are the caller's. A failure of either ends the
/// work with that failure, and the encoder is not run on a text that was not
/// tokenized. What the encoder returns decides alone between inputs and an
/// alignment failure.
pub fn parse_text_with<T: Copy, E, K, B>(
    kata: &str,
    phones: &[i64],
    tones: &[i64],
    given_tones: Option<Vec<i64>>,
    lang_ids: &[i64],
    word2ph: &Vec<usize>,
    tokenize: K,
    bert_predict: B,
) -> (result: Result<Result<(Vec<Vec<T>>, Vec<i64>, Vec<i64>, Vec<i64>), TtsError>, E>) where
    K: FnOnce(&str) -> Result<(Vec<i64>, Vec<i64>), E>,
    B: FnOnce(Vec<i64>, Vec<i64>) -> Result<Vec<Vec<T>>, E>,

    requires
        forall|text: &str| tokenize.requires((text,)),
        forall|token_ids: Vec<i64>, attention_masks: Vec<i64>|
            bert_predict.requires((token_ids, attention_masks)),
    ensures
        match result {
            Ok(inputs) => exists|token_ids: Vec<i64>, attention_masks: Vec<i64>, rows: Vec<Vec<T>>|
                {
                    &&& #[trigger] tokenize.ensures((kata,), Ok((token_ids, attention_masks)))
                    &&& #[trigger] bert_predict.ensures((token_ids, attention_masks), Ok(rows))
                    &&& is_parsed(
                        inputs,
                        phones@,
                        tones_used(tones@, given_tones),
                        lang_ids@,
                        word2ph@,
                        rows@,
                    )
                },
            Err(e) => {
                ||| tokenize.ensures((kata,), Err(e))
                ||| exists|token_ids: Vec<i64>, attention_masks: Vec<i64>|
                    {
                        &&& #[trigger] tokenize.ensures((kata,), Ok((token_ids, attention_masks)))
                        &&& bert_predict.ensures((token_ids, attention_masks), Err(e))
                    }
            },
        },
{
    let (token_ids, attention_masks) = match tokenize(kata) {
        Ok(tokens) => tokens,
        Err(e) => {
            return Err(e);
        },
    };
    let rows = match bert_predict(token_ids, attention_masks) {
        Ok(rows) => rows,
        Err(e) => {
            return Err(e);
        },
    };
    Ok(parse_text_blocking(phones, tones, given_tones, lang_ids, word2ph, &rows))
}

/// The characters and the tone of each pair.
pub open spec fn pairs_of(pairs: Seq<(String, i32)>) -> Seq<(Seq<char>, i32)> {
    pairs.map_values(|pair: (String, i32)| (pair.0@, pair.1))
}

/// The pair that opens and closes every phoneme sequence.
pub open spec fn boundary() -> (Seq<char>, i32) {
    ("_"@, 0i32)
}

/// Whether the mora can be converted: it is punctuation or stands in the mora table.
pub open spec fn is_known(mora: Seq<char>) -> bool {
    is_punctuation(mora) || phonemes_of(mora) is Some
}

/// The phonemes of one mora with their tones: punctuation as it is, with tone 0;
/// a mora of the table as its consonant, if it has one, and its vowel, both with
/// the mora's tone. A mora that is not known gives nothing.
pub open spec fn mora_phones(mora: Seq<char>, tone: i32) -> Seq<(Seq<char>, i32)> {
    if is_punctuation(mora) {
        seq![(mora, 0i32)]
    } else {
        match phonemes_of(mora) {
            Some((Some(consonant), vowel)) => seq![(consonant, tone), (vowel, tone)],
            Some((None, vowel)) => seq![(vowel, tone)],
            None => seq![],
        }
    }
}

/// The phonemes of the moras, in order.
pub open spec fn phones_of(kata_tone: Seq<(Seq<char>, i32)>) -> Seq<(Seq<char>, i32)>
    decreases kata_tone.len(),
{
    if kata_tone.len() == 0 {
        seq![]
    } else {
        phones_of(kata_tone.drop_last()) + mora_phones(kata_tone.last().0, kata_tone.last().1)
    }
}

/// The phonemes of the moras between two boundary pairs.
pub open spec fn framed_phones(kata_tone: Seq<(Seq<char>, i32)>) -> Seq<(Seq<char>, i32)> {
    seq![boundary()] + phones_of(kata_tone) + seq![boundary()]
}

/// A framed phoneme sequence begins and ends with the boundary pair.
pub proof fn lemma_framed_by_boundaries(kata_tone: Seq<(Seq<char>, i32)>)
    ensures
        framed_phones(kata_tone).len() >= 2,
        framed_phones(kata_tone).first() == boundary(),
        framed_phones(kata_tone).last() == boundary(),
{
}

/// Converts moras with tones to phonemes with tones, between two boundary pairs.
///
/// Fails on the first mora that is neither punctuation nor in the mora table, and
/// names it.
pub fn kata_tone2phone_tone(kata_tone: Vec<(String, i32)>) -> (result: Result<
    Vec<(String, i32)>,
    TtsError,
>)
    ensures
        match result {
            Ok(phone_tone) => {
                &&& forall|i: int| 0 <= i < kata_tone.len() ==> is_known(#[trigger] kata_tone[i].0@)
                &&& pairs_of(phone_tone@) == framed_phones(pairs_of(kata_tone@))
                &&& pairs_of(phone_tone@).first() == boundary()
                &&& pairs_of(phone_tone@).last() == boundary()
            },
            Err(e) => exists|i: int|
                {
                    &&& 0 <= i < kata_tone.len()
                    &&& !is_known(#[trigger] kata_tone[i].0@)
                    &&& forall|j: int| 0 <= j < i ==> is_known(#[trigger] kata_tone[j].0@)
                    &&& e matches TtsError::UnknownMora(mora)
                    &&& mora@ == kata_tone[i].0@
                },
        },
{
    let mut results: Vec<(String, i32)> = Vec::new();
    results.push(("_".to_owned(), 0));
    let mut i: usize = 0;
    while i < kata_tone.len()
        invariant
            i <= kata_tone.len(),
            forall|j: int| 0 <= j < i ==> is_known(#[trigger] kata_tone[j].0@),
            pairs_of(results@) == seq![boundary()] + phones_of(
                pairs_of(kata_tone@).take(i as int),
            ),
        decreases kata_tone.len() - i,
    {
        let mora: &str = kata_tone[i].0.as_str();
        let tone: i32 = kata_tone[i].1;
        let ghost before = pairs_of(results@);
        proof {
            let upto = pairs_of(kata_tone@).take(i + 1);
            assert(upto.drop_last() =~= pairs_of(kata_tone@).take(i as int));
        }
        if is_punctuation_mark(mora) {
            results.push((mora.to_owned(), 0));
            assert(pairs_of(results@) =~= before + seq![(mora@, 0i32)]);
        } else {
            match mora_phonemes(mora) {
                Some((Some(consonant), vowel)) => {
                    results.push((consonant.to_owned(), tone));
                    results.push((vowel.to_owned(), tone));
                    assert(pairs_of(results@) =~= before + seq![
                        (consonant@, tone),
                        (vowel@, tone),
                    ]);
                },
                Some((None, vowel)) => {
                    results.push((vowel.to_owned(), tone));
                    assert(pairs_of(results@) =~= before + seq![(vowel@, tone)]);
                },
                None => {
                    return Err(TtsError::UnknownMora(mora.to_owned()));
                },
            }
        }
        assert(pairs_of(results@) =~= seq![boundary()] + phones_of(
            pairs_of(kata_tone@).take(i + 1),
        ));
        i += 1;
    }
    assert(pairs_of(kata_tone@).take(i as int) =~= pairs_of(kata_tone@));
    results.push(("_".to_owned(), 0));
    Ok(results)
}

/// Whether the tensor can be written as one WAVE file: its values fill its shape,
/// its batch elements have a channel 0, and the samples of that channel fit in
/// one file.
pub open spec fn encodable(audio: &AudioTensor) -> bool {
    &&& audio.wf()
    &&& audio.has_channel_zero()
    &&& audio.mono().len() <= MAX_SAMPLES
}

/// Turns the outcome of the encoder into the library's: the file as it is, a
/// failure as an I/O failure that carries the encoder's words.
pub fn encoded(outcome: Result<Vec<u8>, hound::Error>) -> (result: Result<Vec<u8>, TtsError>)
    ensures
        match outcome {
            Ok(bytes) => result == Ok::<Vec<u8>, TtsError>(bytes),
            Err(_) => result matches Err(TtsError::Io(_)),
        },
{
    match outcome {
        Ok(bytes) => Ok(bytes),
        Err(e) => Err(TtsError::Io(error_text(&e))),
    }
}

/// Writes the audio of a synthesis as a WAVE file: mono, 44100 Hz, 32-bit float
/// samples, channel 0 of each batch element, one element after the other.
///
/// Every tensor that can be written is written, and no other: a tensor that
/// cannot is an I/O failure. The file is the encoder's file for those samples: a
/// header, then the samples in order.
pub fn array_to_vec(audio_array: &AudioTensor) -> (result: Result<Vec<u8>, TtsError>)
    ensures
        result is Ok <==> encodable(audio_array),
        match result {
            Ok(bytes) => {
                &&& bytes@ == wav_file(
                    CHANNELS,
                    SAMPLE_RATE,
                    BITS_PER_SAMPLE,
                    true,
                    audio_array.mono(),
                )
                &&& carries(bytes@, audio_array.mono())
            },
            Err(e) => e is Io,
        },
{
    let samples = match audio_array.mono_samples() {
        Some(samples) => samples,
        None => {
            return Err(TtsError::Io("the audio tensor is malformed".to_owned()));
        },
    };
    if samples.len() > MAX_SAMPLES {
        return Err(TtsError::Io("the audio does not fit in one file".to_owned()));
    }
    encoded(encode_wav(CHANNELS, SAMPLE_RATE, BITS_PER_SAMPLE, SampleKind::Float, &samples))
}

} // verus!
