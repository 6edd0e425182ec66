use sbv2_core::audio::AudioTensor;
use sbv2_core::error::{ErrorKind, TtsError};
use sbv2_core::tts_util::{array_to_vec, encoded, CHANNELS, SAMPLE_RATE};

fn tensor(shape: [usize; 3], samples: &[f32]) -> AudioTensor {
    AudioTensor { shape, values: samples.iter().map(|s| s.to_bits()).collect() }
}

fn decode(bytes: Vec<u8>) -> (hound::WavSpec, Vec<f32>) {
    let mut reader = hound::WavReader::new(std::io::Cursor::new(bytes)).unwrap();
    let spec = reader.spec();
    let samples = reader.samples::<f32>().map(|s| s.unwrap()).collect();
    (spec, samples)
}

#[test]
fn a_known_sample_array_survives_the_round_trip() {
    let known = [0.0f32, 0.5, -0.5, 1.0, -1.0, 0.123_456_79, f32::MIN_POSITIVE, -3.25e-7];
    let bytes = array_to_vec(&tensor([1, 1, 8], &known)).unwrap();
    let (spec, samples) = decode(bytes);
    assert_eq!(spec.sample_rate, 44100);
    assert_eq!(spec.channels, 1);
    assert_eq!(spec.sample_format, hound::SampleFormat::Float);
    assert_eq!(spec.bits_per_sample, 32);
    assert_eq!(samples.len(), known.len());
    for (got, want) in samples.iter().zip(known.iter()) {
        assert!((got - want).abs() <= 1e-9);
        assert_eq!(got.to_bits(), want.to_bits());
    }
}

#[test]
fn the_file_is_a_riff_wave_file_of_the_expected_size() {
    let bytes = array_to_vec(&tensor([1, 1, 3], &[0.25, 0.5, 0.75])).unwrap();
    assert_eq!(&bytes[0..4], b"RIFF");
    assert_eq!(&bytes[8..12], b"WAVE");
    assert_eq!(bytes.len(), 68 + 4 * 3);
    assert_eq!(&bytes[bytes.len() - 4..], &0.75f32.to_le_bytes());
}

#[test]
fn only_channel_zero_is_written_batch_after_batch() {
    // Two batch elements of two channels of three samples.
    let all = [
        1.0f32, 2.0, 3.0, /* channel 1 */ 10.0, 20.0, 30.0, //
        4.0, 5.0, 6.0, /* channel 1 */ 40.0, 50.0, 60.0,
    ];
    let audio = tensor([2, 2, 3], &all);
    assert_eq!(
        audio.mono_samples(),
        Some([1.0f32, 2.0, 3.0, 4.0, 5.0, 6.0].iter().map(|s| s.to_bits()).collect())
    );
    let (spec, samples) = decode(array_to_vec(&audio).unwrap());
    assert_eq!((spec.channels, spec.sample_rate), (CHANNELS, SAMPLE_RATE));
    assert_eq!(samples, vec![1.0, 2.0, 3.0, 4.0, 5.0, 6.0]);
}

#[test]
fn no_audio_is_an_empty_file() {
    let (spec, samples) = decode(array_to_vec(&tensor([0, 1, 5], &[])).unwrap());
    assert_eq!(spec.sample_rate, 44100);
    assert!(samples.is_empty());
    let (_, samples) = decode(array_to_vec(&tensor([3, 2, 0], &[])).unwrap());
    assert!(samples.is_empty());
    let (_, samples) = decode(array_to_vec(&tensor([0, 0, 0], &[])).unwrap());
    assert!(samples.is_empty());
}

#[test]
fn a_malformed_tensor_is_an_io_failure() {
    let short = array_to_vec(&tensor([1, 1, 3], &[0.0, 0.0]));
    assert_eq!(short.as_ref().err().map(|e| e.kind()), Some(ErrorKind::Io));
    let long = array_to_vec(&tensor([1, 1, 1], &[0.0, 0.0]));
    assert!(matches!(long, Err(TtsError::Io(_))));
    let no_channel = array_to_vec(&tensor([2, 0, 3], &[]));
    assert!(matches!(no_channel, Err(TtsError::Io(_))));
    let huge = array_to_vec(&tensor([usize::MAX, usize::MAX, 2], &[]));
    assert!(matches!(huge, Err(TtsError::Io(_))));
    assert_eq!(tensor([2, 0, 3], &[]).mono_samples(), None);
    assert!(!tensor([1, 1, 3], &[0.0]).is_well_formed());
    assert!(tensor([usize::MAX, 7, 0], &[]).is_well_formed());
}

#[test]
fn a_refusal_of_the_encoder_is_an_io_failure_in_its_words() {
    assert_eq!(encoded(Ok(vec![1, 2, 3])), Ok(vec![1, 2, 3]));
    assert_eq!(
        encoded(Err(hound::Error::Unsupported)),
        Err(TtsError::Io("The wave format of the file is not supported.".to_string()))
    );
    assert_eq!(
        encoded(Err(hound::Error::TooWide)).unwrap_err().kind(),
        ErrorKind::Io
    );
}

#[test]
fn one_batch_element_of_two_channels() {
    let audio = tensor([1, 2, 2], &[0.5, -0.25, 9.0, 9.0]);
    let bytes = array_to_vec(&audio).unwrap();
    assert_eq!(bytes.len(), 68 + 8);
    assert_eq!(&bytes[68..72], &0.5f32.to_le_bytes());
    assert_eq!(&bytes[72..76], &(-0.25f32).to_le_bytes());
    let (spec, samples) = decode(bytes);
    assert_eq!(
        spec,
        hound::WavSpec {
            channels: 1,
            sample_rate: 44100,
            bits_per_sample: 32,
            sample_format: hound::SampleFormat::Float,
        }
    );
    assert_eq!(samples, vec![0.5, -0.25]);
}

#[test]
fn other_channels_never_reach_the_file() {
    let a = tensor([2, 3, 2], &[1.0, 2.0, 7.0, 7.0, 7.0, 7.0, 3.0, 4.0, 7.0, 7.0, 7.0, 7.0]);
    let b = tensor([2, 3, 2], &[1.0, 2.0, 0.0, -1.0, 8.5, 9.5, 3.0, 4.0, 5.0, 6.0, -0.0, 1e30]);
    assert_eq!(array_to_vec(&a).unwrap(), array_to_vec(&b).unwrap());
}

#[test]
fn every_sample_value_is_written_bit_for_bit() {
    let odd = [f32::NAN, f32::INFINITY, f32::NEG_INFINITY, -0.0, f32::MAX, f32::MIN];
    let bytes = array_to_vec(&tensor([2, 1, 3], &odd)).unwrap();
    for (i, sample) in odd.iter().enumerate() {
        assert_eq!(&bytes[68 + 4 * i..72 + 4 * i], &sample.to_bits().to_le_bytes());
    }
}
