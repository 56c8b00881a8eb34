use sdm72_lib::codec::{decode_uint, encode_uint, u32_to_words, words_to_u32};
use sdm72_lib::error::Error;
use sdm72_lib::protocol::Measurement;

fn words_of_f32(x: f32) -> Vec<u16> {
    let bits = x.to_bits();
    vec![(bits >> 16) as u16, (bits & 0xFFFF) as u16]
}

#[test]
fn encoding_matches_native_single_precision() {
    // the verified integer codec agrees bit-for-bit with the platform's
    // own single-precision encoding on every value it is used for
    let samples: Vec<u16> = (0..=300u16)
        .chain(vec![1000, 1024, 4095, 4096, 9999, 19200, 32767, 32768, 65535])
        .collect();
    for n in samples {
        assert_eq!(
            encode_uint(n),
            words_of_f32(n as f32),
            "wrong wire words for {}",
            n
        );
    }
}

#[test]
fn decoding_matches_native_single_precision() {
    for n in 0..=300u16 {
        let words = words_of_f32(n as f32);
        assert_eq!(decode_uint(&words), Ok(n));
    }
    assert_eq!(decode_uint(&words_of_f32(9999.0)), Ok(9999));
    assert_eq!(decode_uint(&words_of_f32(65535.0)), Ok(65535));
}

#[test]
fn decoding_rejects_non_integer_patterns() {
    assert_eq!(decode_uint(&words_of_f32(1.5)), Err(Error::InvalidValue));
    assert_eq!(decode_uint(&words_of_f32(0.25)), Err(Error::InvalidValue));
    assert_eq!(decode_uint(&words_of_f32(-1.0)), Err(Error::InvalidValue));
    assert_eq!(decode_uint(&words_of_f32(65536.0)), Err(Error::InvalidValue));
    assert_eq!(decode_uint(&words_of_f32(1.0e10)), Err(Error::InvalidValue));
    assert_eq!(
        decode_uint(&words_of_f32(f32::NAN)),
        Err(Error::InvalidValue)
    );
    assert_eq!(
        decode_uint(&words_of_f32(f32::INFINITY)),
        Err(Error::InvalidValue)
    );
}

#[test]
fn decoding_rejects_wrong_word_counts() {
    assert_eq!(decode_uint(&[0x3F80]), Err(Error::WordsCountError));
    assert_eq!(
        decode_uint(&[0x3F80, 0x0000, 0x0000]),
        Err(Error::WordsCountError)
    );
    assert_eq!(decode_uint(&[]), Err(Error::WordsCountError));
}

#[test]
fn raw_u32_words_round_trip() {
    assert_eq!(u32_to_words(0x12345678), vec![0x1234, 0x5678]);
    assert_eq!(words_to_u32(&[0x1234, 0x5678]), Ok(0x12345678));
    assert_eq!(words_to_u32(&[0x1234]), Err(Error::WordsCountError));
}

#[test]
fn float_register_scenario() {
    // the word sequence [0x4090, 0x0000] is the single-precision number 4.5
    let decoded = Measurement::decode_from_input_register(&[0x4090, 0x0000]).unwrap();
    assert_eq!(f32::from_bits(decoded.bits()), 4.5);
    // and encoding 4.5 produces exactly those words again
    let back = Measurement(4.5f32.to_bits()).encode_for_registers();
    assert_eq!(back, vec![0x4090, 0x0000]);
}

#[test]
fn measurement_integer_value() {
    assert_eq!(Measurement(100f32.to_bits()).integer_value(), Some(100));
    assert_eq!(Measurement(4.5f32.to_bits()).integer_value(), None);
    assert_eq!(Measurement(0).integer_value(), Some(0));
}
