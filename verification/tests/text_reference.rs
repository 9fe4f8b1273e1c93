use dicom_core::data::text::{
    decode_text_trap, DefaultCharacterSetCodec, TextCodec, Utf8CharacterSetCodec,
};
use encoding::all::{ISO_8859_1, UTF_8};
use encoding::{DecoderTrap, EncoderTrap, Encoding, RawDecoder, StringWriter};

fn trap(_decoder: &mut dyn RawDecoder, input: &[u8], output: &mut dyn StringWriter) -> bool {
    output.write_str(&decode_text_trap(input[0]));
    true
}

fn utf8_by_the_decoder(bytes: &[u8]) -> String {
    UTF_8.decode(bytes, DecoderTrap::Call(trap)).unwrap()
}

fn latin1_by_the_decoder(bytes: &[u8]) -> String {
    ISO_8859_1.decode(bytes, DecoderTrap::Call(trap)).unwrap()
}

struct Lcg(u64);

impl Lcg {
    fn next(&mut self) -> u64 {
        self.0 = self.0.wrapping_mul(6364136223846793005).wrapping_add(1442695040888963407);
        self.0 >> 33
    }
}

#[test]
fn utf8_codec_agrees_with_the_decoder_on_short_inputs() {
    let codec = Utf8CharacterSetCodec;
    assert_eq!(codec.decode(&[]).unwrap(), utf8_by_the_decoder(&[]));
    for a in 0u8..=255 {
        assert_eq!(codec.decode(&[a]).unwrap(), utf8_by_the_decoder(&[a]));
    }
    for a in (0x70u8..=255).chain(0x00..0x02) {
        for b in 0u8..=255 {
            assert_eq!(codec.decode(&[a, b]).unwrap(), utf8_by_the_decoder(&[a, b]));
        }
    }
}

#[test]
fn utf8_codec_agrees_with_the_decoder_on_three_bytes() {
    let codec = Utf8CharacterSetCodec;
    let interesting = [
        0x00u8, 0x41, 0x5C, 0x7F, 0x80, 0x8F, 0x90, 0x9F, 0xA0, 0xBF, 0xC0, 0xC1, 0xC2, 0xDF,
        0xE0, 0xE1, 0xEC, 0xED, 0xEE, 0xEF, 0xF0, 0xF1, 0xF3, 0xF4, 0xF5, 0xFF,
    ];
    for a in interesting.iter() {
        for b in interesting.iter() {
            for c in interesting.iter() {
                let bytes = [*a, *b, *c];
                assert_eq!(codec.decode(&bytes).unwrap(), utf8_by_the_decoder(&bytes));
                for d in interesting.iter() {
                    let bytes = [*a, *b, *c, *d];
                    assert_eq!(codec.decode(&bytes).unwrap(), utf8_by_the_decoder(&bytes));
                }
            }
        }
    }
}

#[test]
fn utf8_codec_agrees_with_the_decoder_on_mixed_inputs() {
    let codec = Utf8CharacterSetCodec;
    let pieces: [&[u8]; 12] = [
        b"Smith^John",
        "Jo\u{E3}o".as_bytes(),
        "\u{5C71}\u{7530}".as_bytes(),
        "\u{1F600}".as_bytes(),
        &[0xFF],
        &[0xC3],
        &[0xE5, 0xB1],
        &[0xF0, 0x9F, 0x98],
        &[0x80],
        &[0xED, 0xA0, 0x80],
        b"\\",
        &[0xC0, 0xAF],
    ];
    let mut random = Lcg(0x1234_5678);
    for _ in 0..4000 {
        let mut bytes = Vec::new();
        let count = random.next() % 6;
        for _ in 0..count {
            if random.next() % 4 == 0 {
                bytes.push((random.next() % 256) as u8);
            } else {
                bytes.extend_from_slice(pieces[(random.next() % 12) as usize]);
            }
        }
        assert_eq!(codec.decode(&bytes).unwrap(), utf8_by_the_decoder(&bytes));
    }
}

#[test]
fn default_codec_agrees_with_the_decoder() {
    let codec = DefaultCharacterSetCodec;
    let mut random = Lcg(42);
    for _ in 0..2000 {
        let len = random.next() % 12;
        let bytes: Vec<u8> = (0..len).map(|_| (random.next() % 256) as u8).collect();
        assert_eq!(codec.decode(&bytes).unwrap(), latin1_by_the_decoder(&bytes));
        assert_eq!(
            codec.decode(&bytes).unwrap(),
            ISO_8859_1.decode(&bytes, DecoderTrap::Strict).unwrap()
        );
    }
}

#[test]
fn codecs_agree_with_the_encoders() {
    let texts = [
        "",
        "Smith^John",
        "Jo\u{E3}o",
        "\u{FF}\u{80}",
        "\u{100}",
        "abc\u{20AC}",
        "\u{5C71}\u{7530}^\u{592A}\u{90CE}",
        "\u{1F600}",
    ];
    for text in texts.iter() {
        let latin = DefaultCharacterSetCodec.encode(text).ok();
        assert_eq!(latin, ISO_8859_1.encode(text, EncoderTrap::Strict).ok());
        let utf8 = Utf8CharacterSetCodec.encode(text).ok();
        assert_eq!(utf8, UTF_8.encode(text, EncoderTrap::Strict).ok());
        assert_eq!(utf8, Some(text.as_bytes().to_vec()));
    }
}
