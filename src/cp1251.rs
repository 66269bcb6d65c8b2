//! The single-byte code page (Windows-1251) in which guest strings hold text.

use vstd::prelude::*;
use vstd::std_specs::iter::IteratorSpec;

use crate::error::{AmxError, AmxResult};

verus! {

broadcast use vstd::string::axiom_spec_iter, vstd::string::next_postcondition;

/// The character that a byte of the code page stands for; `None` for the one
/// byte that the code page leaves unassigned.
pub open spec fn cp1251_char(b: u8) -> Option<char> {
    if b < 0x80 {
        Some(b as char)
    } else if b >= 0xC0 {
        Some(((b as int) + 0x350) as char)
    } else {
        match b {
            0x80 => Some('\u{0402}'),
            0x81 => Some('\u{0403}'),
            0x82 => Some('\u{201A}'),
            0x83 => Some('\u{0453}'),
            0x84 => Some('\u{201E}'),
            0x85 => Some('\u{2026}'),
            0x86 => Some('\u{2020}'),
            0x87 => Some('\u{2021}'),
            0x88 => Some('\u{20AC}'),
            0x89 => Some('\u{2030}'),
            0x8A => Some('\u{0409}'),
            0x8B => Some('\u{2039}'),
            0x8C => Some('\u{040A}'),
            0x8D => Some('\u{040C}'),
            0x8E => Some('\u{040B}'),
            0x8F => Some('\u{040F}'),
            0x90 => Some('\u{0452}'),
            0x91 => Some('\u{2018}'),
            0x92 => Some('\u{2019}'),
            0x93 => Some('\u{201C}'),
            0x94 => Some('\u{201D}'),
            0x95 => Some('\u{2022}'),
            0x96 => Some('\u{2013}'),
            0x97 => Some('\u{2014}'),
            0x99 => Some('\u{2122}'),
            0x9A => Some('\u{0459}'),
            0x9B => Some('\u{203A}'),
            0x9C => Some('\u{045A}'),
            0x9D => Some('\u{045C}'),
            0x9E => Some('\u{045B}'),
            0x9F => Some('\u{045F}'),
            0xA0 => Some('\u{00A0}'),
            0xA1 => Some('\u{040E}'),
            0xA2 => Some('\u{045E}'),
            0xA3 => Some('\u{0408}'),
            0xA4 => Some('\u{00A4}'),
            0xA5 => Some('\u{0490}'),
            0xA6 => Some('\u{00A6}'),
            0xA7 => Some('\u{00A7}'),
            0xA8 => Some('\u{0401}'),
            0xA9 => Some('\u{00A9}'),
            0xAA => Some('\u{0404}'),
            0xAB => Some('\u{00AB}'),
            0xAC => Some('\u{00AC}'),
            0xAD => Some('\u{00AD}'),
            0xAE => Some('\u{00AE}'),
            0xAF => Some('\u{0407}'),
            0xB0 => Some('\u{00B0}'),
            0xB1 => Some('\u{00B1}'),
            0xB2 => Some('\u{0406}'),
            0xB3 => Some('\u{0456}'),
            0xB4 => Some('\u{0491}'),
            0xB5 => Some('\u{00B5}'),
            0xB6 => Some('\u{00B6}'),
            0xB7 => Some('\u{00B7}'),
            0xB8 => Some('\u{0451}'),
            0xB9 => Some('\u{2116}'),
            0xBA => Some('\u{0454}'),
            0xBB => Some('\u{00BB}'),
            0xBC => Some('\u{0458}'),
            0xBD => Some('\u{0405}'),
            0xBE => Some('\u{0455}'),
            0xBF => Some('\u{0457}'),
            _ => None,
        }
    }
}

/// The byte that stands for a character in the code page, if any does.
pub open spec fn cp1251_byte(c: char) -> Option<u8> {
    if (c as u32) < 0x80 {
        Some(c as u8)
    } else if 0x410 <= (c as u32) < 0x450 {
        Some(((c as u32) - 0x350) as u8)
    } else {
        match c {
            '\u{0402}' => Some(0x80u8),
            '\u{0403}' => Some(0x81u8),
            '\u{201A}' => Some(0x82u8),
            '\u{0453}' => Some(0x83u8),
            '\u{201E}' => Some(0x84u8),
            '\u{2026}' => Some(0x85u8),
            '\u{2020}' => Some(0x86u8),
            '\u{2021}' => Some(0x87u8),
            '\u{20AC}' => Some(0x88u8),
            '\u{2030}' => Some(0x89u8),
            '\u{0409}' => Some(0x8Au8),
            '\u{2039}' => Some(0x8Bu8),
            '\u{040A}' => Some(0x8Cu8),
            '\u{040C}' => Some(0x8Du8),
            '\u{040B}' => Some(0x8Eu8),
            '\u{040F}' => Some(0x8Fu8),
            '\u{0452}' => Some(0x90u8),
            '\u{2018}' => Some(0x91u8),
            '\u{2019}' => Some(0x92u8),
            '\u{201C}' => Some(0x93u8),
            '\u{201D}' => Some(0x94u8),
            '\u{2022}' => Some(0x95u8),
            '\u{2013}' => Some(0x96u8),
            '\u{2014}' => Some(0x97u8),
            '\u{2122}' => Some(0x99u8),
            '\u{0459}' => Some(0x9Au8),
            '\u{203A}' => Some(0x9Bu8),
            '\u{045A}' => Some(0x9Cu8),
            '\u{045C}' => Some(0x9Du8),
            '\u{045B}' => Some(0x9Eu8),
            '\u{045F}' => Some(0x9Fu8),
            '\u{00A0}' => Some(0xA0u8),
            '\u{040E}' => Some(0xA1u8),
            '\u{045E}' => Some(0xA2u8),
            '\u{0408}' => Some(0xA3u8),
            '\u{00A4}' => Some(0xA4u8),
            '\u{0490}' => Some(0xA5u8),
            '\u{00A6}' => Some(0xA6u8),
            '\u{00A7}' => Some(0xA7u8),
            '\u{0401}' => Some(0xA8u8),
            '\u{00A9}' => Some(0xA9u8),
            '\u{0404}' => Some(0xAAu8),
            '\u{00AB}' => Some(0xABu8),
            '\u{00AC}' => Some(0xACu8),
            '\u{00AD}' => Some(0xADu8),
            '\u{00AE}' => Some(0xAEu8),
            '\u{0407}' => Some(0xAFu8),
            '\u{00B0}' => Some(0xB0u8),
            '\u{00B1}' => Some(0xB1u8),
            '\u{0406}' => Some(0xB2u8),
            '\u{0456}' => Some(0xB3u8),
            '\u{0491}' => Some(0xB4u8),
            '\u{00B5}' => Some(0xB5u8),
            '\u{00B6}' => Some(0xB6u8),
            '\u{00B7}' => Some(0xB7u8),
            '\u{0451}' => Some(0xB8u8),
            '\u{2116}' => Some(0xB9u8),
            '\u{0454}' => Some(0xBAu8),
            '\u{00BB}' => Some(0xBBu8),
            '\u{0458}' => Some(0xBCu8),
            '\u{0405}' => Some(0xBDu8),
            '\u{0455}' => Some(0xBEu8),
            '\u{0457}' => Some(0xBFu8),
            _ => None,
        }
    }
}

/// Every byte of the sequence stands for a character.
pub open spec fn decodable(bytes: Seq<u8>) -> bool {
    forall|i: int| 0 <= i < bytes.len() ==> (#[trigger] cp1251_char(bytes[i])) is Some
}

/// The text that a sequence of decodable bytes stands for.
pub open spec fn decoded(bytes: Seq<u8>) -> Seq<char> {
    bytes.map_values(|b: u8| cp1251_char(b)->0)
}

/// Every character of the text has a byte in the code page.
pub open spec fn encodable(text: Seq<char>) -> bool {
    forall|i: int| 0 <= i < text.len() ==> (#[trigger] cp1251_byte(text[i])) is Some
}

/// The bytes that stand for an encodable text.
pub open spec fn encoded(text: Seq<char>) -> Seq<u8> {
    text.map_values(|c: char| cp1251_byte(c)->0)
}

/// The character that a byte stands for.
pub fn decode_byte(b: u8) -> (r: Option<char>)
    ensures
        r == cp1251_char(b),
{
    if b < 0x80 {
        Some(b as char)
    } else {
        match b {
            0x80 => Some('\u{0402}'),
            0x81 => Some('\u{0403}'),
            0x82 => Some('\u{201A}'),
            0x83 => Some('\u{0453}'),
            0x84 => Some('\u{201E}'),
            0x85 => Some('\u{2026}'),
            0x86 => Some('\u{2020}'),
            0x87 => Some('\u{2021}'),
            0x88 => Some('\u{20AC}'),
            0x89 => Some('\u{2030}'),
            0x8A => Some('\u{0409}'),
            0x8B => Some('\u{2039}'),
            0x8C => Some('\u{040A}'),
            0x8D => Some('\u{040C}'),
            0x8E => Some('\u{040B}'),
            0x8F => Some('\u{040F}'),
            0x90 => Some('\u{0452}'),
            0x91 => Some('\u{2018}'),
            0x92 => Some('\u{2019}'),
            0x93 => Some('\u{201C}'),
            0x94 => Some('\u{201D}'),
            0x95 => Some('\u{2022}'),
            0x96 => Some('\u{2013}'),
            0x97 => Some('\u{2014}'),
            0x99 => Some('\u{2122}'),
            0x9A => Some('\u{0459}'),
            0x9B => Some('\u{203A}'),
            0x9C => Some('\u{045A}'),
            0x9D => Some('\u{045C}'),
            0x9E => Some('\u{045B}'),
            0x9F => Some('\u{045F}'),
            0xA0 => Some('\u{00A0}'),
            0xA1 => Some('\u{040E}'),
            0xA2 => Some('\u{045E}'),
            0xA3 => Some('\u{0408}'),
            0xA4 => Some('\u{00A4}'),
            0xA5 => Some('\u{0490}'),
            0xA6 => Some('\u{00A6}'),
            0xA7 => Some('\u{00A7}'),
            0xA8 => Some('\u{0401}'),
            0xA9 => Some('\u{00A9}'),
            0xAA => Some('\u{0404}'),
            0xAB => Some('\u{00AB}'),
            0xAC => Some('\u{00AC}'),
            0xAD => Some('\u{00AD}'),
            0xAE => Some('\u{00AE}'),
            0xAF => Some('\u{0407}'),
            0xB0 => Some('\u{00B0}'),
            0xB1 => Some('\u{00B1}'),
            0xB2 => Some('\u{0406}'),
            0xB3 => Some('\u{0456}'),
            0xB4 => Some('\u{0491}'),
            0xB5 => Some('\u{00B5}'),
            0xB6 => Some('\u{00B6}'),
            0xB7 => Some('\u{00B7}'),
            0xB8 => Some('\u{0451}'),
            0xB9 => Some('\u{2116}'),
            0xBA => Some('\u{0454}'),
            0xBB => Some('\u{00BB}'),
            0xBC => Some('\u{0458}'),
            0xBD => Some('\u{0405}'),
            0xBE => Some('\u{0455}'),
            0xBF => Some('\u{0457}'),
            0xC0 => Some('\u{0410}'),
            0xC1 => Some('\u{0411}'),
            0xC2 => Some('\u{0412}'),
            0xC3 => Some('\u{0413}'),
            0xC4 => Some('\u{0414}'),
            0xC5 => Some('\u{0415}'),
            0xC6 => Some('\u{0416}'),
            0xC7 => Some('\u{0417}'),
            0xC8 => Some('\u{0418}'),
            0xC9 => Some('\u{0419}'),
            0xCA => Some('\u{041A}'),
            0xCB => Some('\u{041B}'),
            0xCC => Some('\u{041C}'),
            0xCD => Some('\u{041D}'),
            0xCE => Some('\u{041E}'),
            0xCF => Some('\u{041F}'),
            0xD0 => Some('\u{0420}'),
            0xD1 => Some('\u{0421}'),
            0xD2 => Some('\u{0422}'),
            0xD3 => Some('\u{0423}'),
            0xD4 => Some('\u{0424}'),
            0xD5 => Some('\u{0425}'),
            0xD6 => Some('\u{0426}'),
            0xD7 => Some('\u{0427}'),
            0xD8 => Some('\u{0428}'),
            0xD9 => Some('\u{0429}'),
            0xDA => Some('\u{042A}'),
            0xDB => Some('\u{042B}'),
            0xDC => Some('\u{042C}'),
            0xDD => Some('\u{042D}'),
            0xDE => Some('\u{042E}'),
            0xDF => Some('\u{042F}'),
            0xE0 => Some('\u{0430}'),
            0xE1 => Some('\u{0431}'),
            0xE2 => Some('\u{0432}'),
            0xE3 => Some('\u{0433}'),
            0xE4 => Some('\u{0434}'),
            0xE5 => Some('\u{0435}'),
            0xE6 => Some('\u{0436}'),
            0xE7 => Some('\u{0437}'),
            0xE8 => Some('\u{0438}'),
            0xE9 => Some('\u{0439}'),
            0xEA => Some('\u{043A}'),
            0xEB => Some('\u{043B}'),
            0xEC => Some('\u{043C}'),
            0xED => Some('\u{043D}'),
            0xEE => Some('\u{043E}'),
            0xEF => Some('\u{043F}'),
            0xF0 => Some('\u{0440}'),
            0xF1 => Some('\u{0441}'),
            0xF2 => Some('\u{0442}'),
            0xF3 => Some('\u{0443}'),
            0xF4 => Some('\u{0444}'),
            0xF5 => Some('\u{0445}'),
            0xF6 => Some('\u{0446}'),
            0xF7 => Some('\u{0447}'),
            0xF8 => Some('\u{0448}'),
            0xF9 => Some('\u{0449}'),
            0xFA => Some('\u{044A}'),
            0xFB => Some('\u{044B}'),
            0xFC => Some('\u{044C}'),
            0xFD => Some('\u{044D}'),
            0xFE => Some('\u{044E}'),
            0xFF => Some('\u{044F}'),
            _ => None,
        }
    }
}

/// The byte that stands for a character.
pub fn encode_char(c: char) -> (r: Option<u8>)
    ensures
        r == cp1251_byte(c),
{
    let v = c as u32;
    if v < 0x80 {
        Some(v as u8)
    } else if 0x410 <= v && v < 0x450 {
        Some((v - 0x350) as u8)
    } else {
        match c {
            '\u{0402}' => Some(0x80u8),
            '\u{0403}' => Some(0x81u8),
            '\u{201A}' => Some(0x82u8),
            '\u{0453}' => Some(0x83u8),
            '\u{201E}' => Some(0x84u8),
            '\u{2026}' => Some(0x85u8),
            '\u{2020}' => Some(0x86u8),
            '\u{2021}' => Some(0x87u8),
            '\u{20AC}' => Some(0x88u8),
            '\u{2030}' => Some(0x89u8),
            '\u{0409}' => Some(0x8Au8),
            '\u{2039}' => Some(0x8Bu8),
            '\u{040A}' => Some(0x8Cu8),
            '\u{040C}' => Some(0x8Du8),
            '\u{040B}' => Some(0x8Eu8),
            '\u{040F}' => Some(0x8Fu8),
            '\u{0452}' => Some(0x90u8),
            '\u{2018}' => Some(0x91u8),
            '\u{2019}' => Some(0x92u8),
            '\u{201C}' => Some(0x93u8),
            '\u{201D}' => Some(0x94u8),
            '\u{2022}' => Some(0x95u8),
            '\u{2013}' => Some(0x96u8),
            '\u{2014}' => Some(0x97u8),
            '\u{2122}' => Some(0x99u8),
            '\u{0459}' => Some(0x9Au8),
            '\u{203A}' => Some(0x9Bu8),
            '\u{045A}' => Some(0x9Cu8),
            '\u{045C}' => Some(0x9Du8),
            '\u{045B}' => Some(0x9Eu8),
            '\u{045F}' => Some(0x9Fu8),
            '\u{00A0}' => Some(0xA0u8),
            '\u{040E}' => Some(0xA1u8),
            '\u{045E}' => Some(0xA2u8),
            '\u{0408}' => Some(0xA3u8),
            '\u{00A4}' => Some(0xA4u8),
            '\u{0490}' => Some(0xA5u8),
            '\u{00A6}' => Some(0xA6u8),
            '\u{00A7}' => Some(0xA7u8),
            '\u{0401}' => Some(0xA8u8),
            '\u{00A9}' => Some(0xA9u8),
            '\u{0404}' => Some(0xAAu8),
            '\u{00AB}' => Some(0xABu8),
            '\u{00AC}' => Some(0xACu8),
            '\u{00AD}' => Some(0xADu8),
            '\u{00AE}' => Some(0xAEu8),
            '\u{0407}' => Some(0xAFu8),
            '\u{00B0}' => Some(0xB0u8),
            '\u{00B1}' => Some(0xB1u8),
            '\u{0406}' => Some(0xB2u8),
            '\u{0456}' => Some(0xB3u8),
            '\u{0491}' => Some(0xB4u8),
            '\u{00B5}' => Some(0xB5u8),
            '\u{00B6}' => Some(0xB6u8),
            '\u{00B7}' => Some(0xB7u8),
            '\u{0451}' => Some(0xB8u8),
            '\u{2116}' => Some(0xB9u8),
            '\u{0454}' => Some(0xBAu8),
            '\u{00BB}' => Some(0xBBu8),
            '\u{0458}' => Some(0xBCu8),
            '\u{0405}' => Some(0xBDu8),
            '\u{0455}' => Some(0xBEu8),
            '\u{0457}' => Some(0xBFu8),
            _ => None,
        }
    }
}

/// Relies on `String::push`: the character is appended at the end.
#[verifier::external_body]
fn push_char(s: &mut String, c: char)
    ensures
        final(s)@ == old(s)@.push(c),
{
    s.push(c)
}

/// Decodes bytes of the code page into text; fails with `Encoding` when a byte
/// stands for no character.
pub fn decode(bytes: &[u8]) -> (r: AmxResult<String>)
    ensures
        decodable(bytes@) ==> (r matches Ok(s) && s@ == decoded(bytes@)),
        !decodable(bytes@) ==> r == Err::<String, AmxError>(AmxError::Encoding),
{
    let mut out = String::new();
    let mut i: usize = 0;
    while i < bytes.len()
        invariant
            i <= bytes@.len(),
            decodable(bytes@.subrange(0, i as int)),
            out@ == decoded(bytes@.subrange(0, i as int)),
        decreases bytes.len() - i,
    {
        match decode_byte(bytes[i]) {
            Some(c) => {
                push_char(&mut out, c);
            },
            None => {
                return Err(AmxError::Encoding);
            },
        }
        i = i + 1;
        assert(bytes@.subrange(0, i as int) =~= bytes@.subrange(0, i - 1).push(bytes@[i - 1]));
        assert(out@ =~= decoded(bytes@.subrange(0, i as int)));
    }
    assert(bytes@.subrange(0, i as int) =~= bytes@);
    Ok(out)
}

/// Encodes text into bytes of the code page, without a terminator; fails with
/// `Encoding` when a character has no byte.
pub fn encode(text: &str) -> (r: AmxResult<Vec<u8>>)
    ensures
        encodable(text@) ==> (r matches Ok(v) && v@ == encoded(text@)),
        !encodable(text@) ==> r == Err::<Vec<u8>, AmxError>(AmxError::Encoding),
{
    let mut out: Vec<u8> = Vec::new();
    let mut it = text.chars();
    let ghost all = text@;
    let ghost mut k: int = 0;
    loop
        invariant
            all == text@,
            0 <= k <= all.len(),
            it.obeys_prophetic_iter_laws(),
            IteratorSpec::decrease(&it) is Some,
            IteratorSpec::remaining(&it) == all.subrange(k, all.len() as int),
            encodable(all.subrange(0, k)),
            out@ == encoded(all.subrange(0, k)),
        decreases IteratorSpec::decrease(&it)->0,
    {
        match it.next() {
            Some(c) => {
                assert(c == all[k]);
                match encode_char(c) {
                    Some(b) => {
                        out.push(b);
                    },
                    None => {
                        assert(!encodable(all));
                        return Err(AmxError::Encoding);
                    },
                }
                proof {
                    k = k + 1;
                }
                assert(all.subrange(0, k) =~= all.subrange(0, k - 1).push(c));
                assert(out@ =~= encoded(all.subrange(0, k)));
                assert(IteratorSpec::remaining(&it) =~= all.subrange(k, all.len() as int));
            },
            None => {
                assert(all.subrange(0, k) =~= all);
                return Ok(out);
            },
        }
    }
}

/// A byte that stands for a character is the byte of that character.
pub proof fn lemma_byte_round_trip(b: u8)
    requires
        cp1251_char(b) is Some,
    ensures
        cp1251_byte(cp1251_char(b)->0) == Some(b),
{
}

/// A character that has a byte is the character of that byte.
pub proof fn lemma_char_round_trip(c: char)
    requires
        cp1251_byte(c) is Some,
    ensures
        cp1251_char(cp1251_byte(c)->0) == Some(c),
{
}

/// Decoding bytes of the code page and encoding the text again gives back the
/// same bytes.
pub proof fn lemma_decode_encode(bytes: Seq<u8>)
    requires
        decodable(bytes),
    ensures
        encodable(decoded(bytes)),
        encoded(decoded(bytes)) == bytes,
{
    assert forall|i: int| 0 <= i < bytes.len() implies cp1251_byte(
        #[trigger] decoded(bytes)[i],
    ) == Some(bytes[i]) by {
        assert(cp1251_char(bytes[i]) is Some);
        lemma_byte_round_trip(bytes[i]);
    }
    assert(encoded(decoded(bytes)) =~= bytes);
}

/// Encoding text and decoding the bytes again gives back the same text.
pub proof fn lemma_encode_decode(text: Seq<char>)
    requires
        encodable(text),
    ensures
        decodable(encoded(text)),
        decoded(encoded(text)) == text,
{
    assert forall|i: int| 0 <= i < text.len() implies cp1251_char(
        #[trigger] encoded(text)[i],
    ) == Some(text[i]) by {
        assert(cp1251_byte(text[i]) is Some);
        lemma_char_round_trip(text[i]);
    }
    assert(decoded(encoded(text)) =~= text);
}

} // verus!
