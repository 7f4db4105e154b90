//! The sounds that mark the beginning and the end of listening, as addresses that hold the sound
//! itself.

use crate::startup::CueAssetPathsPayload;
use crate::text;
use crate::text::concat2;
use base64::Engine;
use vstd::prelude::*;
use vstd::string::*;

verus! {

/// What the address of a sound begins with.
pub const CUE_AUDIO_DATA_URL_PREFIX: &'static str = "data:audio/wav;base64,";

/// The byte at `i`, and zero past the end.
pub open spec fn byte_at(bytes: Seq<u8>, i: int) -> int {
    if i < bytes.len() {
        bytes[i] as int
    } else {
        0
    }
}

/// The three bytes that the four characters around `at` stand for, as one number.
pub open spec fn triple(bytes: Seq<u8>, at: int) -> int {
    let first = at / 4 * 3;
    byte_at(bytes, first) * 65536 + byte_at(bytes, first + 1) * 256 + byte_at(bytes, first + 2)
}

/// The six bits that the character at `at` stands for.
pub open spec fn sextet(bytes: Seq<u8>, at: int) -> int {
    let number = triple(bytes, at);
    if at % 4 == 0 {
        number / 262144
    } else if at % 4 == 1 {
        number / 4096 % 64
    } else if at % 4 == 2 {
        number / 64 % 64
    } else {
        number % 64
    }
}

/// The character that stands for six bits.
pub open spec fn symbol(bits: int) -> char {
    if bits < 26 {
        ('A' as int + bits) as char
    } else if bits < 52 {
        ('a' as int + bits - 26) as char
    } else if bits < 62 {
        ('0' as int + bits - 52) as char
    } else if bits == 62 {
        '+'
    } else {
        '/'
    }
}

/// How many characters the padded Base64 form of `count` bytes has.
pub open spec fn encoded_count(count: nat) -> nat {
    (count + 2) / 3 * 4
}

/// The Base64 form of some bytes, in the standard alphabet and padded.
pub open spec fn encoded(bytes: Seq<u8>) -> Seq<char> {
    Seq::new(
        encoded_count(bytes.len()),
        |at: int|
            if at < (4 * bytes.len() + 2) / 3 {
                symbol(sextet(bytes, at))
            } else {
                '='
            },
    )
}

/// `base64::engine::general_purpose::STANDARD.encode`: the Base64 form of the bytes in the
/// standard alphabet of RFC 4648, padded with `=` to a multiple of four characters. A form that is
/// too long for a buffer is ruled out.
#[verifier::external_body]
fn encode_base64(bytes: &[u8]) -> (result: String)
    requires
        encoded_count(bytes@.len()) <= isize::MAX,
    ensures
        result@ == encoded(bytes@),
{
    base64::engine::general_purpose::STANDARD.encode(bytes)
}

/// The address that holds a sound.
pub open spec fn data_url(bytes: Seq<u8>) -> Seq<char> {
    "data:audio/wav;base64,"@ + encoded(bytes)
}

/// The address that holds a sound.
pub fn cue_audio_data_url(bytes: &[u8]) -> (url: String)
    requires
        encoded_count(bytes@.len()) <= isize::MAX,
    ensures
        url@ == data_url(bytes@),
{
    concat2(CUE_AUDIO_DATA_URL_PREFIX, encode_base64(bytes).as_str())
}

/// The addresses of the two sounds.
pub fn embedded_cue_asset_paths(start_listening: &[u8], stop_listening: &[u8]) -> (paths:
    CueAssetPathsPayload)
    requires
        encoded_count(start_listening@.len()) <= isize::MAX,
        encoded_count(stop_listening@.len()) <= isize::MAX,
    ensures
        paths.start_listening@ == data_url(start_listening@),
        paths.stop_listening@ == data_url(stop_listening@),
{
    CueAssetPathsPayload {
        start_listening: cue_audio_data_url(start_listening),
        stop_listening: cue_audio_data_url(stop_listening),
    }
}

proof fn lemma_symbols_differ(left: int, right: int)
    requires
        0 <= left < 64,
        0 <= right < 64,
        symbol(left) == symbol(right),
    ensures
        left == right,
{
}

proof fn lemma_symbols_are_no_padding(bits: int)
    requires
        0 <= bits < 64,
    ensures
        symbol(bits) != '=',
{
}

proof fn lemma_sextets_are_small(bytes: Seq<u8>, at: int)
    requires
        0 <= at,
    ensures
        0 <= sextet(bytes, at) < 64,
        0 <= triple(bytes, at) < 16777216,
{
}

proof fn lemma_number_of_sextets(number: int)
    requires
        0 <= number < 16777216,
    ensures
        number == number / 262144 * 262144 + number / 4096 % 64 * 4096 + number / 64 % 64 * 64
            + number % 64,
{
}

proof fn lemma_bytes_of_triple(first: int, second: int, third: int)
    requires
        0 <= first < 256,
        0 <= second < 256,
        0 <= third < 256,
    ensures
        (first * 65536 + second * 256 + third) / 65536 == first,
        (first * 65536 + second * 256 + third) / 256 % 256 == second,
        (first * 65536 + second * 256 + third) % 256 == third,
{
}

proof fn lemma_triples_agree(left: Seq<u8>, right: Seq<u8>, start: int)
    requires
        encoded(left) == encoded(right),
        left.len() == right.len(),
        0 <= start,
        start % 4 == 0,
        start / 4 * 3 < left.len(),
    ensures
        triple(left, start) == triple(right, start),
{
    lemma_bits_agree(left, right, start);
    lemma_bits_agree(left, right, start + 1);
    lemma_bits_agree(left, right, start + 2);
    lemma_bits_agree(left, right, start + 3);
    lemma_sextets_are_small(left, start);
    lemma_sextets_are_small(right, start);
    assert(triple(left, start + 1) == triple(left, start));
    assert(triple(left, start + 2) == triple(left, start));
    assert(triple(left, start + 3) == triple(left, start));
    assert(triple(right, start + 1) == triple(right, start));
    assert(triple(right, start + 2) == triple(right, start));
    assert(triple(right, start + 3) == triple(right, start));
    lemma_number_of_sextets(triple(left, start));
    lemma_number_of_sextets(triple(right, start));
}

/// Bytes are told apart by their Base64 form.
proof fn lemma_encoded_is_injective(left: Seq<u8>, right: Seq<u8>)
    requires
        encoded(left) == encoded(right),
    ensures
        left == right,
{
    lemma_lengths_agree(left, right);
    lemma_lengths_agree(right, left);
    assert forall|i: int| 0 <= i < left.len() implies left[i] == right[i] by {
        let group = i / 3;
        let start = group * 4;
        assert(start / 4 * 3 == group * 3);
        lemma_triples_agree(left, right, start);
        lemma_bytes_of_triple(
            byte_at(left, group * 3),
            byte_at(left, group * 3 + 1),
            byte_at(left, group * 3 + 2),
        );
        lemma_bytes_of_triple(
            byte_at(right, group * 3),
            byte_at(right, group * 3 + 1),
            byte_at(right, group * 3 + 2),
        );
        assert(i == group * 3 || i == group * 3 + 1 || i == group * 3 + 2);
    }
    assert(left =~= right);
}

proof fn lemma_lengths_agree(left: Seq<u8>, right: Seq<u8>)
    requires
        encoded(left) == encoded(right),
    ensures
        left.len() >= right.len(),
{
    assert(encoded(left).len() == encoded_count(left.len()));
    assert(encoded(right).len() == encoded_count(right.len()));
    if left.len() < right.len() {
        let at = (4 * left.len() + 2) / 3;
        let groups = (left.len() + 2) / 3;
        assert((right.len() + 2) / 3 == groups);
        assert(left.len() < 3 * groups);
        assert(at < 4 * groups);
        lemma_sextets_are_small(right, at as int);
        lemma_symbols_are_no_padding(sextet(right, at as int));
        assert(encoded(left)[at as int] == '=');
        assert(encoded(right)[at as int] == symbol(sextet(right, at as int)));
    }
}

proof fn lemma_bits_agree(left: Seq<u8>, right: Seq<u8>, at: int)
    requires
        encoded(left) == encoded(right),
        left.len() == right.len(),
        0 <= at,
        at / 4 * 3 < left.len(),
    ensures
        sextet(left, at) == sextet(right, at),
{
    lemma_sextets_are_small(left, at);
    lemma_sextets_are_small(right, at);
    if at < (4 * left.len() + 2) / 3 {
        assert(at < encoded_count(left.len()));
        assert(encoded(left)[at] == symbol(sextet(left, at)));
        assert(encoded(right)[at] == symbol(sextet(right, at)));
        lemma_symbols_differ(sextet(left, at), sextet(right, at));
    }
}

/// Every address of a sound says that it holds one, and different sounds have different addresses.
pub proof fn law_data_urls_hold_their_sounds(left: Seq<u8>, right: Seq<u8>)
    ensures
        text::has_prefix(data_url(left), "data:audio/wav;base64,"@),
        data_url(left) == data_url(right) ==> left == right,
{
    assert(data_url(left).take("data:audio/wav;base64,"@.len() as int)
        =~= "data:audio/wav;base64,"@);
    if data_url(left) == data_url(right) {
        let prefix = "data:audio/wav;base64,"@;
        assert(data_url(left).skip(prefix.len() as int) =~= encoded(left));
        assert(data_url(right).skip(prefix.len() as int) =~= encoded(right));
        lemma_encoded_is_injective(left, right);
    }
}

} // verus!
