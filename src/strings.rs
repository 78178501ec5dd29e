use libc::time_t;
use time::Timespec;
use vstd::prelude::*;
use vstd::slice::{slice_subrange, slice_to_vec};
use vstd::string::StringSliceAdditionalSpecFns;
use vstd::utf8::*;

verus! {

broadcast use vstd::string::group_string_axioms;

/// True when `s` holds no nul character, so that it fits in a nul-terminated
/// buffer.
pub open spec fn has_no_nul(s: Seq<char>) -> bool {
    forall|i: int| 0 <= i < s.len() ==> s[i] != '\0'
}

/// The text that a foreign string's bytes stand for: their UTF-8 decoding, or
/// the empty text where they are not valid UTF-8.
pub open spec fn owned_string_of(bytes: Seq<u8>) -> Seq<char> {
    if valid_utf8(bytes) {
        decode_utf8(bytes)
    } else {
        Seq::empty()
    }
}

/// The nul-terminated buffer that hands `s` to the foreign side.
pub open spec fn foreign_bytes_of(s: Seq<char>) -> Seq<u8> {
    encode_utf8(s).push(0u8)
}

/// Relies on `std::str::from_utf8`: it succeeds exactly on valid UTF-8, and
/// then returns the same bytes viewed as text.
#[verifier::external_body]
fn str_from_utf8(bytes: &[u8]) -> (r: Option<&str>)
    ensures
        r is Some <==> valid_utf8(bytes@),
        r matches Some(s) ==> s.spec_bytes() == bytes@,
{
    std::str::from_utf8(bytes).ok()
}

/// Converts the bytes of a borrowed foreign string (those before its
/// terminating nul) into an owned string. Bytes that are not valid UTF-8 give
/// the empty string.
pub fn c_char_to_string(cchar: &[u8]) -> (r: String)
    ensures
        r@ == owned_string_of(cchar@),
        !valid_utf8(cchar@) ==> r@.len() == 0,
{
    let r_str: &str = match str_from_utf8(cchar) {
        None => {
            proof {
                reveal_strlit("");
            }
            ""
        },
        Some(s) => {
            proof {
                encode_utf8_decode_utf8(s@);
            }
            s
        },
    };
    r_str.to_string()
}

/// True when `b` is a well-formed nul-terminated buffer: it ends in a nul
/// and holds no other.
pub open spec fn is_nul_terminated(b: Seq<u8>) -> bool {
    &&& b.len() > 0
    &&& b.last() == 0
    &&& forall|i: int| 0 <= i < b.len() - 1 ==> b[i] != 0
}

/// A nul-terminated buffer made for the foreign side, which takes ownership
/// of it and later hands it back to be freed.
#[derive(Debug)]
pub struct ForeignString {
    bytes: Vec<u8>,
}

impl View for ForeignString {
    type V = Seq<u8>;

    /// The buffer's bytes, terminating nul included.
    closed spec fn view(&self) -> Seq<u8> {
        self.bytes@
    }
}

impl ForeignString {
    #[verifier::type_invariant]
    spec fn is_well_formed(&self) -> bool {
        is_nul_terminated(self.bytes@)
    }

    /// The bytes before the terminating nul: what the foreign side reads as
    /// the string.
    pub fn as_bytes(&self) -> (r: &[u8])
        ensures
            r@ == self@.drop_last(),
            is_nul_terminated(self@),
    {
        proof {
            use_type_invariant(self);
        }
        slice_subrange(self.bytes.as_slice(), 0, self.bytes.len() - 1)
    }

    /// Gives up the buffer, terminating nul included, for its ownership to be
    /// handed to the foreign side.
    pub fn into_bytes_with_nul(self) -> (r: Vec<u8>)
        ensures
            r@ == self@,
            is_nul_terminated(r@),
    {
        proof {
            use_type_invariant(&self);
        }
        self.bytes
    }
}

proof fn lemma_lead_bytes_nonzero(x: u8)
    by (bit_vector)
    ensures
        0x80u8 | x != 0u8,
        0xC0u8 | x != 0u8,
        0xE0u8 | x != 0u8,
        0xF0u8 | x != 0u8,
{
}

proof fn lemma_low_byte_nonzero(v: u32)
    by (bit_vector)
    requires
        0 < v <= 0x7F,
    ensures
        (v & 0x7F) as u8 != 0u8,
{
}

/// No byte of the UTF-8 encoding of a character other than nul is zero.
proof fn lemma_encode_scalar_nul_free(c: char)
    requires
        c != '\0',
    ensures
        forall|i: int|
            0 <= i < encode_scalar(c as u32).len() ==> #[trigger] encode_scalar(c as u32)[i] != 0,
{
    let v = c as u32;
    char_is_scalar(c);
    assert(v != 0);
    if has_width_1_encoding(v) {
        lemma_low_byte_nonzero(v);
    } else {
        lemma_lead_bytes_nonzero(((v >> 6) & 0x1F) as u8);
        lemma_lead_bytes_nonzero(((v >> 12) & 0x0F) as u8);
        lemma_lead_bytes_nonzero(((v >> 18) & 0x7) as u8);
        lemma_lead_bytes_nonzero((v & 0x3F) as u8);
        lemma_lead_bytes_nonzero(((v >> 6) & 0x3F) as u8);
        lemma_lead_bytes_nonzero(((v >> 12) & 0x3F) as u8);
    }
}

/// The UTF-8 encoding of text without nul characters holds no zero byte.
proof fn lemma_encode_utf8_nul_free(s: Seq<char>)
    requires
        has_no_nul(s),
    ensures
        forall|i: int| 0 <= i < encode_utf8(s).len() ==> #[trigger] encode_utf8(s)[i] != 0,
    decreases s.len(),
{
    if s.len() > 0 {
        let head = encode_scalar(s[0] as u32);
        let rest = s.drop_first();
        lemma_encode_scalar_nul_free(s[0]);
        lemma_encode_utf8_nul_free(rest);
        assert(encode_utf8(s) == head + encode_utf8(rest));
        assert forall|i: int| 0 <= i < encode_utf8(s).len() implies #[trigger] encode_utf8(s)[i]
            != 0 by {
            if i >= head.len() {
                assert(encode_utf8(s)[i] == encode_utf8(rest)[i - head.len()]);
            }
        }
    }
}

/// Converts an owned string into a nul-terminated buffer for the foreign side.
/// The string must hold no nul character.
pub fn string_to_c_char(r_string: String) -> (r: ForeignString)
    requires
        has_no_nul(r_string@),
    ensures
        r@ == foreign_bytes_of(r_string@),
        is_nul_terminated(r@),
{
    let mut bytes = slice_to_vec(r_string.as_str().as_bytes());
    bytes.push(0u8);
    proof {
        lemma_encode_utf8_nul_free(r_string@);
        assert(bytes@.drop_last() == encode_utf8(r_string@));
    }
    ForeignString { bytes }
}

/// Reading back a foreign string made from `s`, up to its terminating nul,
/// gives `s` again, for every `s` without nul characters.
pub proof fn lemma_round_trip(s: Seq<char>)
    requires
        has_no_nul(s),
    ensures
        owned_string_of(foreign_bytes_of(s).drop_last()) == s,
{
    assert(foreign_bytes_of(s).drop_last() == encode_utf8(s));
    encode_utf8_valid_utf8(s);
    encode_utf8_decode_utf8(s);
}

#[verifier::external_type_specification]
pub struct ExTimespec(time::Timespec);

/// Relies on `time::Timespec::new`: it asserts that `nsec` lies in
/// `0..1_000_000_000` and otherwise stores both fields as given.
pub assume_specification[ time::Timespec::new ](sec: i64, nsec: i32) -> (r: time::Timespec)
    requires
        0 <= nsec < 1_000_000_000,
    ensures
        r.sec == sec,
        r.nsec == nsec,
;

/// Converts a borrowed, possibly absent count of seconds since the epoch into
/// a timestamp with those whole seconds and no fraction.
pub fn optional_timespec(timestamp: Option<&time_t>) -> (r: Option<Timespec>)
    ensures
        timestamp is None <==> r is None,
        timestamp matches Some(t) ==> (r matches Some(ts) && ts.sec == *t as i64 && ts.nsec == 0),
{
    match timestamp {
        None => None,
        Some(t) => Some(Timespec::new(*t as i64, 0)),
    }
}

} // verus!
