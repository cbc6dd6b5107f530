use vstd::prelude::*;
use vstd::string::StrSliceExecFns;
use vstd::string::StringExecFns;
use crate::results::ApiError;

verus! {

/// A twelve-byte document identifier, the shape the backing store assigns
/// to every persisted document. On the external call surface an identifier
/// travels as its 24-character hexadecimal text form.
#[derive(Clone, Copy, Debug)]
pub struct Oid {
    pub bytes: [u8; 12],
}

impl View for Oid {
    type V = Seq<u8>;

    open spec fn view(&self) -> Seq<u8> {
        self.bytes@
    }
}

/// Numeric value of a hexadecimal digit, or -1 for any other character.
/// Both letter cases are accepted, as the store's identifier parser does.
pub open spec fn hex_value(c: char) -> int {
    if c == '0' { 0 }
    else if c == '1' { 1 }
    else if c == '2' { 2 }
    else if c == '3' { 3 }
    else if c == '4' { 4 }
    else if c == '5' { 5 }
    else if c == '6' { 6 }
    else if c == '7' { 7 }
    else if c == '8' { 8 }
    else if c == '9' { 9 }
    else if c == 'a' || c == 'A' { 10 }
    else if c == 'b' || c == 'B' { 11 }
    else if c == 'c' || c == 'C' { 12 }
    else if c == 'd' || c == 'D' { 13 }
    else if c == 'e' || c == 'E' { 14 }
    else if c == 'f' || c == 'F' { 15 }
    else { -1 }
}

pub open spec fn is_hex_digit(c: char) -> bool {
    hex_value(c) != -1
}

/// An id-string is valid exactly when it is 24 hexadecimal characters.
pub open spec fn oid_str_valid(s: Seq<char>) -> bool {
    s.len() == 24 && forall|i: int| 0 <= i < 24 ==> is_hex_digit(#[trigger] s[i])
}

/// The byte that positions 2k and 2k+1 of a valid id-string denote.
pub open spec fn decoded_byte(s: Seq<char>, k: int) -> u8 {
    (hex_value(s[2 * k]) * 16 + hex_value(s[2 * k + 1])) as u8
}

/// The twelve bytes a valid id-string denotes.
pub open spec fn decoded_bytes(s: Seq<char>) -> Seq<u8> {
    Seq::new(12, |k: int| decoded_byte(s, k))
}

/// Lowercase hexadecimal digit for a value below sixteen.
pub open spec fn hex_char(v: int) -> char {
    if v == 0 { '0' }
    else if v == 1 { '1' }
    else if v == 2 { '2' }
    else if v == 3 { '3' }
    else if v == 4 { '4' }
    else if v == 5 { '5' }
    else if v == 6 { '6' }
    else if v == 7 { '7' }
    else if v == 8 { '8' }
    else if v == 9 { '9' }
    else if v == 10 { 'a' }
    else if v == 11 { 'b' }
    else if v == 12 { 'c' }
    else if v == 13 { 'd' }
    else if v == 14 { 'e' }
    else { 'f' }
}

/// The 24-character lowercase text form of twelve bytes.
pub open spec fn encoded_chars(b: Seq<u8>) -> Seq<char> {
    Seq::new(24, |i: int|
        if i % 2 == 0 { hex_char(b[i / 2] as int / 16) } else { hex_char(b[i / 2] as int % 16) }
    )
}

/// Encoding a hexadecimal digit and reading it back is the identity.
pub proof fn lemma_hex_char_value(v: int)
    requires
        0 <= v < 16,
    ensures
        hex_value(hex_char(v)) == v,
{
}

/// Text form and parsing are inverse: the text of any twelve bytes is a
/// valid id-string and decodes to the same bytes.
pub proof fn lemma_encode_decode(b: Seq<u8>)
    requires
        b.len() == 12,
    ensures
        oid_str_valid(encoded_chars(b)),
        decoded_bytes(encoded_chars(b)) =~= b,
{
    let s = encoded_chars(b);
    assert forall|i: int| 0 <= i < 24 implies is_hex_digit(#[trigger] s[i]) by {
        let v = b[i / 2] as int;
        assert(0 <= v < 256);
        if i % 2 == 0 {
            lemma_hex_char_value(v / 16);
        } else {
            lemma_hex_char_value(v % 16);
        }
    }
    assert forall|k: int| 0 <= k < 12 implies decoded_bytes(s)[k] == b[k] by {
        let v = b[k] as int;
        assert(s[2 * k] == hex_char(v / 16));
        assert(s[2 * k + 1] == hex_char(v % 16));
        lemma_hex_char_value(v / 16);
        lemma_hex_char_value(v % 16);
        vstd::arithmetic::div_mod::lemma_fundamental_div_mod(v, 16);
        assert(decoded_byte(s, k) == ((v / 16) * 16 + v % 16) as u8);
    }
}

/// Numeric value of a hexadecimal digit character, -1 for any other.
fn hex_value_of(c: char) -> (v: i32)
    ensures
        v as int == hex_value(c),
{
    if c == '0' { 0 }
    else if c == '1' { 1 }
    else if c == '2' { 2 }
    else if c == '3' { 3 }
    else if c == '4' { 4 }
    else if c == '5' { 5 }
    else if c == '6' { 6 }
    else if c == '7' { 7 }
    else if c == '8' { 8 }
    else if c == '9' { 9 }
    else if c == 'a' || c == 'A' { 10 }
    else if c == 'b' || c == 'B' { 11 }
    else if c == 'c' || c == 'C' { 12 }
    else if c == 'd' || c == 'D' { 13 }
    else if c == 'e' || c == 'E' { 14 }
    else if c == 'f' || c == 'F' { 15 }
    else { -1 }
}

/// Parse an id-string into an identifier. Succeeds exactly on 24
/// hexadecimal characters; anything else is an `InvalidIdentifier` error,
/// never a panic.
pub fn parse_object_id(s: &String) -> (r: Result<Oid, ApiError>)
    ensures
        r is Ok <==> oid_str_valid(s@),
        r matches Ok(o) ==> o@ =~= decoded_bytes(s@),
        r is Err ==> r == Err::<Oid, ApiError>(ApiError::InvalidIdentifier),
{
    let st: &str = s.as_str();
    if st.unicode_len() != 24 {
        return Err(ApiError::InvalidIdentifier);
    }
    let mut bytes: [u8; 12] = [0u8; 12];
    let mut k: usize = 0;
    while k < 12
        invariant
            s@.len() == 24,
            st@ == s@,
            0 <= k <= 12,
            forall|j: int| 0 <= j < k ==> is_hex_digit(#[trigger] s@[2 * j])
                && is_hex_digit(s@[2 * j + 1])
                && bytes@[j] == decoded_byte(s@, j),
        decreases 12 - k,
    {
        let hi = hex_value_of(st.get_char(2 * k));
        let lo = hex_value_of(st.get_char(2 * k + 1));
        if hi < 0 || lo < 0 {
            return Err(ApiError::InvalidIdentifier);
        }
        assert(hi <= 15 && lo <= 15);
        bytes[k] = (hi * 16 + lo) as u8;
        k += 1;
    }
    assert forall|i: int| 0 <= i < 24 implies is_hex_digit(#[trigger] s@[i]) by {
        if i % 2 == 0 {
            assert(is_hex_digit(s@[2 * (i / 2)]));
        } else {
            assert(is_hex_digit(s@[2 * (i / 2) + 1]));
        }
        vstd::arithmetic::div_mod::lemma_fundamental_div_mod(i, 2);
    }
    let o = Oid { bytes };
    assert(o@ =~= decoded_bytes(s@));
    Ok(o)
}

/// Hexadecimal digit of a value below sixteen, as a one-character string.
fn hex_char_str(v: u8) -> (r: &'static str)
    requires
        v < 16,
    ensures
        r@.len() == 1,
        r@[0] == hex_char(v as int),
{
    proof {
        reveal_strlit("0");
        reveal_strlit("1");
        reveal_strlit("2");
        reveal_strlit("3");
        reveal_strlit("4");
        reveal_strlit("5");
        reveal_strlit("6");
        reveal_strlit("7");
        reveal_strlit("8");
        reveal_strlit("9");
        reveal_strlit("a");
        reveal_strlit("b");
        reveal_strlit("c");
        reveal_strlit("d");
        reveal_strlit("e");
        reveal_strlit("f");
    }
    if v == 0 { "0" }
    else if v == 1 { "1" }
    else if v == 2 { "2" }
    else if v == 3 { "3" }
    else if v == 4 { "4" }
    else if v == 5 { "5" }
    else if v == 6 { "6" }
    else if v == 7 { "7" }
    else if v == 8 { "8" }
    else if v == 9 { "9" }
    else if v == 10 { "a" }
    else if v == 11 { "b" }
    else if v == 12 { "c" }
    else if v == 13 { "d" }
    else if v == 14 { "e" }
    else { "f" }
}

impl Oid {
    /// The 24-character lowercase hexadecimal text form of this identifier,
    /// the form the external call surface accepts.
    pub fn to_hex(&self) -> (r: String)
        ensures
            r@ == encoded_chars(self@),
    {
        let mut out = String::new();
        let mut k: usize = 0;
        while k < 12
            invariant
                0 <= k <= 12,
                out@ == encoded_chars(self@).subrange(0, 2 * k),
            decreases 12 - k,
        {
            let b = self.bytes[k];
            out.append(hex_char_str(b / 16));
            out.append(hex_char_str(b % 16));
            proof {
                assert(out@ =~= encoded_chars(self@).subrange(0, 2 * (k + 1)));
            }
            k += 1;
        }
        proof {
            assert(out@ =~= encoded_chars(self@));
        }
        out
    }

    /// Whether two identifiers hold the same twelve bytes.
    pub fn same_as(&self, other: &Oid) -> (r: bool)
        ensures
            r <==> self@ == other@,
    {
        let mut k: usize = 0;
        while k < 12
            invariant
                0 <= k <= 12,
                forall|j: int| 0 <= j < k ==> self@[j] == other@[j],
            decreases 12 - k,
        {
            if self.bytes[k] != other.bytes[k] {
                assert(self@[k as int] != other@[k as int]);
                return false;
            }
            k += 1;
        }
        proof {
            assert(self@ =~= other@);
        }
        true
    }
}

} // verus!
