//! The identifier codec.
//!
//! Entities are keyed by opaque 12-byte object identifiers. Externally an
//! identifier is exactly its canonical form: 24 lowercase hexadecimal
//! characters. Parsing accepts exactly that form and encoding produces it,
//! so the two are inverses.

use vstd::prelude::*;

use crate::response::ApiError;

verus! {

/// A character of the canonical external form: a decimal digit or a
/// lowercase hexadecimal letter.
pub open spec fn is_hex_char(c: char) -> bool {
    ('0' <= c && c <= '9') || ('a' <= c && c <= 'f')
}

/// The numeric value of one canonical hexadecimal character.
pub open spec fn hex_char_value(c: char) -> int {
    if '0' <= c && c <= '9' {
        c as int - '0' as int
    } else {
        c as int - 'a' as int + 10
    }
}

/// The canonical hexadecimal character for a value below 16.
pub open spec fn hex_char_of(v: int) -> char {
    if v == 0 { '0' }
    else if v == 1 { '1' }
    else if v == 2 { '2' }
    else if v == 3 { '3' }
    else if v == 4 { '4' }
    else if v == 5 { '5' }
    else if v == 6 { '6' }
    else if v == 7 { '7' }
    else if v == 8 { '8' }
    else if v == 9 { '9' }
    else if v == 10 { 'a' }
    else if v == 11 { 'b' }
    else if v == 12 { 'c' }
    else if v == 13 { 'd' }
    else if v == 14 { 'e' }
    else { 'f' }
}

/// Whether a string is the canonical external form of some identifier.
pub open spec fn oid_str_valid(s: Seq<char>) -> bool {
    s.len() == 24 && (forall|i: int| 0 <= i < s.len() ==> is_hex_char(#[trigger] s[i]))
}

/// The 12 bytes denoted by a canonical external form.
pub open spec fn parse_oid_spec(s: Seq<char>) -> Seq<u8> {
    Seq::new(12, |i: int| (hex_char_value(s[2 * i]) * 16 + hex_char_value(s[2 * i + 1])) as u8)
}

/// The canonical external form of 12 bytes.
pub open spec fn encode_oid_spec(b: Seq<u8>) -> Seq<char> {
    Seq::new(
        24,
        |i: int|
            if i % 2 == 0 {
                hex_char_of(b[i / 2] as int / 16)
            } else {
                hex_char_of(b[i / 2] as int % 16)
            },
    )
}

/// An opaque 12-byte object identifier.
#[derive(Debug)]
pub struct ObjectId {
    bytes: Vec<u8>,
}

impl View for ObjectId {
    type V = Seq<u8>;

    closed spec fn view(&self) -> Seq<u8> {
        self.bytes@
    }
}

impl ObjectId {
    #[verifier::type_invariant]
    spec fn wf(self) -> bool {
        self.bytes@.len() == 12
    }
}

impl Clone for ObjectId {
    fn clone(&self) -> (r: Self)
        ensures
            r@ == self@,
    {
        proof {
            use_type_invariant(self);
        }
        let mut copy: Vec<u8> = Vec::new();
        let mut i: usize = 0;
        while i < self.bytes.len()
            invariant
                i <= self.bytes@.len(),
                self.bytes@.len() == 12,
                copy@ == self.bytes@.subrange(0, i as int),
            decreases self.bytes@.len() - i,
        {
            copy.push(self.bytes[i]);
            i = i + 1;
            proof {
                assert(copy@ =~= self.bytes@.subrange(0, i as int));
            }
        }
        proof {
            assert(copy@ =~= self.bytes@);
        }
        ObjectId { bytes: copy }
    }
}

impl PartialEq for ObjectId {
    fn eq(&self, other: &Self) -> (r: bool) {
        let mut i: usize = 0;
        proof {
            use_type_invariant(self);
            use_type_invariant(other);
        }
        while i < 12
            invariant
                i <= 12,
                self@.len() == 12,
                other@.len() == 12,
                forall|j: int| 0 <= j < i ==> self@[j] == other@[j],
            decreases 12 - i,
        {
            if self.bytes[i] != other.bytes[i] {
                return false;
            }
            i = i + 1;
        }
        proof {
            assert(self@ =~= other@);
        }
        true
    }
}

impl vstd::std_specs::cmp::PartialEqSpecImpl for ObjectId {
    open spec fn obeys_eq_spec() -> bool {
        true
    }

    open spec fn eq_spec(&self, other: &Self) -> bool {
        self@ == other@
    }
}

/// The numeric value of one byte of the external form, if it is a canonical
/// hexadecimal character.
fn hex_val(b: u8) -> (r: Option<u8>)
    ensures
        match r {
            Some(v) => (48 <= b <= 57 || 97 <= b <= 102) && v < 16 && v == (
                if b <= 57 { b - 48 } else { b - 87 }
            ),
            None => !(48 <= b <= 57 || 97 <= b <= 102),
        },
{
    if 48 <= b && b <= 57 {
        Some(b - 48)
    } else if 97 <= b && b <= 102 {
        Some(b - 87)
    } else {
        None
    }
}

/// Parses the canonical external form of an identifier; any other input —
/// wrong length, a character that is not a lowercase hexadecimal digit,
/// the empty string — yields `None`.
pub fn parse_object_id(s: &str) -> (r: Option<ObjectId>)
    ensures
        match r {
            Some(id) => oid_str_valid(s@) && id@ == parse_oid_spec(s@),
            None => !oid_str_valid(s@),
        },
{
    broadcast use vstd::string::group_string_axioms;

    if !s.is_ascii() {
        proof {
            // A string that is not ASCII holds a character above '\u{7f}',
            // which is not a hexadecimal character.
            if oid_str_valid(s@) {
                let i = choose|i| !(0 <= i < s@.len() ==> '\0' <= #[trigger] s@[i] <= '\u{7f}');
                assert(is_hex_char(s@[i]));
            }
        }
        return None;
    }
    let bytes = s.as_bytes();
    proof {
        vstd::string::is_ascii_spec_bytes(s);
        assert(bytes@.len() == s@.len());
    }
    if bytes.len() != 24 {
        return None;
    }
    let mut out: Vec<u8> = Vec::new();
    let mut i: usize = 0;
    while i < 12
        invariant
            i <= 12,
            s@.len() == 24,
            vstd::utf8::is_ascii_chars(s@),
            bytes@ == Seq::new(s@.len(), |k: int| s@[k] as u8),
            out@.len() == i,
            forall|j: int|
                0 <= j < 2 * i ==> is_hex_char(#[trigger] s@[j]),
            forall|j: int| 0 <= j < i ==> out@[j] == parse_oid_spec(s@)[j],
        decreases 12 - i,
    {
        let hi = match hex_val(bytes[2 * i]) {
            Some(v) => v,
            None => {
                proof {
                    assert(!is_hex_char(s@[2 * i as int]));
                }
                return None;
            },
        };
        let lo = match hex_val(bytes[2 * i + 1]) {
            Some(v) => v,
            None => {
                proof {
                    assert(!is_hex_char(s@[2 * i + 1 as int]));
                }
                return None;
            },
        };
        proof {
            assert(is_hex_char(s@[2 * i as int]));
            assert(is_hex_char(s@[2 * i + 1 as int]));
            assert(hi == hex_char_value(s@[2 * i as int]));
            assert(lo == hex_char_value(s@[2 * i + 1 as int]));
        }
        out.push(hi * 16 + lo);
        i = i + 1;
    }
    proof {
        assert(oid_str_valid(s@));
        assert(out@ =~= parse_oid_spec(s@));
    }
    Some(ObjectId { bytes: out })
}

/// The one-character string for a value below 16.
fn hex_char_str(v: u8) -> (r: &'static str)
    requires
        v < 16,
    ensures
        r@.len() == 1,
        r@[0] == hex_char_of(v as int),
{
    proof {
        reveal_strlit("0");
        reveal_strlit("1");
        reveal_strlit("2");
        reveal_strlit("3");
        reveal_strlit("4");
        reveal_strlit("5");
        reveal_strlit("6");
        reveal_strlit("7");
        reveal_strlit("8");
        reveal_strlit("9");
        reveal_strlit("a");
        reveal_strlit("b");
        reveal_strlit("c");
        reveal_strlit("d");
        reveal_strlit("e");
        reveal_strlit("f");
    }
    if v == 0 { "0" }
    else if v == 1 { "1" }
    else if v == 2 { "2" }
    else if v == 3 { "3" }
    else if v == 4 { "4" }
    else if v == 5 { "5" }
    else if v == 6 { "6" }
    else if v == 7 { "7" }
    else if v == 8 { "8" }
    else if v == 9 { "9" }
    else if v == 10 { "a" }
    else if v == 11 { "b" }
    else if v == 12 { "c" }
    else if v == 13 { "d" }
    else if v == 14 { "e" }
    else { "f" }
}

/// Encodes an identifier into its canonical external form.
pub fn encode_object_id(id: &ObjectId) -> (r: String)
    ensures
        r@ == encode_oid_spec(id@),
{
    proof {
        use_type_invariant(id);
    }
    let mut out = String::new();
    let mut i: usize = 0;
    while i < 12
        invariant
            i <= 12,
            id@.len() == 12,
            out@ == encode_oid_spec(id@).subrange(0, 2 * i as int),
        decreases 12 - i,
    {
        let b = id.bytes[i];
        out.append(hex_char_str(b / 16));
        out.append(hex_char_str(b % 16));
        i = i + 1;
        proof {
            assert(out@ =~= encode_oid_spec(id@).subrange(0, 2 * i as int));
        }
    }
    proof {
        assert(out@ =~= encode_oid_spec(id@));
    }
    out
}

/// Parses a path or body identifier, classifying a malformed one as
/// `UnprocessableInput`.
pub fn parse_path_id(s: &str) -> (r: Result<ObjectId, ApiError>)
    ensures
        match r {
            Ok(id) => oid_str_valid(s@) && id@ == parse_oid_spec(s@),
            Err(e) => !oid_str_valid(s@) && e == ApiError::UnprocessableInput,
        },
{
    match parse_object_id(s) {
        Some(id) => Ok(id),
        None => Err(ApiError::UnprocessableInput),
    }
}

/// A canonical hexadecimal character carries a value below 16, and is the
/// character of its own value.
proof fn lemma_hex_char(c: char)
    requires
        is_hex_char(c),
    ensures
        0 <= hex_char_value(c) < 16,
        hex_char_of(hex_char_value(c)) == c,
{
}

/// Encoding any identifier yields a valid canonical string, and parsing it
/// back recovers the identifier: the codec round-trips from the internal
/// side.
pub proof fn lemma_oid_round_trip(b: Seq<u8>)
    requires
        b.len() == 12,
    ensures
        oid_str_valid(encode_oid_spec(b)),
        parse_oid_spec(encode_oid_spec(b)) == b,
{
    let e = encode_oid_spec(b);
    assert forall|i: int| 0 <= i < e.len() implies is_hex_char(#[trigger] e[i]) by {
        if i % 2 == 0 {
            assert(e[i] == hex_char_of(b[i / 2] as int / 16));
        } else {
            assert(e[i] == hex_char_of(b[i / 2] as int % 16));
        }
    }
    assert forall|i: int| 0 <= i < 12 implies parse_oid_spec(e)[i] == b[i] by {
        assert(e[2 * i] == hex_char_of(b[i] as int / 16));
        assert(e[2 * i + 1] == hex_char_of(b[i] as int % 16));
        lemma_hex_char(hex_char_of(b[i] as int / 16));
        lemma_hex_char(hex_char_of(b[i] as int % 16));
        assert(hex_char_value(e[2 * i]) == b[i] as int / 16);
        assert(hex_char_value(e[2 * i + 1]) == b[i] as int % 16);
        assert((b[i] as int / 16) * 16 + b[i] as int % 16 == b[i] as int);
    }
    assert(parse_oid_spec(e) =~= b);
}

/// Parsing a valid canonical string and encoding the result yields the very
/// same string: the codec round-trips from the external side.
pub proof fn lemma_oid_round_trip_external(s: Seq<char>)
    requires
        oid_str_valid(s),
    ensures
        parse_oid_spec(s).len() == 12,
        encode_oid_spec(parse_oid_spec(s)) == s,
{
    let b = parse_oid_spec(s);
    assert forall|k: int| 0 <= k < 24 implies encode_oid_spec(b)[k] == s[k] by {
        let i = k / 2;
        let hi = hex_char_value(s[2 * i]);
        let lo = hex_char_value(s[2 * i + 1]);
        lemma_hex_char(s[2 * i]);
        lemma_hex_char(s[2 * i + 1]);
        assert(b[i] == (hi * 16 + lo) as u8);
        assert((hi * 16 + lo) / 16 == hi) by (nonlinear_arith)
            requires 0 <= hi < 16 && 0 <= lo < 16;
        assert((hi * 16 + lo) % 16 == lo) by (nonlinear_arith)
            requires 0 <= hi < 16 && 0 <= lo < 16;
        if k % 2 == 0 {
            assert(2 * i == k);
            assert(encode_oid_spec(b)[k] == hex_char_of(b[i] as int / 16));
        } else {
            assert(2 * i + 1 == k);
            assert(encode_oid_spec(b)[k] == hex_char_of(b[i] as int % 16));
        }
    }
    assert(encode_oid_spec(b) =~= s);
}

} // verus!
