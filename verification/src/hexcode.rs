use vstd::prelude::*;

verus! {

/// Whether a byte is an ASCII hexadecimal digit, either case.
pub open spec fn is_hex_digit(b: u8) -> bool {
    (48 <= b <= 57) || (97 <= b <= 102) || (65 <= b <= 70)
}

/// The numeric value of an ASCII hexadecimal digit.
pub open spec fn hex_val(b: u8) -> int
    recommends
        is_hex_digit(b),
{
    if 48 <= b <= 57 {
        b - 48
    } else if 97 <= b <= 102 {
        b - 87
    } else {
        b - 55
    }
}

/// Whether a byte string is well-formed hexadecimal: an even number of
/// characters, every one of them a hexadecimal digit.
pub open spec fn valid_hex(s: Seq<u8>) -> bool {
    &&& s.len() % 2 == 0
    &&& forall|i: int| 0 <= i < s.len() ==> is_hex_digit(#[trigger] s[i])
}

/// The bytes a hexadecimal string denotes, two digits to a byte, the first
/// digit of each pair carrying the high four bits.
pub open spec fn spec_decode_hex(s: Seq<u8>) -> Seq<u8>
    decreases s.len(),
{
    if s.len() < 2 {
        Seq::empty()
    } else {
        seq![(hex_val(s[0]) * 16 + hex_val(s[1])) as u8] + spec_decode_hex(s.skip(2))
    }
}

proof fn lemma_decode_len(s: Seq<u8>)
    ensures
        spec_decode_hex(s).len() == s.len() / 2,
    decreases s.len(),
{
    if s.len() >= 2 {
        lemma_decode_len(s.skip(2));
    }
}

proof fn lemma_decode_index(s: Seq<u8>, j: int)
    requires
        0 <= j < s.len() / 2,
    ensures
        spec_decode_hex(s)[j] == (hex_val(s[2 * j]) * 16 + hex_val(s[2 * j + 1])) as u8,
    decreases j,
{
    lemma_decode_len(s.skip(2));
    if j > 0 {
        lemma_decode_index(s.skip(2), j - 1);
        assert(s.skip(2)[2 * (j - 1)] == s[2 * j]);
        assert(s.skip(2)[2 * (j - 1) + 1] == s[2 * j + 1]);
    }
}

fn digit_value(b: u8) -> (r: Option<u8>)
    ensures
        r is Some <==> is_hex_digit(b),
        r matches Some(v) ==> v as int == hex_val(b) && v < 16,
{
    if 48 <= b && b <= 57 {
        Some(b - 48)
    } else if 97 <= b && b <= 102 {
        Some(b - 87)
    } else if 65 <= b && b <= 70 {
        Some(b - 55)
    } else {
        None
    }
}

/// Decodes an ASCII hexadecimal string into its bytes, two digits to a
/// byte, upper and lower case alike. Returns `None` exactly when the input
/// has an odd length or holds a character that is no hexadecimal digit.
pub fn decode_hex(input: &Vec<u8>) -> (r: Option<Vec<u8>>)
    ensures
        r is Some <==> valid_hex(input@),
        r matches Some(v) ==> v@ == spec_decode_hex(input@) && v@.len() == input@.len() / 2,
{
    let total = input.len();
    if total % 2 != 0 {
        return None;
    }
    let mut out: Vec<u8> = Vec::new();
    let mut i: usize = 0;
    while i < total
        invariant
            total == input@.len(),
            total % 2 == 0,
            i % 2 == 0,
            i <= total,
            forall|k: int| 0 <= k < i ==> is_hex_digit(#[trigger] input@[k]),
            out@.len() == i / 2,
            forall|j: int|
                0 <= j < out@.len() ==> #[trigger] out@[j] == (hex_val(input@[2 * j]) * 16
                    + hex_val(input@[2 * j + 1])) as u8,
        decreases total - i,
    {
        let high = match digit_value(input[i]) {
            Some(v) => v,
            None => {
                return None;
            },
        };
        let low = match digit_value(input[i + 1]) {
            Some(v) => v,
            None => {
                return None;
            },
        };
        out.push(high * 16 + low);
        i = i + 2;
    }
    proof {
        lemma_decode_len(input@);
        assert forall|j: int| 0 <= j < out@.len() implies out@[j] == spec_decode_hex(input@)[j] by {
            lemma_decode_index(input@, j);
        }
        assert(out@ =~= spec_decode_hex(input@));
    }
    Some(out)
}

} // verus!
