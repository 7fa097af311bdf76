use crate::text::push_char;
use vstd::prelude::*;

verus! {

/// The character that writes the hexadecimal digit `d` in capitals.
pub open spec fn hex_char(d: int) -> char {
    if d < 10 {
        ((48 + d) as u8) as char
    } else {
        ((55 + d) as u8) as char
    }
}

/// Whether `c` is a hexadecimal digit written in capitals.
pub open spec fn is_upper_hex(c: char) -> bool {
    48 <= c as u32 <= 57 || 65 <= c as u32 <= 70
}

/// The bytes of `bytes` written in hexadecimal: two capital digits for each
/// byte, the high half first.
pub open spec fn hex_of(bytes: Seq<u8>) -> Seq<char> {
    Seq::new(
        2 * bytes.len(),
        |i: int|
            if i % 2 == 0 {
                hex_char(bytes[i / 2] as int / 16)
            } else {
                hex_char(bytes[i / 2] as int % 16)
            },
    )
}

/// What stands for an optional text when it is shown: the text itself, or
/// two double quotes where it is absent or empty.
pub open spec fn shown_text(opt: Option<Seq<char>>) -> Seq<char> {
    match opt {
        Some(s) if s.len() > 0 => s,
        _ => seq!['"', '"'],
    }
}

/// The capital hexadecimal digit for `d`.
fn hex_digit(d: u8) -> (c: char)
    requires
        d < 16,
    ensures
        c == hex_char(d as int),
        is_upper_hex(c),
{
    if d < 10 {
        (48u8 + d) as char
    } else {
        (55u8 + d) as char
    }
}

/// Every character of a hexadecimal rendering is a capital hexadecimal
/// digit, and there are two for each byte.
pub proof fn lemma_hex_of_shape(bytes: Seq<u8>)
    ensures
        hex_of(bytes).len() == 2 * bytes.len(),
        forall|i: int| 0 <= i < hex_of(bytes).len() ==> is_upper_hex(#[trigger] hex_of(bytes)[i]),
{
    assert forall|i: int| 0 <= i < hex_of(bytes).len() implies is_upper_hex(
        #[trigger] hex_of(bytes)[i],
    ) by {
        let b = bytes[i / 2] as int;
        assert(0 <= b / 16 < 16);
        assert(0 <= b % 16 < 16);
    }
}

/// Two byte strings with the same hexadecimal rendering are the same.
pub proof fn law_hex_of_injective(a: Seq<u8>, b: Seq<u8>)
    requires
        hex_of(a) == hex_of(b),
    ensures
        a == b,
{
    assert(hex_of(a).len() == 2 * a.len());
    assert(hex_of(b).len() == 2 * b.len());
    assert forall|k: int| 0 <= k < a.len() implies a[k] == b[k] by {
        let x = a[k] as int;
        let y = b[k] as int;
        assert(hex_of(a)[2 * k] == hex_char(x / 16));
        assert(hex_of(b)[2 * k] == hex_char(y / 16));
        assert(hex_of(a)[2 * k + 1] == hex_char(x % 16));
        assert(hex_of(b)[2 * k + 1] == hex_char(y % 16));
        assert(0 <= x / 16 < 16 && 0 <= y / 16 < 16);
        assert(0 <= x % 16 < 16 && 0 <= y % 16 < 16);
        assert(x / 16 == y / 16);
        assert(x % 16 == y % 16);
    }
    assert(a =~= b);
}

/// Shows an optional text: the text itself, or two double quotes where it is
/// absent or empty.
pub fn display_opt_str(opt_str: &Option<&str>) -> (r: String)
    ensures
        r@ == shown_text(
            match *opt_str {
                Some(s) => Some(s@),
                None => None,
            },
        ),
{
    match opt_str {
        Some(s) => {
            if s.unicode_len() != 0 {
                (*s).to_owned()
            } else {
                proof {
                    reveal_strlit("\"\"");
                }
                assert("\"\""@ =~= seq!['"', '"']);
                "\"\"".to_owned()
            }
        },
        None => {
            proof {
                reveal_strlit("\"\"");
            }
            assert("\"\""@ =~= seq!['"', '"']);
            "\"\"".to_owned()
        },
    }
}

/// Writes a 16-byte digest as 32 capital hexadecimal digits.
pub fn hex2str(hex: &[u8; 16]) -> (r: String)
    ensures
        r@ == hex_of(hex@),
        r@.len() == 32,
{
    let mut s = String::new();
    let mut i: usize = 0;
    while i < 16
        invariant
            i <= 16,
            hex@.len() == 16,
            s@.len() == 2 * i,
            forall|k: int| 0 <= k < 2 * i ==> s@[k] == hex_of(hex@)[k],
        decreases 16 - i,
    {
        let byte: u8 = hex[i];
        let hi: u8 = byte >> 4;
        let lo: u8 = byte & 0xf;
        assert(hi == byte / 16 && lo == byte % 16) by (bit_vector)
            requires
                hi == byte >> 4,
                lo == byte & 0xf,
        ;
        push_char(&mut s, hex_digit(hi));
        push_char(&mut s, hex_digit(lo));
        i += 1;
    }
    assert(s@ =~= hex_of(hex@));
    s
}

} // verus!
