//! Text helpers that the library's reports are built from.
use vstd::prelude::*;
use vstd::string::StringExecFns;

verus! {

/// Whether two strings hold the same characters: their encodings are
/// compared byte by byte, and no two strings share an encoding.
pub(crate) fn str_eq(a: &str, b: &str) -> (r: bool)
    ensures
        r == (a@ == b@),
{
    let x = a.as_bytes();
    let y = b.as_bytes();
    proof {
        vstd::utf8::encode_utf8_decode_utf8(a@);
        vstd::utf8::encode_utf8_decode_utf8(b@);
    }
    if x.len() != y.len() {
        return false;
    }
    let mut i: usize = 0;
    while i < x.len()
        invariant
            i <= x@.len(),
            x@.len() == y@.len(),
            x@ == vstd::utf8::encode_utf8(a@),
            y@ == vstd::utf8::encode_utf8(b@),
            forall|k: int| 0 <= k < i ==> x@[k] == y@[k],
        decreases x@.len() - i,
    {
        if x[i] != y[i] {
            return false;
        }
        i += 1;
    }
    proof {
        assert(x@ =~= y@);
    }
    true
}

/// Whether `a` comes before `b` in the lexicographic order of byte strings.
pub open spec fn bytes_less(a: Seq<u8>, b: Seq<u8>) -> bool
    decreases a.len(),
{
    if b.len() == 0 {
        false
    } else if a.len() == 0 {
        true
    } else if a[0] != b[0] {
        a[0] < b[0]
    } else {
        bytes_less(a.skip(1), b.skip(1))
    }
}

/// Whether `a` comes before `b` in the order of strings.
pub open spec fn text_less(a: Seq<char>, b: Seq<char>) -> bool {
    bytes_less(vstd::utf8::encode_utf8(a), vstd::utf8::encode_utf8(b))
}

/// Whether `a` comes before `b` in the order of strings.
pub(crate) fn str_lt(a: &str, b: &str) -> (r: bool)
    ensures
        r == text_less(a@, b@),
{
    let x = a.as_bytes();
    let y = b.as_bytes();
    let mut i: usize = 0;
    proof {
        assert(x@.skip(0) =~= x@ && y@.skip(0) =~= y@);
    }
    while i < x.len() && i < y.len()
        invariant
            i <= x@.len(),
            i <= y@.len(),
            x@ == vstd::utf8::encode_utf8(a@),
            y@ == vstd::utf8::encode_utf8(b@),
            bytes_less(x@, y@) == bytes_less(x@.skip(i as int), y@.skip(i as int)),
        decreases x@.len() - i,
    {
        if x[i] != y[i] {
            return x[i] < y[i];
        }
        proof {
            assert(x@.skip(i as int).skip(1) =~= x@.skip(i + 1));
            assert(y@.skip(i as int).skip(1) =~= y@.skip(i + 1));
        }
        i += 1;
    }
    i < y.len()
}

/// The lexicographic order is transitive.
pub proof fn lemma_bytes_less_transitive(a: Seq<u8>, b: Seq<u8>, c: Seq<u8>)
    requires
        bytes_less(a, b),
        bytes_less(b, c),
    ensures
        bytes_less(a, c),
    decreases a.len(),
{
    if a.len() > 0 && a[0] == b[0] && b[0] == c[0] {
        lemma_bytes_less_transitive(a.skip(1), b.skip(1), c.skip(1));
    }
}

/// No string comes before itself, and of two strings at most one comes
/// before the other.
pub proof fn lemma_bytes_less_asymmetric(a: Seq<u8>, b: Seq<u8>)
    ensures
        !(bytes_less(a, b) && bytes_less(b, a)),
    decreases a.len(),
{
    if a.len() > 0 && b.len() > 0 && a[0] == b[0] {
        lemma_bytes_less_asymmetric(a.skip(1), b.skip(1));
    }
}

/// Whether the texts of `names` stand in ascending order.
pub open spec fn ascending(names: Seq<&'static str>) -> bool {
    forall|i: int, j: int|
        0 <= i < j < names.len() ==> !text_less(#[trigger] names[j]@, #[trigger] names[i]@)
}

/// Sorts `names` into ascending order.
pub(crate) fn sort_names(names: Vec<&'static str>) -> (r: Vec<&'static str>)
    ensures
        ascending(r@),
        r@.to_multiset() == names@.to_multiset(),
{
    let mut sorted: Vec<&'static str> = Vec::new();
    let mut i: usize = 0;
    proof {
        assert(names@.take(0) =~= Seq::empty());
    }
    while i < names.len()
        invariant
            i <= names@.len(),
            ascending(sorted@),
            sorted@.to_multiset() == names@.take(i as int).to_multiset(),
        decreases names@.len() - i,
    {
        let name = names[i];
        let mut at: usize = 0;
        while at < sorted.len() && !str_lt(name, sorted[at])
            invariant
                at <= sorted@.len(),
                forall|k: int| 0 <= k < at ==> !text_less(name@, #[trigger] sorted@[k]@),
            decreases sorted@.len() - at,
        {
            at += 1;
        }
        let ghost before = sorted@;
        sorted.insert(at, name);
        proof {
            assert(sorted@ =~= before.insert(at as int, name));
            assert forall|x: int, y: int| 0 <= x < y < sorted@.len() implies !text_less(
                #[trigger] sorted@[y]@,
                #[trigger] sorted@[x]@,
            ) by {
                if y < at {
                    assert(sorted@[x] == before[x] && sorted@[y] == before[y]);
                } else if y == at {
                    assert(sorted@[x] == before[x]);
                } else if x < at {
                    assert(sorted@[x] == before[x] && sorted@[y] == before[y - 1]);
                } else if x == at {
                    let later = before[y - 1];
                    assert(sorted@[y] == later);
                    if text_less(later@, name@) {
                        lemma_bytes_less_transitive(
                            vstd::utf8::encode_utf8(later@),
                            vstd::utf8::encode_utf8(name@),
                            vstd::utf8::encode_utf8(before[at as int]@),
                        );
                        lemma_bytes_less_asymmetric(
                            vstd::utf8::encode_utf8(later@),
                            vstd::utf8::encode_utf8(before[at as int]@),
                        );
                    }
                } else {
                    assert(sorted@[x] == before[x - 1] && sorted@[y] == before[y - 1]);
                }
            }
            assert(names@.take(i as int + 1) =~= names@.take(i as int).push(name));
            assert(sorted@ =~= before.insert(at as int, name));
            vstd::seq_lib::to_multiset_insert(before, at as int, name);
            vstd::seq_lib::to_multiset_build(names@.take(i as int), name);
        }
        i += 1;
    }
    proof {
        assert(names@.take(names@.len() as int) =~= names@);
    }
    sorted
}

/// The character of the digit `d` in base 16, with upper-case or lower-case
/// letters.
pub open spec fn digit_char(d: int, upper: bool) -> char {
    if d == 0 {
        '0'
    } else if d == 1 {
        '1'
    } else if d == 2 {
        '2'
    } else if d == 3 {
        '3'
    } else if d == 4 {
        '4'
    } else if d == 5 {
        '5'
    } else if d == 6 {
        '6'
    } else if d == 7 {
        '7'
    } else if d == 8 {
        '8'
    } else if d == 9 {
        '9'
    } else if d == 10 {
        if upper {
            'A'
        } else {
            'a'
        }
    } else if d == 11 {
        if upper {
            'B'
        } else {
            'b'
        }
    } else if d == 12 {
        if upper {
            'C'
        } else {
            'c'
        }
    } else if d == 13 {
        if upper {
            'D'
        } else {
            'd'
        }
    } else if d == 14 {
        if upper {
            'E'
        } else {
            'e'
        }
    } else {
        if upper {
            'F'
        } else {
            'f'
        }
    }
}

/// The eight hexadecimal digits of `value`, the most significant first.
#[verifier::opaque]
pub open spec fn hex_digits(value: u32, upper: bool) -> Seq<char> {
    seq![
        digit_char(value as int / 0x1000_0000 % 16, upper),
        digit_char(value as int / 0x100_0000 % 16, upper),
        digit_char(value as int / 0x10_0000 % 16, upper),
        digit_char(value as int / 0x1_0000 % 16, upper),
        digit_char(value as int / 0x1000 % 16, upper),
        digit_char(value as int / 0x100 % 16, upper),
        digit_char(value as int / 0x10 % 16, upper),
        digit_char(value as int % 16, upper),
    ]
}

/// The decimal digits of `value`, the most significant first, without
/// leading zeros.
pub open spec fn decimal_digits(value: nat) -> Seq<char>
    decreases value,
{
    if value < 10 {
        seq![digit_char(value as int, false)]
    } else {
        decimal_digits(value / 10).push(digit_char((value % 10) as int, false))
    }
}

/// The text of one digit.
fn digit_text(d: u32, upper: bool) -> (r: &'static str)
    requires
        d < 16,
    ensures
        r@ == seq![digit_char(d as int, upper)],
{
    proof {
        reveal_strlit("0");
        reveal_strlit("1");
        reveal_strlit("2");
        reveal_strlit("3");
        reveal_strlit("4");
        reveal_strlit("5");
        reveal_strlit("6");
        reveal_strlit("7");
        reveal_strlit("8");
        reveal_strlit("9");
        reveal_strlit("A");
        reveal_strlit("B");
        reveal_strlit("C");
        reveal_strlit("D");
        reveal_strlit("E");
        reveal_strlit("F");
        reveal_strlit("a");
        reveal_strlit("b");
        reveal_strlit("c");
        reveal_strlit("d");
        reveal_strlit("e");
        reveal_strlit("f");
    }
    let r = if d == 0 {
        "0"
    } else if d == 1 {
        "1"
    } else if d == 2 {
        "2"
    } else if d == 3 {
        "3"
    } else if d == 4 {
        "4"
    } else if d == 5 {
        "5"
    } else if d == 6 {
        "6"
    } else if d == 7 {
        "7"
    } else if d == 8 {
        "8"
    } else if d == 9 {
        "9"
    } else if d == 10 {
        if upper {
            "A"
        } else {
            "a"
        }
    } else if d == 11 {
        if upper {
            "B"
        } else {
            "b"
        }
    } else if d == 12 {
        if upper {
            "C"
        } else {
            "c"
        }
    } else if d == 13 {
        if upper {
            "D"
        } else {
            "d"
        }
    } else if d == 14 {
        if upper {
            "E"
        } else {
            "e"
        }
    } else {
        if upper {
            "F"
        } else {
            "f"
        }
    };
    assert(r@ =~= seq![digit_char(d as int, upper)]);
    r
}

/// Appends the eight hexadecimal digits of `value` to `out`.
pub(crate) fn push_hex(out: &mut String, value: u32, upper: bool)
    ensures
        final(out)@ == old(out)@ + hex_digits(value, upper),
{
    assert({
        &&& (value >> 28) & 0xF == value / 0x1000_0000 % 16
        &&& (value >> 24) & 0xF == value / 0x100_0000 % 16
        &&& (value >> 20) & 0xF == value / 0x10_0000 % 16
        &&& (value >> 16) & 0xF == value / 0x1_0000 % 16
        &&& (value >> 12) & 0xF == value / 0x1000 % 16
        &&& (value >> 8) & 0xF == value / 0x100 % 16
        &&& (value >> 4) & 0xF == value / 0x10 % 16
        &&& value & 0xF == value % 16
    }) by (bit_vector);
    reveal(hex_digits);
    out.append(digit_text((value >> 28) & 0xF, upper));
    out.append(digit_text((value >> 24) & 0xF, upper));
    out.append(digit_text((value >> 20) & 0xF, upper));
    out.append(digit_text((value >> 16) & 0xF, upper));
    out.append(digit_text((value >> 12) & 0xF, upper));
    out.append(digit_text((value >> 8) & 0xF, upper));
    out.append(digit_text((value >> 4) & 0xF, upper));
    out.append(digit_text(value & 0xF, upper));
    assert(out@ =~= old(out)@ + hex_digits(value, upper));
}

/// Appends the decimal digits of `value` to `out`.
pub(crate) fn push_decimal(out: &mut String, value: u64)
    ensures
        final(out)@ == old(out)@ + decimal_digits(value as nat),
    decreases value,
{
    if value >= 10 {
        push_decimal(out, value / 10);
    }
    out.append(digit_text((value % 10) as u32, false));
    assert(out@ =~= old(out)@ + decimal_digits(value as nat));
}

} // verus!
