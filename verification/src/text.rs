//! Decimal text of integers, and a few string-building helpers.
use vstd::prelude::*;

verus! {

/// The character of a decimal digit `d` (`0 <= d < 10`).
pub open spec fn digit_char(d: int) -> char {
    (48 + d) as char
}

/// The decimal digits of a natural number, most significant first, with no leading zeros.
pub open spec fn nat_text(n: nat) -> Seq<char>
    decreases n,
{
    if n < 10 {
        seq![digit_char(n as int)]
    } else {
        nat_text(n / 10).push(digit_char((n % 10) as int))
    }
}

/// Every character of a decimal text is a digit.
pub proof fn lemma_nat_text_digits(n: nat)
    ensures
        forall|i: int| 0 <= i < nat_text(n).len() ==> '0' <= #[trigger] nat_text(n)[i] <= '9',
        nat_text(n).len() >= 1,
    decreases n,
{
    if n >= 10 {
        lemma_nat_text_digits(n / 10);
    }
}

/// The decimal text of an integer: a minus sign before the digits of a negative number.
pub open spec fn int_text(n: int) -> Seq<char> {
    if n < 0 {
        seq!['-'] + nat_text((-n) as nat)
    } else {
        nat_text(n as nat)
    }
}

/// Appends one character to a string.
#[verifier::external_body]
pub(crate) fn push_char(s: &mut String, c: char)
    ensures
        final(s)@ == old(s)@.push(c),
{
    s.push(c);
}

/// The character of the decimal digit `d`.
fn digit(d: u64) -> (c: char)
    requires
        d < 10,
    ensures
        c == digit_char(d as int),
{
    let b: u8 = 48u8 + (d as u8);
    b as char
}

/// Appends the decimal digits of `n` to `s`.
pub fn push_nat_text(s: &mut String, n: u64)
    ensures
        final(s)@ == old(s)@ + nat_text(n as nat),
    decreases n,
{
    if n < 10 {
        push_char(s, digit(n));
        assert(old(s)@.push(digit_char(n as int)) =~= old(s)@ + nat_text(n as nat));
    } else {
        push_nat_text(s, n / 10);
        push_char(s, digit(n % 10));
        assert(old(s)@ + nat_text((n / 10) as nat) + seq![digit_char((n % 10) as int)]
            =~= old(s)@ + nat_text(n as nat));
    }
}

/// Appends the decimal text of `n` to `s`.
pub fn push_int_text(s: &mut String, n: i64)
    ensures
        final(s)@ == old(s)@ + int_text(n as int),
{
    if n < 0 {
        push_char(s, '-');
        let magnitude: u64 = (0i128 - (n as i128)) as u64;
        push_nat_text(s, magnitude);
        assert(old(s)@.push('-') + nat_text(magnitude as nat) =~= old(s)@ + int_text(n as int));
    } else {
        push_nat_text(s, n as u64);
    }
}

/// The decimal text of an unsigned integer, as `format!("{}", n)` writes it.
pub fn nat_to_text(n: u64) -> (s: String)
    ensures
        s@ == nat_text(n as nat),
{
    let mut s = String::new();
    push_nat_text(&mut s, n);
    assert(Seq::<char>::empty() + nat_text(n as nat) =~= nat_text(n as nat));
    s
}

/// The decimal text of a signed integer, as `format!("{}", n)` writes it.
pub fn int_to_text(n: i64) -> (s: String)
    ensures
        s@ == int_text(n as int),
{
    let mut s = String::new();
    push_int_text(&mut s, n);
    assert(Seq::<char>::empty() + int_text(n as int) =~= int_text(n as int));
    s
}

/// Three texts one after the other.
pub fn concat3(a: &str, b: &str, c: &str) -> (s: String)
    ensures
        s@ == a@ + b@ + c@,
{
    let mut s = String::from_str(a);
    s.append(b);
    s.append(c);
    s
}

/// Texts joined with a separator between each two.
pub open spec fn join_v(parts: Seq<Seq<char>>, sep: Seq<char>) -> Seq<char>
    decreases parts.len(),
{
    if parts.len() == 0 {
        Seq::empty()
    } else if parts.len() == 1 {
        parts[0]
    } else {
        join_v(parts.drop_last(), sep) + sep + parts.last()
    }
}

/// The texts of strings.
pub open spec fn texts_v(parts: Seq<String>) -> Seq<Seq<char>> {
    parts.map_values(|p: String| p@)
}

/// Joins strings with a separator, as `join` on a slice of strings does.
pub fn join_texts(parts: &Vec<String>, sep: &str) -> (s: String)
    ensures
        s@ == join_v(texts_v(parts@), sep@),
{
    let mut s = String::new();
    let mut i: usize = 0;
    while i < parts.len()
        invariant
            i <= parts.len(),
            s@ == join_v(texts_v(parts@.take(i as int)), sep@),
        decreases parts.len() - i,
    {
        let ghost before = texts_v(parts@.take(i as int));
        assert(texts_v(parts@.take(i + 1)) =~= before.push(parts@[i as int]@));
        assert(texts_v(parts@.take(i + 1)).drop_last() =~= before);
        if i > 0 {
            s.append(sep);
        } else {
            assert(s@ =~= Seq::<char>::empty());
        }
        s.append(parts[i].as_str());
        if i == 0 {
            assert(s@ =~= parts@[0]@);
        }
        i = i + 1;
    }
    assert(parts@.take(parts.len() as int) =~= parts@);
    s
}

/// The digits of bytes separated by `", "`.
pub open spec fn byte_list_v(bytes: Seq<u8>) -> Seq<char>
    decreases bytes.len(),
{
    if bytes.len() == 0 {
        Seq::empty()
    } else if bytes.len() == 1 {
        nat_text(bytes[0] as nat)
    } else {
        byte_list_v(bytes.drop_last()) + ", "@ + nat_text(bytes.last() as nat)
    }
}

/// Bytes as `{:?}` writes a byte slice: `[1, 2, 3]`.
pub open spec fn bytes_debug_v(bytes: Seq<u8>) -> Seq<char> {
    "["@ + byte_list_v(bytes) + "]"@
}

/// Writes bytes as `{:?}` writes a byte slice.
pub fn bytes_debug(bytes: &Vec<u8>) -> (s: String)
    ensures
        s@ == bytes_debug_v(bytes@),
{
    let mut s = String::from_str("[");
    let mut i: usize = 0;
    while i < bytes.len()
        invariant
            i <= bytes.len(),
            s@ == "["@ + byte_list_v(bytes@.take(i as int)),
        decreases bytes.len() - i,
    {
        let ghost prev = s@;
        assert(bytes@.take(i + 1).drop_last() =~= bytes@.take(i as int));
        if i > 0 {
            s.append(", ");
        } else {
            assert("["@ + byte_list_v(bytes@.take(0)) =~= "["@);
        }
        push_nat_text(&mut s, bytes[i] as u64);
        if i == 0 {
            assert(s@ =~= "["@ + byte_list_v(bytes@.take(1)));
        } else {
            assert(s@ =~= "["@ + byte_list_v(bytes@.take(i + 1)));
        }
        i = i + 1;
    }
    assert(bytes@.take(bytes.len() as int) =~= bytes@);
    s.append("]");
    s
}

/// The number that a text of decimal digits denotes.
pub open spec fn digits_value(s: Seq<char>) -> int
    decreases s.len(),
{
    if s.len() == 0 {
        0
    } else {
        digits_value(s.drop_last()) * 10 + (s.last() as int - '0' as int)
    }
}

/// Read back, the decimal text of a number is that number, and it starts with
/// a zero only when the number is zero.
pub proof fn lemma_nat_text_value(n: nat)
    ensures
        digits_value(nat_text(n)) == n,
        nat_text(n)[0] == '0' ==> n == 0,
        n > 0 ==> nat_text(n)[0] != '0',
    decreases n,
{
    let t = nat_text(n);
    let d = (n % 10) as int;
    assert(digit_char(d) as int == 48 + d);
    assert('0' as int == 48);
    assert(digits_value(t) == digits_value(t.drop_last()) * 10 + (t.last() as int - '0' as int));
    if n >= 10 {
        lemma_nat_text_value(n / 10);
        assert(t.drop_last() == nat_text(n / 10));
        assert(t.last() == digit_char(d));
        assert(t[0] == nat_text(n / 10)[0]);
        assert((n / 10) * 10 + n % 10 == n);
    } else {
        assert(t.drop_last() =~= Seq::<char>::empty());
        assert(t.last() == digit_char(n as int));
    }
}

/// The text of a negative number is a minus sign before the digits of its
/// magnitude; other numbers have no sign.
pub proof fn lemma_int_text_sign(n: int)
    ensures
        n < 0 ==> int_text(n)[0] == '-' && int_text(n).drop_first() == nat_text((-n) as nat),
        n >= 0 ==> int_text(n) == nat_text(n as nat) && digits_value(int_text(n)) == n,
{
    if n < 0 {
        assert((seq!['-'] + nat_text((-n) as nat)).drop_first() =~= nat_text((-n) as nat));
    } else {
        lemma_nat_text_value(n as nat);
    }
}

} // verus!
