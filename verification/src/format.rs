//! Numbers for people: thousands separators, and the byte count that goes with
//! a file size shown in a larger unit.
use vstd::prelude::*;
use byte_unit::{Byte, Unit, UnitType};
use num_format::{Locale, ToFormattedString};
use crate::text::{digit_char, nat_text, lemma_nat_text_digits};

verus! {

/// The last three digits of a number, with leading zeros.
pub open spec fn three_digits_v(m: nat) -> Seq<char> {
    seq![digit_char((m / 100) as int), digit_char(((m / 10) % 10) as int), digit_char((m % 10) as int)]
}

/// The decimal digits of a number with a comma between each group of three,
/// counted from the right: `1,024,000`.
pub open spec fn grouped_text(n: nat) -> Seq<char>
    decreases n,
{
    if n < 1000 {
        nat_text(n)
    } else {
        grouped_text(n / 1000) + seq![','] + three_digits_v(n % 1000)
    }
}

/// Formats a number with num-format's English locale (`Locale::en`), whose
/// separator is `,` and whose grouping is in threes. The contract claims that
/// the result is the digits of `n` with a comma between each group of three.
#[verifier::external_body]
fn to_formatted_en(n: u64) -> (s: String)
    ensures
        s@ == grouped_text(n as nat),
{
    n.to_formatted_string(&Locale::en)
}

/// A number with thousands separators: `1024` gives `1,024`.
pub fn format_number(n: u64) -> (s: String)
    ensures
        s@ == grouped_text(n as nat),
{
    to_formatted_en(n)
}

/// The binary units of byte counts.
#[derive(Debug, Clone, Copy, PartialEq, Eq, Structural)]
pub enum BinaryUnit {
    B,
    KiB,
    MiB,
    GiB,
    TiB,
    PiB,
    EiB,
}

/// The largest binary unit of which a count holds at least one.
pub open spec fn binary_unit_of(bytes: nat) -> BinaryUnit {
    if bytes >= 0x1000_0000_0000_0000 {
        BinaryUnit::EiB
    } else if bytes >= 0x4_0000_0000_0000 {
        BinaryUnit::PiB
    } else if bytes >= 0x100_0000_0000 {
        BinaryUnit::TiB
    } else if bytes >= 0x4000_0000 {
        BinaryUnit::GiB
    } else if bytes >= 0x10_0000 {
        BinaryUnit::MiB
    } else if bytes >= 0x400 {
        BinaryUnit::KiB
    } else {
        BinaryUnit::B
    }
}

/// The unit that byte-unit's `get_appropriate_unit(UnitType::Binary)` picks for
/// a byte count. The contract claims it is the largest of KiB to EiB of which
/// the count holds at least one, else B; the units that method never returns
/// for binary unit types give `None`.
#[verifier::external_body]
fn appropriate_binary_unit(bytes: u64) -> (u: Option<BinaryUnit>)
    ensures
        u == Some(binary_unit_of(bytes as nat)),
{
    match Byte::from_u64(bytes).get_appropriate_unit(UnitType::Binary).get_unit() {
        Unit::B => Some(BinaryUnit::B),
        Unit::KiB => Some(BinaryUnit::KiB),
        Unit::MiB => Some(BinaryUnit::MiB),
        Unit::GiB => Some(BinaryUnit::GiB),
        Unit::TiB => Some(BinaryUnit::TiB),
        Unit::PiB => Some(BinaryUnit::PiB),
        Unit::EiB => Some(BinaryUnit::EiB),
        _ => None,
    }
}

/// The byte count that follows a file size shown in a unit larger than bytes:
/// ` (1,024 bytes)`; empty when the size is shown in bytes.
pub open spec fn byte_count_suffix_v(bytes: nat) -> Seq<char> {
    if binary_unit_of(bytes) == BinaryUnit::B {
        Seq::empty()
    } else {
        " ("@ + grouped_text(bytes) + " bytes)"@
    }
}

/// The byte count that follows a file size: empty below one KiB, else the
/// exact count in brackets.
pub fn byte_count_suffix(bytes: u64) -> (s: String)
    ensures
        s@ == byte_count_suffix_v(bytes as nat),
        s@.len() == 0 <==> bytes < 1024,
{
    let unit = appropriate_binary_unit(bytes);
    let is_bytes = match unit {
        Some(BinaryUnit::B) => true,
        _ => false,
    };
    if !is_bytes {
        let mut s = String::from_str(" (");
        let n = format_number(bytes);
        s.append(n.as_str());
        s.append(" bytes)");
        proof {
            reveal_strlit(" (");
        }
        s
    } else {
        String::new()
    }
}

/// Read without its separators, a number formatted with thousands separators
/// is the number's decimal text.
pub proof fn lemma_grouped_text_digits(n: nat)
    ensures
        grouped_text(n).filter(|c: char| c != ',') == nat_text(n),
    decreases n,
{
    let keep = |c: char| c != ',';
    if n < 1000 {
        lemma_nat_text_digits(n);
        lemma_digits_keep(nat_text(n));
    } else {
        lemma_grouped_text_digits(n / 1000);
        let m = n % 1000;
        lemma_digits_keep(three_digits_v(m));
        let g = grouped_text(n / 1000);
        Seq::filter_distributes_over_add(g + seq![','], three_digits_v(m), keep);
        Seq::filter_distributes_over_add(g, seq![','], keep);
        assert(seq![','].filter(|c: char| c != ',') =~= Seq::<char>::empty()) by {
            reveal_with_fuel(Seq::filter, 2);
        }
        lemma_split_thousands(n);
        assert(grouped_text(n).filter(|c: char| c != ',') =~= nat_text(n));
    }
}

/// Digits are no separators: a text of digits passes the filter whole.
proof fn lemma_digits_keep(s: Seq<char>)
    requires
        forall|i: int| 0 <= i < s.len() ==> '0' <= #[trigger] s[i] <= '9',
    ensures
        s.filter(|c: char| c != ',') == s,
    decreases s.len(),
{
    reveal_with_fuel(Seq::filter, 1);
    if s.len() > 0 {
        lemma_digits_keep(s.drop_last());
        assert(s.drop_last().push(s.last()) =~= s);
    } else {
        assert(s.filter(|c: char| c != ',') =~= s);
    }
}

/// The decimal text of a number of at least four digits is the text of its
/// thousands followed by its last three digits.
proof fn lemma_split_thousands(n: nat)
    requires
        n >= 1000,
    ensures
        nat_text(n) == nat_text(n / 1000) + three_digits_v(n % 1000),
{
    let a = n / 10;
    let b = n / 100;
    assert(a / 10 == b);
    assert(b / 10 == n / 1000);
    assert(a % 10 == ((n % 1000) / 10) % 10);
    assert(b % 10 == (n % 1000) / 100);
    assert(n % 10 == (n % 1000) % 10);
    assert(nat_text(n) == nat_text(a).push(digit_char((n % 10) as int)));
    assert(nat_text(a) == nat_text(b).push(digit_char((a % 10) as int)));
    assert(nat_text(b) == nat_text(n / 1000).push(digit_char((b % 10) as int)));
    assert(nat_text(n) =~= nat_text(n / 1000) + three_digits_v(n % 1000));
}

/// Numbers below a thousand have no separator; larger ones end in a comma and
/// the number's last three digits.
pub proof fn lemma_grouped_text_shape(n: nat)
    ensures
        n < 1000 ==> grouped_text(n) == nat_text(n),
        n >= 1000 ==> grouped_text(n).len() >= 5 && grouped_text(n)[grouped_text(n).len() - 4] == ','
            && grouped_text(n).skip(grouped_text(n).len() - 3) == three_digits_v(n % 1000),
{
    if n >= 1000 {
        lemma_nat_text_digits(n / 1000);
        let g = grouped_text(n / 1000);
        lemma_grouped_len(n / 1000);
        assert(grouped_text(n).skip(grouped_text(n).len() - 3) =~= three_digits_v(n % 1000));
    }
}

proof fn lemma_grouped_len(n: nat)
    ensures
        grouped_text(n).len() >= 1,
    decreases n,
{
    lemma_nat_text_digits(n);
    if n >= 1000 {
        lemma_grouped_len(n / 1000);
    }
}

} // verus!
