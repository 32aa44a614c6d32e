//! What holds of storage quantities in general.

use vstd::prelude::*;

use crate::binary64::{digits_value, lemma_pow10_pos, lemma_scaled_is_monotonic, pow10};
use crate::helpers::{
    digit_values, fraction_part, is_number, is_number_char, law_whole_quantity_is_exact,
    lemma_no_point, multiplier, number_bytes, number_digits, number_len, parse_quantity, point,
    quantity, whole_part,
};
use crate::text::{is_white_space, lemma_trimmed, nat_text, trimmed};
use crate::text_laws::{digits_number, law_digits_read_back};

verus! {

/// White space around a quantity does not matter.
pub proof fn law_quantity_ignores_white_space(s: Seq<char>)
    ensures
        quantity(trimmed(s)) == quantity(s),
{
    lemma_trimmed(s);
}

/// Whether one number is at most another.
pub open spec fn is_at_most(a: Seq<char>, b: Seq<char>) -> bool {
    number_digits(a) * pow10(fraction_part(b).len()) <= number_digits(b) * pow10(
        fraction_part(a).len(),
    )
}

/// Whether a text of digits and points is a number, and holds nothing else.
pub open spec fn is_decimal(s: Seq<char>) -> bool {
    &&& forall|i: int| 0 <= i < s.len() ==> is_number_char(#[trigger] s[i])
    &&& is_number(s)
}

/// A number with a known suffix is a quantity, and is taken apart where the suffix begins.
proof fn lemma_quantity_parts(number: Seq<char>, suffix: Seq<char>)
    requires
        is_decimal(number),
        multiplier(suffix) is Some,
    ensures
        quantity(number + suffix) == Ok::<nat, Seq<char>>(
            number_bytes(number, multiplier(suffix)->0),
        ),
{
    broadcast use vstd::seq_lib::group_seq_properties;

    reveal_strlit("");
    reveal_strlit("Ki");
    reveal_strlit("Mi");
    reveal_strlit("Gi");
    reveal_strlit("Ti");
    reveal_strlit("k");
    reveal_strlit("M");
    reveal_strlit("G");
    reveal_strlit("T");
    let text = number + suffix;
    lemma_no_point(number);
    assert(number.len() > 0);
    assert(is_number_char(number[0]));
    assert(text[0] == number[0]);
    if suffix.len() == 0 {
        assert(text =~= number);
        assert(is_number_char(number[number.len() - 1]));
        assert(!is_white_space(text.last()));
    } else {
        assert(text.last() == suffix.last());
        assert(!is_white_space(text.last()));
        assert(!is_number_char(suffix[0]));
    }
    assert(trimmed(text) == text);
    lemma_number_len(number, suffix);
    assert(text.take(number.len() as int) =~= number);
    assert(text.skip(number.len() as int) =~= suffix);
}

proof fn lemma_number_len(number: Seq<char>, suffix: Seq<char>)
    requires
        forall|i: int| 0 <= i < number.len() ==> is_number_char(#[trigger] number[i]),
        suffix.len() > 0 ==> !is_number_char(suffix[0]),
    ensures
        number_len(number + suffix) == number.len(),
    decreases number.len(),
{
    let text = number + suffix;
    if number.len() == 0 {
        assert(text =~= suffix);
    } else {
        assert(text[0] == number[0]);
        assert(text.drop_first() =~= number.drop_first() + suffix);
        lemma_number_len(number.drop_first(), suffix);
    }
}

/// Of two numbers with one suffix the larger stands for no fewer bytes.
pub proof fn law_quantity_is_monotonic(a: Seq<char>, b: Seq<char>, suffix: Seq<char>)
    requires
        is_decimal(a),
        is_decimal(b),
        is_at_most(a, b),
        multiplier(suffix) is Some,
    ensures
        quantity(a + suffix) is Ok,
        quantity(b + suffix) is Ok,
        quantity(a + suffix)->Ok_0 <= quantity(b + suffix)->Ok_0,
{
    let factor = multiplier(suffix)->0;
    lemma_quantity_parts(a, suffix);
    lemma_quantity_parts(b, suffix);
    assert(number_bytes(a, factor) <= number_bytes(b, factor)) by {
        lemma_bytes_are_monotonic(a, b, factor);
    }
}

proof fn lemma_bytes_are_monotonic(a: Seq<char>, b: Seq<char>, factor: nat)
    requires
        is_at_most(a, b),
        factor > 0,
    ensures
        number_bytes(a, factor) <= number_bytes(b, factor),
{
    lemma_pow10_pos(fraction_part(a).len());
    lemma_pow10_pos(fraction_part(b).len());
    lemma_scaled_is_monotonic(
        number_digits(a),
        pow10(fraction_part(a).len()),
        number_digits(b),
        pow10(fraction_part(b).len()),
        factor,
    );
}

/// Whole numbers with one suffix are in the order of what they count.
pub proof fn law_whole_quantities_are_ordered(a: Seq<char>, b: Seq<char>, suffix: Seq<char>)
    requires
        a.len() > 0,
        b.len() > 0,
        forall|i: int| 0 <= i < a.len() ==> '0' <= #[trigger] a[i] && a[i] <= '9',
        forall|i: int| 0 <= i < b.len() ==> '0' <= #[trigger] b[i] && b[i] <= '9',
        digits_value(digit_values(a)) <= digits_value(digit_values(b)),
        multiplier(suffix) is Some,
    ensures
        quantity(a + suffix) is Ok,
        quantity(b + suffix) is Ok,
        quantity(a + suffix)->Ok_0 <= quantity(b + suffix)->Ok_0,
{
    lemma_whole_number(a);
    lemma_whole_number(b);
    law_quantity_is_monotonic(a, b, suffix);
}

/// The bytes of a size that is written as a whole number and a unit are that many units, where
/// they are below `2^53`.
pub proof fn law_written_size_is_read(
    n: nat,
    suffix: Seq<char>,
    unit: nat,
    s: &str,
    r: Result<u64, String>,
)
    requires
        multiplier(suffix) == Some(unit),
        n * unit < 0x20_0000_0000_0000,
        s@ == nat_text(n) + suffix,
        call_ensures(parse_quantity, (s,), r),
    ensures
        r matches Ok(bytes) && bytes == n * unit,
{
    let number = nat_text(n);
    law_digits_read_back(n);
    assert forall|i: int| 0 <= i < number.len() implies '0' <= #[trigger] number[i] && number[i]
        <= '9' by {}
    lemma_whole_number(number);
    lemma_same_digits(number);
    assert(whole_part(number) =~= number) by {
        lemma_point_behind(number);
    }
    lemma_quantity_parts(number, suffix);
    law_whole_quantity_is_exact(number, unit);
}

proof fn lemma_same_digits(s: Seq<char>)
    requires
        forall|i: int| 0 <= i < s.len() ==> '0' <= #[trigger] s[i] <= '9',
    ensures
        digits_value(digit_values(s)) == digits_number(s),
    decreases s.len(),
{
    if s.len() > 0 {
        assert('0' <= s[s.len() - 1] <= '9');
        assert(digit_values(s).drop_last() =~= digit_values(s.drop_last()));
        lemma_same_digits(s.drop_last());
    }
}

/// Digits alone are a number without a fraction.
proof fn lemma_whole_number(s: Seq<char>)
    requires
        s.len() > 0,
        forall|i: int| 0 <= i < s.len() ==> '0' <= #[trigger] s[i] && s[i] <= '9',
    ensures
        is_decimal(s),
        fraction_part(s).len() == 0,
        number_digits(s) == digits_value(digit_values(s)),
        pow10(0) == 1,
{
    lemma_point_behind(s);
    assert(whole_part(s) =~= s);
    assert(digit_values(s) + digit_values(fraction_part(s)) =~= digit_values(s));
}

proof fn lemma_point_behind(s: Seq<char>)
    requires
        forall|i: int| 0 <= i < s.len() ==> '0' <= #[trigger] s[i] && s[i] <= '9',
    ensures
        point(s) == s.len(),
    decreases s.len(),
{
    if s.len() > 0 {
        assert('0' <= s[0] && s[0] <= '9');
        lemma_point_behind(s.drop_first());
    }
}

} // verus!
