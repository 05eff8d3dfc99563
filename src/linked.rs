//! The steps behind derived values: seeding a derived value, propagating a
//! change through a conversion that may decline, and the decimal link
//! between an integer and its text.
use vstd::prelude::*;
use vstd::std_specs::cmp::PartialEqSpec;

use crate::state::{same, State};

verus! {

/// Stores a conversion's result in `target`: nothing happens when the
/// conversion declined (`None`) or produced the stored value. Returns
/// whether `target` changed.
pub fn apply_conversion<B: PartialEq>(target: &mut State<B>, converted: Option<B>) -> (r: bool)
    requires
        B::obeys_eq_spec(),
    ensures
        match converted {
            None => !r && *final(target) == *old(target),
            Some(b) => if same(old(target).value(), b) {
                !r && *final(target) == *old(target)
            } else {
                r && final(target).advanced_from(old(target), b)
            },
        },
{
    match converted {
        None => false,
        Some(b) => target.replace(b).is_some(),
    }
}

/// The state of a value linked to another: it holds the first conversion
/// of the other's value, which must have produced a value.
pub fn seed_linked<B>(first: Option<B>) -> (r: State<B>)
    requires
        first is Some,
    ensures
        first == Some(r.value()),
        r.tag() == 0,
        r.readers == 0,
        r.pending_disconnect,
{
    State::new(first.unwrap())
}

/// The state of a value derived from `value` by `map`.
pub fn seed_mapped<A, B, F: Fn(&A) -> B>(value: &A, map: &F) -> (r: State<B>)
    requires
        map.requires((value,)),
    ensures
        map.ensures((value,), r.value()),
        r.tag() == 0,
        r.readers == 0,
        r.pending_disconnect,
{
    State::new(map(value))
}

/// The character of the decimal digit `d`.
pub open spec fn digit_char(d: nat) -> char {
    seq!['0', '1', '2', '3', '4', '5', '6', '7', '8', '9'][d as int]
}

/// The decimal text of `n`, without sign or leading zeros.
pub open spec fn decimal(n: nat) -> Seq<char>
    decreases n,
{
    if n < 10 {
        seq![digit_char(n)]
    } else {
        decimal(n / 10).push(digit_char(n % 10))
    }
}

/// Whether `c` is an ASCII digit.
pub open spec fn is_digit(c: char) -> bool {
    '0' <= c && c <= '9'
}

/// The value of the ASCII digit `c`.
pub open spec fn digit_value(c: char) -> nat {
    (c as u32 - '0' as u32) as nat
}

/// The value of a run of ASCII digits.
pub open spec fn digits_value(s: Seq<char>) -> nat
    decreases s.len(),
{
    if s.len() == 0 {
        0
    } else {
        digits_value(s.drop_last()) * 10 + digit_value(s.last())
    }
}

/// The digits after an optional leading `+`.
pub open spec fn unsigned_body(s: Seq<char>) -> Seq<char> {
    if s.len() > 0 && s[0] == '+' {
        s.skip(1)
    } else {
        s
    }
}

/// What reading `s` as a `usize` gives: an optional `+` and at least one
/// ASCII digit, with a value that fits.
pub open spec fn parse_usize_spec(s: Seq<char>) -> Option<usize> {
    let body = unsigned_body(s);
    if body.len() > 0 && (forall|i: int| 0 <= i < body.len() ==> is_digit(#[trigger] body[i]))
        && digits_value(body) <= usize::MAX {
        Some(digits_value(body) as usize)
    } else {
        None
    }
}

proof fn lemma_digit_char(d: nat)
    requires
        d < 10,
    ensures
        is_digit(digit_char(d)),
        digit_value(digit_char(d)) == d,
{
    let digits = seq!['0', '1', '2', '3', '4', '5', '6', '7', '8', '9'];
    assert(digits[0] == '0' && digits[1] == '1' && digits[2] == '2' && digits[3] == '3');
    assert(digits[4] == '4' && digits[5] == '5' && digits[6] == '6' && digits[7] == '7');
    assert(digits[8] == '8' && digits[9] == '9');
}

proof fn lemma_decimal_digits(n: nat)
    ensures
        decimal(n).len() > 0,
        forall|i: int| 0 <= i < decimal(n).len() ==> is_digit(#[trigger] decimal(n)[i]),
        digits_value(decimal(n)) == n,
    decreases n,
{
    if n < 10 {
        lemma_digit_char(n);
        assert(decimal(n).drop_last() =~= Seq::<char>::empty());
        assert(digits_value(decimal(n)) == digits_value(Seq::<char>::empty()) * 10 + digit_value(
            digit_char(n),
        ));
    } else {
        lemma_decimal_digits(n / 10);
        lemma_digit_char(n % 10);
        let s = decimal(n);
        assert(s.drop_last() =~= decimal(n / 10));
        assert(s.last() == digit_char(n % 10));
        assert((n / 10) * 10 + n % 10 == n) by (nonlinear_arith);
        assert(digits_value(s) == digits_value(decimal(n / 10)) * 10 + digit_value(s.last()));
        assert forall|i: int| 0 <= i < s.len() implies is_digit(#[trigger] s[i]) by {
            if i < s.len() - 1 {
                assert(s[i] == decimal(n / 10)[i]);
            }
        }
    }
}

/// The decimal text of any `usize` reads back as that same number, so a
/// number written to its linked text and read back is unchanged.
pub proof fn decimal_text_reads_back(n: usize)
    ensures
        parse_usize_spec(decimal(n as nat)) == Some(n),
{
    lemma_decimal_digits(n as nat);
    let s = decimal(n as nat);
    assert(is_digit(s[0]));
    assert(unsigned_body(s) == s);
}

/// Relies on `usize`'s `ToString` (through `Display`): decimal digits, no
/// sign, no padding.
#[verifier::external_body]
fn usize_to_string(n: usize) -> (r: String)
    ensures
        r@ == decimal(n as nat),
{
    n.to_string()
}

proof fn lemma_digits_value_grows(s: Seq<char>, j: int)
    requires
        0 <= j <= s.len(),
    ensures
        digits_value(s.subrange(0, j)) <= digits_value(s),
    decreases s.len() - j,
{
    if j < s.len() {
        lemma_digits_value_grows(s, j + 1);
        let p = s.subrange(0, j + 1);
        assert(p.drop_last() =~= s.subrange(0, j));
    } else {
        assert(s.subrange(0, j) =~= s);
    }
}

/// Reads `s` as a `usize`: an optional `+` and ASCII digits, with a value
/// that fits; anything else gives `None`.
pub fn parse_usize(s: &str) -> (r: Option<usize>)
    ensures
        r == parse_usize_spec(s@),
{
    let len = s.unicode_len();
    let mut start: usize = 0;
    if len > 0 && s.get_char(0) == '+' {
        start = 1;
    }
    let ghost body = unsigned_body(s@);
    proof {
        if start == 1 {
            assert(body =~= s@.skip(1));
        } else {
            assert(body =~= s@);
        }
    }
    if start == len {
        return None;
    }
    let mut value: usize = 0;
    let mut i: usize = start;
    while i < len
        invariant
            len == s@.len(),
            start <= i <= len,
            start < len,
            body == s@.skip(start as int),
            body == unsigned_body(s@),
            forall|k: int| 0 <= k < i - start ==> is_digit(#[trigger] body[k]),
            value as nat == digits_value(body.subrange(0, i - start)),
        decreases len - i,
    {
        let c = s.get_char(i);
        if c < '0' || c > '9' {
            proof {
                assert(body[i - start] == c);
                assert(!is_digit(body[i - start]));
                assert(!(forall|k: int| 0 <= k < body.len() ==> is_digit(#[trigger] body[k])));
                assert(parse_usize_spec(s@) is None);
            }
            return None;
        }
        let d = (c as u32 - '0' as u32) as usize;
        proof {
            let p = body.subrange(0, i - start + 1);
            assert(p.drop_last() =~= body.subrange(0, i - start));
            assert(p.last() == c);
        }
        if value > (usize::MAX - d) / 10 {
            proof {
                let p = body.subrange(0, i - start + 1);
                assert(digits_value(p) > usize::MAX) by (nonlinear_arith)
                    requires
                        digits_value(p) == value * 10 + d,
                        value > (usize::MAX - d) / 10,
                        d <= 9,
                ;
                lemma_digits_value_grows(body, i - start + 1);
                assert(digits_value(body) > usize::MAX);
                assert(parse_usize_spec(s@) is None);
            }
            return None;
        }
        proof {
            assert(value * 10 + d <= usize::MAX) by (nonlinear_arith)
                requires
                    value <= (usize::MAX - d) / 10,
                    d <= 9,
            ;
        }
        value = value * 10 + d;
        i = i + 1;
    }
    proof {
        assert(body.subrange(0, body.len() as int) =~= body);
    }
    Some(value)
}

/// The text shown for `value` in the linked text value.
pub fn usize_text(value: usize) -> (r: String)
    ensures
        r@ == decimal(value as nat),
{
    usize_to_string(value)
}

/// The number side of a number/text link changed: store its decimal text.
/// Returns whether the text changed.
pub fn number_to_text(number: usize, text: &mut State<String>) -> (r: bool)
    ensures
        final(text).value()@ == decimal(number as nat),
        r == (old(text).value()@ != decimal(number as nat)),
        r ==> final(text).advanced_from(old(text), final(text).value()),
        !r ==> *final(text) == *old(text),
{
    let mut s = usize_text(number);
    if text.wrapped.value == s {
        false
    } else {
        std::mem::swap(&mut text.wrapped.value, &mut s);
        text.note_changed();
        true
    }
}

/// The text side of a number/text link changed: when it reads as a number,
/// store that number. Text that does not read as a number leaves the number
/// as it is. Returns whether the number changed.
pub fn text_to_number(text: &str, number: &mut State<usize>) -> (r: bool)
    ensures
        match parse_usize_spec(text@) {
            None => !r && *final(number) == *old(number),
            Some(n) => if n == old(number).value() {
                !r && *final(number) == *old(number)
            } else {
                r && final(number).advanced_from(old(number), n)
            },
        },
{
    let parsed = parse_usize(text);
    apply_conversion(number, parsed)
}

} // verus!
