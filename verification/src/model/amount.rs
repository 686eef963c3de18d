//! Money as a signed count of pence, and its wire text: whole pounds, or
//! pounds with exactly two digits of pence.

use vstd::prelude::*;
use vstd::string::*;

use crate::model::decimal::{
    all_digits, decimal, digit_char, digit_value, digits_value, is_digit, lemma_decimal_value,
    lemma_digit_char, lemma_digits_value_nonnegative, lemma_digits_value_push, push_decimal,
    push_two_digits,
};

verus! {

/// The smallest whole-pound value the wire text could hold; only whole parts
/// strictly above it are accepted.
pub const MIN_AMOUNT_POUNDS: i64 = -92233720368547758;

/// The largest whole-pound value the wire text could hold; only whole parts
/// strictly below it are accepted.
pub const MAX_AMOUNT_POUNDS: i64 = 92233720368547758;

/// An amount of money, held as a signed number of pence.
#[derive(Debug, Clone, Copy, PartialEq, Eq, Structural, PartialOrd)]
pub struct Amount {
    amount: i64,
}

/// Why a text is not an amount. Both are the one condition "invalid amount";
/// the variant says which rule the text broke.
#[derive(Debug, Clone, Copy, PartialEq, Eq, Structural)]
pub enum AmountError {
    /// The whole part is at or beyond the bound in either direction.
    InvalidAmount,
    /// The text is not a signed integer, optionally followed by a point and
    /// exactly two digits.
    FailedToParse,
}

impl View for Amount {
    type V = int;

    /// The amount in pence.
    closed spec fn view(&self) -> int {
        self.amount as int
    }
}

impl Amount {
    /// The pence of an amount fit in 64 bits, sign included.
    pub proof fn lemma_view_in_range(self)
        ensures
            i64::MIN <= self@ <= i64::MAX,
    {
    }
}

/// The text starts with a minus sign.
pub open spec fn is_negative_text(s: Seq<char>) -> bool {
    s.len() > 0 && s[0] == '-'
}

/// The text without its minus sign, if it has one.
pub open spec fn unsigned_part(s: Seq<char>) -> Seq<char> {
    if is_negative_text(s) {
        s.skip(1)
    } else {
        s
    }
}

/// The unsigned text has a point in the place where two digits of pence
/// would follow it.
pub open spec fn has_fraction(body: Seq<char>) -> bool {
    body.len() >= 3 && body[body.len() - 3] == '.'
}

/// The part of the unsigned text that must be the whole pounds.
pub open spec fn whole_part(body: Seq<char>) -> Seq<char> {
    if has_fraction(body) {
        body.take(body.len() - 3)
    } else {
        body
    }
}

/// The pence that the two digits after the point write; zero without them.
pub open spec fn fraction_value(body: Seq<char>) -> int {
    if has_fraction(body) {
        10 * digit_value(body[body.len() - 2]) + digit_value(body[body.len() - 1])
    } else {
        0
    }
}

/// The grammar of an amount: an optional minus sign, one or more digits,
/// and then either nothing or a point and exactly two digits.
pub open spec fn well_formed(s: Seq<char>) -> bool {
    let body = unsigned_part(s);
    &&& whole_part(body).len() > 0
    &&& all_digits(whole_part(body))
    &&& has_fraction(body) ==> is_digit(body[body.len() - 2]) && is_digit(body[body.len() - 1])
}

/// The whole pounds that a well-formed text writes, without the sign.
pub open spec fn whole_value(s: Seq<char>) -> int {
    digits_value(whole_part(unsigned_part(s)))
}

/// The pence that a well-formed text stands for. The sign covers pounds and
/// pence alike.
pub open spec fn text_value(s: Seq<char>) -> int {
    let magnitude = 100 * whole_value(s) + fraction_value(unsigned_part(s));
    if is_negative_text(s) {
        -magnitude
    } else {
        magnitude
    }
}

/// What parsing makes of a text: the pence it stands for, or the rule it
/// breaks. The grammar is judged first, the bound second.
pub open spec fn parse_spec(s: Seq<char>) -> Result<int, AmountError> {
    if !well_formed(s) {
        Err(AmountError::FailedToParse)
    } else if whole_value(s) >= MAX_AMOUNT_POUNDS {
        Err(AmountError::InvalidAmount)
    } else {
        Ok(text_value(s))
    }
}

/// The size of `pence` without its sign.
pub open spec fn magnitude(pence: int) -> int {
    if pence < 0 {
        -pence
    } else {
        pence
    }
}

/// The wire text of `pence`: a minus sign if it is negative, the whole
/// pounds, a point, and two digits of pence.
pub open spec fn amount_text(pence: int) -> Seq<char> {
    let m = magnitude(pence);
    sign_text(pence < 0) + decimal(m / 100) + seq!['.', digit_char((m % 100) / 10), digit_char(m % 10)]
}

/// The amounts that the wire text can carry: those whose whole pounds lie
/// strictly inside the bound.
pub open spec fn in_wire_range(pence: int) -> bool {
    magnitude(pence) / 100 < MAX_AMOUNT_POUNDS
}

/// A well-formed text holds nothing but a minus sign, digits and a point.
pub proof fn lemma_well_formed_is_ascii(s: Seq<char>)
    requires
        well_formed(s),
    ensures
        vstd::utf8::is_ascii_chars(s),
{
    let body = unsigned_part(s);
    let whole = whole_part(body);
    let shift = s.len() - body.len();
    assert forall|i: int| 0 <= i < s.len() implies '\0' <= #[trigger] s[i] <= '\u{7f}' by {
        if i >= shift {
            let j = i - shift;
            assert(s[i] == body[j]);
            if j < whole.len() {
                assert(is_digit(whole[j]));
                assert(whole[j] == body[j]);
            }
        }
    }
}

/// The minus sign of a negative text, and nothing for any other.
pub open spec fn sign_text(negative: bool) -> Seq<char> {
    if negative {
        seq!['-']
    } else {
        Seq::<char>::empty()
    }
}

/// Reading the wire text of an amount gives that amount back, for every
/// amount that the wire text can carry.
pub proof fn lemma_parse_inverts_text(pence: int)
    requires
        in_wire_range(pence),
    ensures
        parse_spec(amount_text(pence)) == Ok::<int, AmountError>(pence),
{
    let m = magnitude(pence);
    let whole = decimal(m / 100);
    let tail = seq!['.', digit_char((m % 100) / 10), digit_char(m % 10)];
    let s = amount_text(pence);
    lemma_decimal_value(m / 100);
    lemma_digit_char((m % 100) / 10);
    lemma_digit_char(m % 10);
    assert(s =~= sign_text(pence < 0) + whole + tail);
    assert(is_digit(whole[0]));
    if pence < 0 {
        assert(s[0] == '-');
    } else {
        assert(s[0] == whole[0]);
    }
    let body = unsigned_part(s);
    assert(body =~= whole + tail);
    assert(body[body.len() - 3] == tail[0]);
    assert(body[body.len() - 2] == tail[1]);
    assert(body[body.len() - 1] == tail[2]);
    assert(whole_part(body) =~= whole);
}

/// A point followed by any number of digits but two is no amount, whatever
/// the sign and the whole part.
pub proof fn lemma_fraction_needs_two_digits(
    negative: bool,
    whole: Seq<char>,
    fraction: Seq<char>,
)
    requires
        whole.len() > 0,
        all_digits(whole),
        all_digits(fraction),
        fraction.len() != 2,
    ensures
        parse_spec(sign_text(negative) + whole + seq!['.'] + fraction) == Err::<
            int,
            AmountError,
        >(AmountError::FailedToParse),
{
    let s = sign_text(negative) + whole + seq!['.'] + fraction;
    assert(is_digit(whole[0]));
    if !negative {
        assert(s[0] == whole[0]);
    } else {
        assert(s[0] == '-');
    }
    let body = unsigned_part(s);
    assert(body =~= whole + seq!['.'] + fraction);
    let point = whole.len() as int;
    assert(body[point] == '.');
    if has_fraction(body) {
        let at = body.len() - 3;
        if at < point {
            assert(body[at] == whole[at]);
            assert(is_digit(whole[at]));
        } else if at > point {
            assert(body[at] == fraction[at - point - 1]);
            assert(is_digit(fraction[at - point - 1]));
        }
        assert(false);
    }
    assert(whole_part(body)[point] == '.');
}

/// A whole part at the bound or beyond it is refused, exactly at the bound
/// too, whether or not pence follow.
pub proof fn lemma_bound_is_exclusive(s: Seq<char>)
    requires
        well_formed(s),
        whole_value(s) >= MAX_AMOUNT_POUNDS,
    ensures
        parse_spec(s) == Err::<int, AmountError>(AmountError::InvalidAmount),
{
}

/// Every amount that parsing accepts lies inside the wire range, and so
/// inside the range of the pence that an amount can hold.
pub proof fn lemma_parsed_in_wire_range(s: Seq<char>)
    requires
        parse_spec(s) is Ok,
    ensures
        in_wire_range(parse_spec(s)->Ok_0),
        i64::MIN < parse_spec(s)->Ok_0 < i64::MAX,
{
    let body = unsigned_part(s);
    lemma_digits_value_nonnegative(whole_part(body));
}

impl AmountError {
    /// The text of [`AmountError::message`].
    pub open spec fn message_spec(self) -> Seq<char> {
        match self {
            AmountError::InvalidAmount => "Invalid amount"@,
            AmountError::FailedToParse => "Failed to parse"@,
        }
    }

    /// The reason in words.
    pub fn message(&self) -> (m: String)
        ensures
            m@ == self.message_spec(),
    {
        match self {
            AmountError::InvalidAmount => String::from_str("Invalid amount"),
            AmountError::FailedToParse => String::from_str("Failed to parse"),
        }
    }
}

impl Amount {
    pub fn from_pence(amount: i64) -> (r: Amount)
        ensures
            r@ == amount,
    {
        Amount { amount }
    }

    pub fn is_positive_nonzero(&self) -> (b: bool)
        ensures
            b == (self@ > 0),
    {
        self.amount > 0
    }

    pub fn is_negative(&self) -> (b: bool)
        ensures
            b == (self@ < 0),
    {
        self.amount < 0
    }

    /// The pence as the ledger stores them.
    pub fn serialize_for_db(&self) -> (pence: i64)
        ensures
            pence == self@,
    {
        self.amount
    }

    /// The amount that the ledger stored as `amount` pence.
    pub fn deserialize_from_db(amount: i64) -> (r: Amount)
        ensures
            r@ == amount,
    {
        Amount { amount }
    }

    /// The amount with its sign turned. The one amount whose opposite does
    /// not fit, the least of all, gives the greatest.
    pub fn negate(&self) -> (r: Amount)
        ensures
            r@ == if self@ == i64::MIN {
                i64::MAX as int
            } else {
                -self@
            },
    {
        if self.amount == i64::MIN {
            Amount { amount: i64::MAX }
        } else {
            Amount { amount: -self.amount }
        }
    }

    /// The size of the amount without its sign.
    fn unsigned_pence(&self) -> (m: u64)
        ensures
            m == magnitude(self@),
    {
        if self.amount < 0 {
            (-(self.amount + 1)) as u64 + 1
        } else {
            self.amount as u64
        }
    }

    /// Reads the digits of `text` from `from` up to `to`. Gives the number
    /// they write, held at the bound once it is reached, or nothing if
    /// one of the characters is no digit.
    fn read_whole(text: &str, from: usize, to: usize) -> (r: Option<u64>)
        requires
            text.is_ascii(),
            from <= to <= text@.len(),
        ensures
            r is Some <==> all_digits(text@.subrange(from as int, to as int)),
            r matches Some(v) ==> v == if digits_value(text@.subrange(from as int, to as int))
                >= MAX_AMOUNT_POUNDS {
                MAX_AMOUNT_POUNDS as int
            } else {
                digits_value(text@.subrange(from as int, to as int))
            },
    {
        let mut value: u64 = 0;
        let mut i: usize = from;
        while i < to
            invariant
                text.is_ascii(),
                from <= i <= to <= text@.len(),
                all_digits(text@.subrange(from as int, i as int)),
                value == if digits_value(text@.subrange(from as int, i as int))
                    >= MAX_AMOUNT_POUNDS {
                    MAX_AMOUNT_POUNDS as int
                } else {
                    digits_value(text@.subrange(from as int, i as int))
                },
            decreases to - i,
        {
            let b: u8 = text.get_ascii(i);
            let ghost seen = text@.subrange(from as int, i as int);
            let ghost next = text@.subrange(from as int, i as int + 1);
            proof {
                assert(next =~= seen.push(text@[i as int]));
                lemma_digits_value_push(seen, text@[i as int]);
                lemma_digits_value_nonnegative(seen);
            }
            if b < 48 || b > 57 {
                proof {
                    let whole = text@.subrange(from as int, to as int);
                    assert(whole[i - from] == text@[i as int]);
                    assert(!is_digit(whole[i - from]));
                }
                return None;
            }
            assert(is_digit(text@[i as int]));
            assert(digit_value(text@[i as int]) == b - 48);
            assert(all_digits(next)) by {
                assert forall|j: int| 0 <= j < next.len() implies is_digit(#[trigger] next[j]) by {
                    if j < seen.len() {
                        assert(next[j] == seen[j]);
                    }
                }
            }
            if value < MAX_AMOUNT_POUNDS as u64 {
                value = value * 10 + (b - 48) as u64;
                if value > MAX_AMOUNT_POUNDS as u64 {
                    value = MAX_AMOUNT_POUNDS as u64;
                }
            }
            i = i + 1;
        }
        Some(value)
    }

    /// Reads an amount from its wire text: whole pounds, or pounds with
    /// exactly two digits of pence, with a minus sign in front for a
    /// negative amount.
    pub fn parse(text: &str) -> (r: Result<Amount, AmountError>)
        ensures
            r matches Ok(a) ==> parse_spec(text@) == Ok::<int, AmountError>(a@),
            r matches Err(e) ==> parse_spec(text@) == Err::<int, AmountError>(e),
    {
        if !text.is_ascii() {
            proof {
                if well_formed(text@) {
                    lemma_well_formed_is_ascii(text@);
                }
            }
            return Err(AmountError::FailedToParse);
        }
        proof {
            is_ascii_spec_bytes(text);
        }
        let len: usize = text.as_bytes().len();
        assert(len == text@.len());
        let negative: bool = len > 0 && text.get_ascii(0) == 45;
        assert(negative == is_negative_text(text@));
        let start: usize = if negative {
            1
        } else {
            0
        };
        let ghost body = unsigned_part(text@);
        assert(body =~= text@.subrange(start as int, len as int));
        let fraction: bool = len - start >= 3 && text.get_ascii(len - 3) == 46;
        assert(fraction == has_fraction(body)) by {
            if len - start >= 3 {
                assert(body[body.len() - 3] == text@[len - 3]);
            }
        }
        let whole_end: usize = if fraction {
            len - 3
        } else {
            len
        };
        assert(whole_part(body) =~= text@.subrange(start as int, whole_end as int));
        if whole_end == start {
            return Err(AmountError::FailedToParse);
        }
        let pounds: u64 = match Self::read_whole(text, start, whole_end) {
            Some(v) => v,
            None => {
                return Err(AmountError::FailedToParse);
            },
        };
        let mut pence: u64 = 0;
        if fraction {
            let tens: u8 = text.get_ascii(len - 2);
            let units: u8 = text.get_ascii(len - 1);
            assert(body[body.len() - 2] == text@[len - 2]);
            assert(body[body.len() - 1] == text@[len - 1]);
            if tens < 48 || tens > 57 || units < 48 || units > 57 {
                return Err(AmountError::FailedToParse);
            }
            pence = (tens - 48) as u64 * 10 + (units - 48) as u64;
        }
        assert(well_formed(text@));
        assert(pence == fraction_value(body));
        if pounds >= MAX_AMOUNT_POUNDS as u64 {
            return Err(AmountError::InvalidAmount);
        }
        let size: i64 = (pounds * 100 + pence) as i64;
        let amount: i64 = if negative {
            -size
        } else {
            size
        };
        Ok(Amount { amount })
    }

    /// The wire text of the amount.
    pub fn to_string(&self) -> (s: String)
        ensures
            s@ == amount_text(self@),
    {
        let m: u64 = self.unsigned_pence();
        let mut s = String::new();
        if self.amount < 0 {
            s.push('-');
        }
        let ghost sign = s@;
        push_decimal(&mut s, m / 100);
        s.push('.');
        push_two_digits(&mut s, m % 100);
        proof {
            let tail = seq!['.', digit_char((m as int % 100) / 10), digit_char(m as int % 10)];
            assert(s@ =~= sign + decimal(m as int / 100) + tail);
            assert(sign =~= if self@ < 0 {
                seq!['-']
            } else {
                Seq::<char>::empty()
            });
        }
        s
    }
}

/// The sum of two counts of pence, held at the nearest end of the range of
/// an amount when it would leave that range.
pub open spec fn saturating_sum(a: int, b: int) -> int {
    if a + b > i64::MAX {
        i64::MAX as int
    } else if a + b < i64::MIN {
        i64::MIN as int
    } else {
        a + b
    }
}

impl core::ops::Add for Amount {
    type Output = Amount;

    /// The sum of two amounts. A sum beyond what an amount can hold is the
    /// greatest or the least amount, whichever is nearer: it never wraps.
    fn add(self, rhs: Amount) -> (r: Amount)
        ensures
            r@ == saturating_sum(self@, rhs@),
    {
        match self.amount.checked_add(rhs.amount) {
            Some(sum) => Amount { amount: sum },
            None => if rhs.amount > 0 {
                Amount { amount: i64::MAX }
            } else {
                Amount { amount: i64::MIN }
            },
        }
    }
}

impl vstd::std_specs::ops::AddSpecImpl for Amount {
    open spec fn obeys_add_spec() -> bool {
        true
    }

    open spec fn add_req(self, rhs: Amount) -> bool {
        true
    }

    closed spec fn add_spec(self, rhs: Amount) -> Amount {
        Amount { amount: saturating_sum(self.amount as int, rhs.amount as int) as i64 }
    }
}

} // verus!
