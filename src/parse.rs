use vstd::prelude::*;

verus! {

/// Whether a byte is an ASCII decimal digit.
pub open spec fn is_digit(b: u8) -> bool {
    48 <= b && b <= 57
}

/// Whether every byte of `d` is an ASCII decimal digit.
pub open spec fn all_digits(d: Seq<u8>) -> bool {
    forall|i: int| 0 <= i < d.len() ==> is_digit(#[trigger] d[i])
}

/// The number that a run of decimal digits spells, most significant first.
pub open spec fn digits_value(d: Seq<u8>) -> nat
    decreases d.len(),
{
    if d.len() == 0 {
        0
    } else {
        (digits_value(d.drop_last()) * 10 + (d.last() - 48)) as nat
    }
}

/// The digits of a text: everything after a leading `+`, if there is one.
pub open spec fn digit_part(b: Seq<u8>) -> Seq<u8> {
    if b.len() > 0 && b[0] == 43 {
        b.drop_first()
    } else {
        b
    }
}

/// Whether a text is an index: an optional `+`, then one or more decimal
/// digits, whose value fits in a `usize`. No sign `-`, no blanks.
pub open spec fn is_index_text(b: Seq<u8>) -> bool {
    let d = digit_part(b);
    &&& d.len() > 0
    &&& all_digits(d)
    &&& digits_value(d) <= usize::MAX
}

/// The index that a text selects: its value where it is an index text, and
/// zero for any other text.
pub open spec fn index_of_text(b: Seq<u8>) -> nat {
    if is_index_text(b) {
        digits_value(digit_part(b))
    } else {
        0
    }
}

proof fn lemma_digits_value_prefix(d: Seq<u8>, i: int, j: int)
    requires
        0 <= i <= j <= d.len(),
        all_digits(d),
    ensures
        digits_value(d.subrange(0, i)) <= digits_value(d.subrange(0, j)),
    decreases j - i,
{
    if i < j {
        lemma_digits_value_prefix(d, i, j - 1);
        assert(d.subrange(0, j).drop_last() =~= d.subrange(0, j - 1));
        assert(is_digit(d[j - 1]));
    }
}

/// Reads a decimal index from raw text bytes: `Some` with its value where the
/// text is an index text, `None` otherwise.
pub fn parse_index_bytes(b: &[u8]) -> (r: Option<usize>)
    ensures
        r is Some <==> is_index_text(b@),
        r matches Some(v) ==> v as nat == digits_value(digit_part(b@)),
{
    let start: usize = if b.len() > 0 && b[0] == 43u8 { 1 } else { 0 };
    let ghost d = digit_part(b@);
    assert(d =~= b@.subrange(start as int, b@.len() as int));
    if start >= b.len() {
        return None;
    }
    let mut value: usize = 0;
    let mut i: usize = start;
    while i < b.len()
        invariant
            start <= i <= b.len(),
            d == digit_part(b@),
            d =~= b@.subrange(start as int, b@.len() as int),
            all_digits(d.subrange(0, i - start)),
            value as nat == digits_value(d.subrange(0, i - start)),
        decreases b.len() - i,
    {
        let c = b[i];
        assert(d[i - start] == c);
        if c < 48u8 || c > 57u8 {
            assert(!all_digits(d));
            return None;
        }
        let digit: usize = (c - 48u8) as usize;
        let ghost next = d.subrange(0, i + 1 - start);
        assert(next.drop_last() =~= d.subrange(0, i - start));
        assert(next.last() == c);
        assert(digits_value(next) == value * 10 + digit);
        if value > (usize::MAX - digit) / 10 {
            proof {
                assert(value * 10 + digit > usize::MAX) by (nonlinear_arith)
                    requires
                        value > (usize::MAX - digit) / 10,
                        digit <= 9,
                ;
                if all_digits(d) {
                    lemma_digits_value_prefix(d, i + 1 - start, d.len() as int);
                    assert(d.subrange(0, d.len() as int) =~= d);
                }
            }
            return None;
        }
        value = value * 10 + digit;
        i = i + 1;
    }
    assert(d.subrange(0, i - start) =~= d);
    Some(value)
}

} // verus!
