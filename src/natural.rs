use malachite::num::conversion::string::options::ToSciOptions;
use malachite::num::conversion::traits::ToSci;
use malachite::Natural;
use vstd::prelude::*;

verus! {

/// The number that a little-endian sequence of 64-bit limbs stands for.
pub open spec fn limbs_value(limbs: Seq<u64>) -> nat
    decreases limbs.len(),
{
    if limbs.len() == 0 {
        0
    } else {
        (limbs[0] + 0x1_0000_0000_0000_0000 * limbs_value(limbs.drop_first())) as nat
    }
}

/// The text that malachite writes for a natural number in scientific notation
/// with the given number of significant digits.
pub uninterp spec fn sci_text(value: nat, precision: nat) -> Seq<char>;

/// A natural number of any size, held as its limbs, least significant first.
pub struct BigNat {
    pub limbs: Vec<u64>,
}

impl View for BigNat {
    type V = nat;

    open spec fn view(&self) -> nat {
        limbs_value(self.limbs@)
    }
}

/// Relies on malachite's `Natural` addition, reached through
/// `Natural::from_limbs_asc` and `Natural::to_limbs_asc`: the limbs of the sum.
#[verifier::external_body]
fn add_limbs(a: &Vec<u64>, b: &Vec<u64>) -> (r: Vec<u64>)
    ensures
        limbs_value(r@) == limbs_value(a@) + limbs_value(b@),
{
    (Natural::from_limbs_asc(a) + Natural::from_limbs_asc(b)).to_limbs_asc()
}

/// Relies on malachite's `ToSci::to_sci_with_options` for `Natural`, with the
/// size option set to `precision` significant digits (which must not be zero)
/// and the other options at their defaults: the text depends on the value and
/// the precision alone.
#[verifier::external_body]
fn sci_limbs(a: &Vec<u64>, precision: u64) -> (r: String)
    requires
        precision > 0,
    ensures
        r@ == sci_text(limbs_value(a@), precision as nat),
{
    let mut options = ToSciOptions::default();
    options.set_precision(precision);
    Natural::from_limbs_asc(a).to_sci_with_options(options).to_string()
}

impl BigNat {
    /// A natural number of the value of a machine word.
    pub fn from_u64(v: u64) -> (r: BigNat)
        ensures
            r@ == v as nat,
    {
        let r = BigNat { limbs: vec![v] };
        proof {
            assert(r.limbs@.drop_first() =~= Seq::<u64>::empty());
            assert(limbs_value(Seq::<u64>::empty()) == 0);
            assert(r.limbs@[0] == v);
        }
        r
    }

    /// The sum of two natural numbers.
    pub fn add(&self, other: &BigNat) -> (r: BigNat)
        ensures
            r@ == self@ + other@,
    {
        BigNat { limbs: add_limbs(&self.limbs, &other.limbs) }
    }

    /// The number in scientific notation with `precision` significant digits.
    pub fn to_sci(&self, precision: u64) -> (r: String)
        requires
            precision > 0,
        ensures
            r@ == sci_text(self@, precision as nat),
    {
        sci_limbs(&self.limbs, precision)
    }
}

} // verus!
