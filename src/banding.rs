use vstd::prelude::*;

verus! {

/// A rate of 100%, in basis points: every rate in this crate is a count of
/// hundredths of a percent.
pub const FULL_RATE: u32 = 10_000;

/// A band of bounded width: `width` pence charged at `rate` basis points.
#[derive(Clone, Copy, Debug, PartialEq, Eq)]
pub struct Band {
    pub width: u64,
    pub rate: u32,
}

/// The smaller of two integers.
pub open spec fn min(a: int, b: int) -> int {
    if a <= b {
        a
    } else {
        b
    }
}

/// `amount` pence charged at `rate` basis points, rounded to the nearest
/// penny, halves away from zero.
pub open spec fn share(amount: int, rate: int) -> int {
    (amount * rate + 5000) / 10000
}

/// What `taxable` pence owe across `bands`, taken in order, with whatever
/// is left over charged at `open_rate`. Each band's part is rounded on its own
/// before the parts are added up.
pub open spec fn charge(taxable: int, bands: Seq<Band>, open_rate: int) -> int
    decreases bands.len(),
{
    if bands.len() == 0 {
        share(taxable, open_rate)
    } else {
        let used = if taxable <= bands[0].width {
            taxable
        } else {
            bands[0].width as int
        };
        share(used, bands[0].rate as int) + charge(taxable - used, bands.drop_first(), open_rate)
    }
}

/// Every rate lies between 0% and 100%.
pub open spec fn rates_valid(bands: Seq<Band>, open_rate: int) -> bool {
    &&& forall|i: int| 0 <= i < bands.len() ==> #[trigger] bands[i].rate <= FULL_RATE
    &&& open_rate <= FULL_RATE
}

/// A share of a non-negative amount at a valid rate lies between zero and
/// the amount itself, and grows with the amount.
pub proof fn lemma_share_bounds(a: int, b: int, rate: int)
    requires
        0 <= a <= b,
        0 <= rate <= FULL_RATE,
    ensures
        0 <= share(a, rate) <= a,
        share(a, rate) <= share(b, rate),
        share(0, rate) == 0,
{
    assert(0 <= a * rate <= b * rate) by (nonlinear_arith)
        requires
            0 <= a <= b,
            0 <= rate,
    ;
    assert(a * rate <= a * 10000) by (nonlinear_arith)
        requires
            0 <= a,
            rate <= 10000,
    ;
    assert((a * rate + 5000) / 10000 <= (b * rate + 5000) / 10000) by (nonlinear_arith)
        requires
            a * rate <= b * rate,
    ;
    assert((a * rate + 5000) / 10000 <= (a * 10000 + 5000) / 10000) by (nonlinear_arith)
        requires
            a * rate <= a * 10000,
    ;
    assert((a * 10000 + 5000) / 10000 == a) by (nonlinear_arith);
}

/// What is charged lies between zero and the taxable amount itself.
pub proof fn lemma_charge_bounds(taxable: int, bands: Seq<Band>, open_rate: int)
    requires
        0 <= taxable,
        0 <= open_rate,
        rates_valid(bands, open_rate),
    ensures
        0 <= charge(taxable, bands, open_rate) <= taxable,
        taxable == 0 ==> charge(taxable, bands, open_rate) == 0,
    decreases bands.len(),
{
    if bands.len() == 0 {
        lemma_share_bounds(taxable, taxable, open_rate);
    } else {
        let used = if taxable <= bands[0].width {
            taxable
        } else {
            bands[0].width as int
        };
        assert(bands[0].rate <= FULL_RATE);
        lemma_share_bounds(used, used, bands[0].rate as int);
        let rest = bands.drop_first();
        assert forall|i: int| 0 <= i < rest.len() implies #[trigger] rest[i].rate <= FULL_RATE by {
            assert(rest[i] == bands[i + 1]);
        }
        lemma_charge_bounds(taxable - used, rest, open_rate);
    }
}

/// The more there is to charge, the more is charged.
pub proof fn lemma_charge_monotone(t1: int, t2: int, bands: Seq<Band>, open_rate: int)
    requires
        0 <= t1 <= t2,
        0 <= open_rate,
        rates_valid(bands, open_rate),
    ensures
        charge(t1, bands, open_rate) <= charge(t2, bands, open_rate),
    decreases bands.len(),
{
    if bands.len() == 0 {
        lemma_share_bounds(t1, t2, open_rate);
    } else {
        let w = bands[0].width as int;
        let u1 = if t1 <= w { t1 } else { w };
        let u2 = if t2 <= w { t2 } else { w };
        assert(bands[0].rate <= FULL_RATE);
        lemma_share_bounds(u1, u2, bands[0].rate as int);
        let rest = bands.drop_first();
        assert forall|i: int| 0 <= i < rest.len() implies #[trigger] rest[i].rate <= FULL_RATE by {
            assert(rest[i] == bands[i + 1]);
        }
        if t1 <= w {
            lemma_charge_bounds(0, rest, open_rate);
            lemma_charge_bounds(t2 - u2, rest, open_rate);
        } else {
            lemma_charge_monotone(t1 - w, t2 - w, rest, open_rate);
        }
    }
}

/// `amount` pence charged at `rate` basis points, rounded to the nearest penny.
pub fn rounded_share(amount: u64, rate: u32) -> (r: u64)
    requires
        rate <= FULL_RATE,
    ensures
        r == share(amount as int, rate as int),
        r <= amount,
{
    proof {
        lemma_share_bounds(amount as int, amount as int, rate as int);
    }
    let product: u128 = amount as u128 * rate as u128;
    let r: u128 = (product + 5000) / 10000;
    r as u64
}

/// Charges `taxable` pence across `bands` in order, the part left after the
/// last band at `open_rate`, rounding each band's part to the penny on its own.
pub fn banded_charge(taxable: u64, bands: &Vec<Band>, open_rate: u32) -> (r: u64)
    requires
        rates_valid(bands@, open_rate as int),
    ensures
        r == charge(taxable as int, bands@, open_rate as int),
        r <= taxable,
{
    let mut total: u64 = 0;
    let mut remaining: u64 = taxable;
    let mut i: usize = 0;
    assert(bands@.skip(0) =~= bands@);
    while i < bands.len()
        invariant
            i <= bands.len(),
            rates_valid(bands@, open_rate as int),
            total + remaining <= taxable,
            total + charge(remaining as int, bands@.skip(i as int), open_rate as int) == charge(
                taxable as int,
                bands@,
                open_rate as int,
            ),
        decreases bands.len() - i,
    {
        let band = bands[i];
        let used: u64 = if remaining <= band.width {
            remaining
        } else {
            band.width
        };
        assert(bands@[i as int].rate <= FULL_RATE);
        let part = rounded_share(used, band.rate);
        assert(bands@.skip(i as int).drop_first() =~= bands@.skip(i as int + 1));
        total = total + part;
        remaining = remaining - used;
        i = i + 1;
    }
    assert(bands@.skip(i as int).len() == 0);
    let last = rounded_share(remaining, open_rate);
    total + last
}

} // verus!
