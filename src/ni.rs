use crate::banding::{banded_charge, charge, lemma_charge_monotone, min, rates_valid, share, Band};
use crate::tax_years::TaxYear;
use vstd::prelude::*;

verus! {

/// Pence of gross income above the primary threshold, never negative.
pub open spec fn ni_earnings(gross_income: int, year: TaxYear) -> int {
    let threshold = 100 * year.ni_primary_threshold;
    if gross_income <= threshold {
        0
    } else {
        gross_income - threshold
    }
}

/// Class 1 employee contributions in pence on `gross_income` pence:
/// earnings above the primary threshold, up to the upper earnings limit at the
/// primary rate, the rest at the upper rate, each part rounded to the penny
/// before they are added.
pub open spec fn national_insurance_due(gross_income: int, year: TaxYear) -> int {
    let earnings = ni_earnings(gross_income, year);
    let primary_band = 100 * (year.ni_upper_earnings_limit - year.ni_primary_threshold);
    let in_primary = min(earnings, primary_band);
    share(in_primary, year.ni_primary_rate as int) + share(
        earnings - in_primary,
        year.ni_upper_rate as int,
    )
}

/// The one bounded band of National Insurance, at the primary rate.
pub open spec fn ni_bands(year: TaxYear) -> Seq<Band> {
    seq![
        Band {
            width: (100 * (year.ni_upper_earnings_limit - year.ni_primary_threshold)) as u64,
            rate: year.ni_primary_rate,
        },
    ]
}

/// National Insurance is the banded charge over the primary band and the
/// open-ended upper band.
pub proof fn lemma_national_insurance_is_banded(gross_income: int, year: TaxYear)
    requires
        year.wf(),
    ensures
        rates_valid(ni_bands(year), year.ni_upper_rate as int),
        national_insurance_due(gross_income, year) == charge(
            ni_earnings(gross_income, year),
            ni_bands(year),
            year.ni_upper_rate as int,
        ),
{
    assert(ni_bands(year).drop_first() =~= Seq::<Band>::empty());
    reveal_with_fuel(charge, 2);
}

/// For a fixed year, National Insurance never falls as gross income rises.
pub proof fn national_insurance_monotone(gross_low: int, gross_high: int, year: TaxYear)
    requires
        year.wf(),
        0 <= gross_low <= gross_high,
    ensures
        national_insurance_due(gross_low, year) <= national_insurance_due(gross_high, year),
{
    lemma_national_insurance_is_banded(gross_low, year);
    lemma_national_insurance_is_banded(gross_high, year);
    lemma_charge_monotone(
        ni_earnings(gross_low, year),
        ni_earnings(gross_high, year),
        ni_bands(year),
        year.ni_upper_rate as int,
    );
}

/// Calculates Class 1 employee National Insurance contributions, in pence, on
/// a gross annual income in pence.
///
/// The third argument is not used; it keeps the call shaped like
/// `income_tax`, and `None` may be passed.
pub fn national_insurance(gross_income: u64, year: &TaxYear, _personal_allowance: Option<u32>) -> (r:
    u64)
    requires
        year.wf(),
    ensures
        r == national_insurance_due(gross_income as int, *year),
{
    let threshold: u64 = year.ni_primary_threshold as u64 * 100;
    let earnings: u64 = if gross_income <= threshold {
        0
    } else {
        gross_income - threshold
    };
    let primary_band: u64 = (year.ni_upper_earnings_limit - year.ni_primary_threshold) as u64 * 100;
    let bands = vec![Band { width: primary_band, rate: year.ni_primary_rate }];
    proof {
        lemma_national_insurance_is_banded(gross_income as int, *year);
        assert(bands@ =~= ni_bands(*year));
    }
    banded_charge(earnings, &bands, year.ni_upper_rate)
}

} // verus!
