use crate::banding::{banded_charge, charge, lemma_charge_monotone, min, rates_valid, share, Band};
use crate::tax_years::TaxYear;
use vstd::prelude::*;

verus! {

/// Above this gross income (in pence, that is £100,000) the personal
/// allowance tapers away, and the caller must supply the tapered allowance.
pub const ALLOWANCE_REQUIRED_ABOVE: u64 = 10_000_000;

/// Why Income Tax could not be computed.
#[derive(Clone, Copy, Debug, PartialEq, Eq)]
pub enum TaxError {
    /// The gross income exceeds £100,000 and no personal allowance was given.
    MissingPersonalAllowance,
}

impl TaxError {
    /// A sentence that describes the error.
    pub fn message(&self) -> (r: &'static str) {
        match self {
            TaxError::MissingPersonalAllowance => {
                "A personal allowance must be specified for incomes greater than £100,000."
            },
        }
    }
}

/// The personal allowance in pounds: the one given, or else the year's own.
pub open spec fn effective_allowance(year: TaxYear, personal_allowance: Option<u32>) -> int {
    match personal_allowance {
        Some(a) => a as int,
        None => year.personal_allowance as int,
    }
}

/// The allowance does not exceed the upper limit of the basic-rate band.
pub open spec fn allowance_fits(year: TaxYear, personal_allowance: Option<u32>) -> bool {
    effective_allowance(year, personal_allowance) <= year.higher_rate_threshold
}

/// Whether the call must fail for want of an explicit allowance.
pub open spec fn allowance_missing(gross_income: int, personal_allowance: Option<u32>) -> bool {
    gross_income > ALLOWANCE_REQUIRED_ABOVE && personal_allowance is None
}

/// Pence of gross income above the allowance, never negative.
pub open spec fn taxable_income(gross_income: int, year: TaxYear, personal_allowance: Option<u32>) -> int {
    let allowance = 100 * effective_allowance(year, personal_allowance);
    if gross_income <= allowance {
        0
    } else {
        gross_income - allowance
    }
}

/// Income Tax in pence on `gross_income` pence: the taxable income filled
/// into the basic band (allowance up to the higher-rate threshold), then the
/// higher band (up to the additional-rate threshold), the rest at the
/// additional rate, each band's tax rounded to the penny before they are added.
pub open spec fn income_tax_due(gross_income: int, year: TaxYear, personal_allowance: Option<u32>) -> int {
    let taxable = taxable_income(gross_income, year, personal_allowance);
    let basic_band = 100 * (year.higher_rate_threshold - effective_allowance(year, personal_allowance));
    let higher_band = 100 * (year.additional_rate_threshold - year.higher_rate_threshold);
    let in_basic = min(taxable, basic_band);
    let in_higher = min(taxable - in_basic, higher_band);
    let in_additional = taxable - in_basic - in_higher;
    share(in_basic, year.basic_rate as int) + share(in_higher, year.higher_rate as int) + share(
        in_additional,
        year.additional_rate as int,
    )
}

/// The two bounded bands of Income Tax, basic then higher.
pub open spec fn income_tax_bands(year: TaxYear, personal_allowance: Option<u32>) -> Seq<Band> {
    seq![
        Band {
            width: (100 * (year.higher_rate_threshold - effective_allowance(year, personal_allowance))) as u64,
            rate: year.basic_rate,
        },
        Band {
            width: (100 * (year.additional_rate_threshold - year.higher_rate_threshold)) as u64,
            rate: year.higher_rate,
        },
    ]
}

/// Income Tax is the banded charge over its two bounded bands and the
/// open-ended additional band.
pub proof fn lemma_income_tax_is_banded(
    gross_income: int,
    year: TaxYear,
    personal_allowance: Option<u32>,
)
    requires
        year.wf(),
        allowance_fits(year, personal_allowance),
    ensures
        rates_valid(income_tax_bands(year, personal_allowance), year.additional_rate as int),
        income_tax_due(gross_income, year, personal_allowance) == charge(
            taxable_income(gross_income, year, personal_allowance),
            income_tax_bands(year, personal_allowance),
            year.additional_rate as int,
        ),
{
    let bands = income_tax_bands(year, personal_allowance);
    let taxable = taxable_income(gross_income, year, personal_allowance);
    assert(bands.drop_first() =~= seq![bands[1]]);
    assert(bands.drop_first().drop_first() =~= Seq::<Band>::empty());
    reveal_with_fuel(charge, 3);
}

/// For a fixed year and allowance, Income Tax never falls as gross income
/// rises.
pub proof fn income_tax_monotone(
    gross_low: int,
    gross_high: int,
    year: TaxYear,
    personal_allowance: Option<u32>,
)
    requires
        year.wf(),
        allowance_fits(year, personal_allowance),
        0 <= gross_low <= gross_high,
    ensures
        income_tax_due(gross_low, year, personal_allowance) <= income_tax_due(
            gross_high,
            year,
            personal_allowance,
        ),
{
    lemma_income_tax_is_banded(gross_low, year, personal_allowance);
    lemma_income_tax_is_banded(gross_high, year, personal_allowance);
    lemma_charge_monotone(
        taxable_income(gross_low, year, personal_allowance),
        taxable_income(gross_high, year, personal_allowance),
        income_tax_bands(year, personal_allowance),
        year.additional_rate as int,
    );
}

/// Income exactly at the higher-rate threshold is taxed wholly within the
/// basic band; one penny more puts that penny in the higher band.
pub proof fn income_tax_band_boundary(year: TaxYear, personal_allowance: Option<u32>)
    requires
        year.wf(),
        allowance_fits(year, personal_allowance),
        year.higher_rate_threshold < year.additional_rate_threshold,
    ensures
        ({
            let basic_band = 100 * (year.higher_rate_threshold - effective_allowance(
                year,
                personal_allowance,
            ));
            let at = 100 * year.higher_rate_threshold;
            &&& income_tax_due(at, year, personal_allowance) == share(
                basic_band,
                year.basic_rate as int,
            )
            &&& income_tax_due(at + 1, year, personal_allowance) == share(
                basic_band,
                year.basic_rate as int,
            ) + share(1, year.higher_rate as int)
        }),
{
    assert(share(0, year.higher_rate as int) == 0);
    assert(share(0, year.additional_rate as int) == 0);
}

/// Calculates Income Tax, in pence, on a gross annual income in pence.
///
/// `personal_allowance` is in pounds; when it is `None` the year's standard
/// allowance applies, which is refused for incomes above £100,000.
pub fn income_tax(gross_income: u64, year: &TaxYear, personal_allowance: Option<u32>) -> (r: Result<
    u64,
    TaxError,
>)
    requires
        year.wf(),
        allowance_fits(*year, personal_allowance),
    ensures
        r is Err <==> allowance_missing(gross_income as int, personal_allowance),
        r is Err ==> r == Err::<u64, TaxError>(TaxError::MissingPersonalAllowance),
        r is Ok ==> r->Ok_0 == income_tax_due(gross_income as int, *year, personal_allowance),
{
    if gross_income > ALLOWANCE_REQUIRED_ABOVE && personal_allowance.is_none() {
        return Err(TaxError::MissingPersonalAllowance);
    }
    let allowance: u32 = match personal_allowance {
        Some(a) => a,
        None => year.personal_allowance,
    };
    let allowance_pence: u64 = allowance as u64 * 100;
    let taxable: u64 = if gross_income <= allowance_pence {
        0
    } else {
        gross_income - allowance_pence
    };
    let basic_band: u64 = (year.higher_rate_threshold - allowance) as u64 * 100;
    let higher_band: u64 = (year.additional_rate_threshold - year.higher_rate_threshold) as u64 * 100;
    let bands = vec![
        Band { width: basic_band, rate: year.basic_rate },
        Band { width: higher_band, rate: year.higher_rate },
    ];
    proof {
        lemma_income_tax_is_banded(gross_income as int, *year, personal_allowance);
        assert(bands@ =~= income_tax_bands(*year, personal_allowance));
    }
    Ok(banded_charge(taxable, &bands, year.additional_rate))
}

} // verus!
