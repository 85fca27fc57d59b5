use uk_paye::banding::{banded_charge, rounded_share, Band};
use uk_paye::it::{income_tax, TaxError};
use uk_paye::ni::national_insurance;
use uk_paye::tax_years::{
    tax_year_2011, tax_year_2012, tax_year_2013, tax_year_2014, tax_year_2015, tax_year_2016,
    tax_year_2017, tax_year_2018, tax_year_2019, tax_year_2020, tax_year_2021, tax_year_2022,
    tax_year_2023, tax_year_2024, tax_year_2025, TaxYear,
};

fn all_years() -> Vec<TaxYear> {
    vec![
        tax_year_2011(),
        tax_year_2012(),
        tax_year_2013(),
        tax_year_2014(),
        tax_year_2015(),
        tax_year_2016(),
        tax_year_2017(),
        tax_year_2018(),
        tax_year_2019(),
        tax_year_2020(),
        tax_year_2021(),
        tax_year_2022(),
        tax_year_2023(),
        tax_year_2024(),
        tax_year_2025(),
    ]
}

/// A year with one-pound bands at 12.5%, where rounding each band on its own
/// differs from rounding the whole.
fn eighth_rate_year() -> TaxYear {
    TaxYear {
        personal_allowance: 0,
        higher_rate_threshold: 1,
        additional_rate_threshold: 2,
        basic_rate: 1_250,
        higher_rate: 1_250,
        additional_rate: 1_250,
        ni_primary_threshold: 0,
        ni_upper_earnings_limit: 1,
        ni_primary_rate: 1_250,
        ni_upper_rate: 1_250,
    }
}

#[test]
fn income_tax_reference_scenario() {
    assert_eq!(income_tax(6_000_000, &tax_year_2025(), None), Ok(1_143_200));
}

#[test]
fn national_insurance_reference_scenario() {
    // 37,700 pounds at 8% and 9,730 pounds at 2%.
    assert_eq!(national_insurance(6_000_000, &tax_year_2025(), None), 321_060);
}

#[test]
fn income_at_higher_threshold_stays_in_basic_band() {
    let year = tax_year_2025();
    assert_eq!(income_tax(5_027_000, &year, None), Ok(754_000));
    // One penny above: 0.4p rounds to nothing; two pence give 0.8p, so 1p.
    assert_eq!(income_tax(5_027_001, &year, None), Ok(754_000));
    assert_eq!(income_tax(5_027_002, &year, None), Ok(754_001));
}

#[test]
fn penny_above_higher_threshold_is_charged_at_higher_rate() {
    let mut year = tax_year_2025();
    year.higher_rate = 10_000;
    assert_eq!(income_tax(5_027_000, &year, None), Ok(754_000));
    assert_eq!(income_tax(5_027_001, &year, None), Ok(754_001));
}

#[test]
fn allowance_required_above_one_hundred_thousand() {
    let year = tax_year_2025();
    assert_eq!(
        income_tax(10_000_001, &year, None),
        Err(TaxError::MissingPersonalAllowance)
    );
    assert!(income_tax(10_000_000, &year, None).is_ok());
    assert!(income_tax(10_000_001, &year, Some(12_570)).is_ok());
}

#[test]
fn missing_allowance_message() {
    assert_eq!(
        TaxError::MissingPersonalAllowance.message(),
        "A personal allowance must be specified for incomes greater than £100,000."
    );
}

#[test]
fn income_below_allowance_owes_nothing() {
    let year = tax_year_2025();
    assert_eq!(income_tax(500_000, &year, None), Ok(0));
    assert_eq!(income_tax(0, &year, None), Ok(0));
    assert_eq!(income_tax(1_257_000, &year, None), Ok(0));
}

#[test]
fn income_tax_in_all_three_bands() {
    // 50,270 pounds at 20%, 74,870 at 40%, 74,860 at 45%.
    assert_eq!(
        income_tax(20_000_000, &tax_year_2025(), Some(0)),
        Ok(7_368_900)
    );
}

#[test]
fn income_tax_with_tapered_allowance() {
    // Allowance 2,570: taxable 107,430 pounds, 47,700 at 20%, 59,730 at 40%.
    assert_eq!(
        income_tax(11_000_000, &tax_year_2025(), Some(2_570)),
        Ok(954_000 + 2_389_200)
    );
}

#[test]
fn national_insurance_below_threshold_and_in_primary_band() {
    let year = tax_year_2025();
    assert_eq!(national_insurance(0, &year, None), 0);
    assert_eq!(national_insurance(1_257_000, &year, None), 0);
    assert_eq!(national_insurance(3_000_000, &year, None), 139_440);
    assert_eq!(national_insurance(5_027_000, &year, Some(1)), 301_600);
}

#[test]
fn national_insurance_in_an_early_year() {
    // 38,160 pounds at 11% and 16,125 at 1%: 4,197.60 + 161.25.
    assert_eq!(national_insurance(6_000_000, &tax_year_2011(), None), 435_885);
}

#[test]
fn national_insurance_of_a_very_large_income() {
    let year = tax_year_2025();
    // 37,700 pounds at 8%, the rest at 2%.
    assert_eq!(
        national_insurance(100_000_000_000, &year, None),
        301_600 + (100_000_000_000 - 5_027_000) / 50
    );
}

#[test]
fn repeated_calls_agree_and_leave_the_year_alone() {
    let year = tax_year_2025();
    let before = year;
    let a = income_tax(4_567_891, &year, None);
    let b = income_tax(4_567_891, &year, None);
    assert_eq!(a, b);
    let c = national_insurance(4_567_891, &year, None);
    let d = national_insurance(4_567_891, &year, None);
    assert_eq!(c, d);
    assert_eq!(year, before);
}

#[test]
fn each_band_is_rounded_on_its_own() {
    let year = eighth_rate_year();
    // Two one-pound bands at 12.5%: 12.5p rounds to 13p in each, 26p in all,
    // where 200p at 12.5% rounded once would give 25p.
    assert_eq!(income_tax(200, &year, None), Ok(26));
    assert_eq!(rounded_share(200, 1_250), 25);
    assert_eq!(national_insurance(200, &year, None), 26);
}

#[test]
fn tax_never_falls_as_income_rises() {
    for year in all_years() {
        let mut last_tax: u64 = 0;
        let mut last_ni: u64 = 0;
        let mut gross: u64 = 0;
        while gross <= 10_000_000 {
            let tax = income_tax(gross, &year, None).unwrap();
            let ni = national_insurance(gross, &year, None);
            assert!(tax >= last_tax);
            assert!(ni >= last_ni);
            last_tax = tax;
            last_ni = ni;
            gross += 9_973;
        }
    }
}

#[test]
fn shares_round_halves_up() {
    assert_eq!(rounded_share(10, 4_500), 5);
    assert_eq!(rounded_share(1, 5_000), 1);
    assert_eq!(rounded_share(3, 1_250), 0);
    assert_eq!(rounded_share(7, 10_000), 7);
    assert_eq!(rounded_share(u64::MAX, 10_000), u64::MAX);
}

#[test]
fn banded_charge_fills_bands_in_order() {
    let bands = vec![
        Band { width: 1_000, rate: 1_000 },
        Band { width: 2_000, rate: 2_000 },
    ];
    assert_eq!(banded_charge(0, &bands, 5_000), 0);
    assert_eq!(banded_charge(500, &bands, 5_000), 50);
    assert_eq!(banded_charge(1_000, &bands, 5_000), 100);
    assert_eq!(banded_charge(2_000, &bands, 5_000), 300);
    assert_eq!(banded_charge(4_000, &bands, 5_000), 100 + 400 + 500);
    assert_eq!(banded_charge(4_000, &Vec::new(), 5_000), 2_000);
}

#[test]
fn year_tables_hold_their_thresholds() {
    let y = tax_year_2023();
    assert_eq!(y.additional_rate_threshold, 150_000);
    assert_eq!(y.ni_primary_threshold, 11_908);
    assert_eq!(tax_year_2024().additional_rate_threshold, 125_140);
    assert_eq!(tax_year_2013().additional_rate, 5_000);
    for year in all_years() {
        assert!(year.personal_allowance <= year.higher_rate_threshold);
        assert!(year.higher_rate_threshold <= year.additional_rate_threshold);
        assert!(year.ni_primary_threshold <= year.ni_upper_earnings_limit);
    }
}

#[test]
fn validity_of_year_tables() {
    for year in all_years() {
        assert!(year.is_valid());
    }
    let mut year = tax_year_2025();
    year.higher_rate_threshold = 200_000;
    assert!(!year.is_valid());
    let mut year = tax_year_2025();
    year.basic_rate = 10_001;
    assert!(!year.is_valid());
}
