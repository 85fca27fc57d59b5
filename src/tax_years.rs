use crate::banding::FULL_RATE;
use vstd::prelude::*;

verus! {

/// The rates and thresholds of Income Tax and National Insurance for one UK
/// tax year. Thresholds are whole pounds; rates are basis points, so that
/// 2_000 stands for 20%.
#[derive(Clone, Copy, Debug, PartialEq, Eq)]
pub struct TaxYear {
    /// Annual personal allowance (pounds).
    pub personal_allowance: u32,
    /// Upper limit of the basic-rate band (pounds).
    pub higher_rate_threshold: u32,
    /// Threshold of the additional rate (pounds).
    pub additional_rate_threshold: u32,
    /// Additional rate (basis points).
    pub additional_rate: u32,
    /// Basic rate (basis points).
    pub basic_rate: u32,
    /// Higher rate (basis points).
    pub higher_rate: u32,
    /// National Insurance primary threshold (pounds).
    pub ni_primary_threshold: u32,
    /// National Insurance upper earnings limit (pounds).
    pub ni_upper_earnings_limit: u32,
    /// National Insurance primary rate (basis points).
    pub ni_primary_rate: u32,
    /// National Insurance upper rate (basis points).
    pub ni_upper_rate: u32,
}

impl TaxYear {
    /// The thresholds are in order and every rate lies between 0% and 100%.
    pub open spec fn wf(self) -> bool {
        &&& self.personal_allowance <= self.higher_rate_threshold
        &&& self.higher_rate_threshold <= self.additional_rate_threshold
        &&& self.ni_primary_threshold <= self.ni_upper_earnings_limit
        &&& self.basic_rate <= FULL_RATE
        &&& self.higher_rate <= FULL_RATE
        &&& self.additional_rate <= FULL_RATE
        &&& self.ni_primary_rate <= FULL_RATE
        &&& self.ni_upper_rate <= FULL_RATE
    }

    /// Tells whether the thresholds are in order and every rate lies between
    /// 0% and 100%, as the calculators require.
    pub fn is_valid(&self) -> (r: bool)
        ensures
            r == self.wf(),
    {
        self.personal_allowance <= self.higher_rate_threshold
            && self.higher_rate_threshold <= self.additional_rate_threshold
            && self.ni_primary_threshold <= self.ni_upper_earnings_limit
            && self.basic_rate <= FULL_RATE
            && self.higher_rate <= FULL_RATE
            && self.additional_rate <= FULL_RATE
            && self.ni_primary_rate <= FULL_RATE
            && self.ni_upper_rate <= FULL_RATE
    }
}

/// Tax year 2025/26.
pub fn tax_year_2025() -> (y: TaxYear)
    ensures
        y.wf(),
        y == (TaxYear {
            personal_allowance: 12_570,
            higher_rate_threshold: 50_270,
            additional_rate_threshold: 125_140,
            basic_rate: 2_000,
            higher_rate: 4_000,
            additional_rate: 4_500,
            ni_primary_threshold: 12_570,
            ni_upper_earnings_limit: 50_270,
            ni_primary_rate: 800,
            ni_upper_rate: 200,
        }),
{
    TaxYear {
        personal_allowance: 12_570,
        higher_rate_threshold: 50_270,
        additional_rate_threshold: 125_140,
        basic_rate: 2_000,
        higher_rate: 4_000,
        additional_rate: 4_500,
        ni_primary_threshold: 12_570,
        ni_upper_earnings_limit: 50_270,
        ni_primary_rate: 800,
        ni_upper_rate: 200,
    }
}

/// Tax year 2024/25.
pub fn tax_year_2024() -> (y: TaxYear)
    ensures
        y.wf(),
        y == (TaxYear {
            personal_allowance: 12_570,
            higher_rate_threshold: 50_270,
            additional_rate_threshold: 125_140,
            basic_rate: 2_000,
            higher_rate: 4_000,
            additional_rate: 4_500,
            ni_primary_threshold: 12_570,
            ni_upper_earnings_limit: 50_270,
            ni_primary_rate: 800,
            ni_upper_rate: 200,
        }),
{
    TaxYear {
        personal_allowance: 12_570,
        higher_rate_threshold: 50_270,
        additional_rate_threshold: 125_140,
        basic_rate: 2_000,
        higher_rate: 4_000,
        additional_rate: 4_500,
        ni_primary_threshold: 12_570,
        ni_upper_earnings_limit: 50_270,
        ni_primary_rate: 800,
        ni_upper_rate: 200,
    }
}

/// Tax year 2023/24.
pub fn tax_year_2023() -> (y: TaxYear)
    ensures
        y.wf(),
        y == (TaxYear {
            personal_allowance: 12_570,
            higher_rate_threshold: 50_270,
            additional_rate_threshold: 150_000,
            basic_rate: 2_000,
            higher_rate: 4_000,
            additional_rate: 4_500,
            ni_primary_threshold: 11_908,
            ni_upper_earnings_limit: 50_270,
            ni_primary_rate: 1_200,
            ni_upper_rate: 200,
        }),
{
    TaxYear {
        personal_allowance: 12_570,
        higher_rate_threshold: 50_270,
        additional_rate_threshold: 150_000,
        basic_rate: 2_000,
        higher_rate: 4_000,
        additional_rate: 4_500,
        ni_primary_threshold: 11_908,
        ni_upper_earnings_limit: 50_270,
        ni_primary_rate: 1_200,
        ni_upper_rate: 200,
    }
}

/// Tax year 2022/23.
pub fn tax_year_2022() -> (y: TaxYear)
    ensures
        y.wf(),
        y == (TaxYear {
            personal_allowance: 12_570,
            higher_rate_threshold: 50_270,
            additional_rate_threshold: 150_000,
            basic_rate: 2_000,
            higher_rate: 4_000,
            additional_rate: 4_500,
            ni_primary_threshold: 9_568,
            ni_upper_earnings_limit: 50_270,
            ni_primary_rate: 1_200,
            ni_upper_rate: 200,
        }),
{
    TaxYear {
        personal_allowance: 12_570,
        higher_rate_threshold: 50_270,
        additional_rate_threshold: 150_000,
        basic_rate: 2_000,
        higher_rate: 4_000,
        additional_rate: 4_500,
        ni_primary_threshold: 9_568,
        ni_upper_earnings_limit: 50_270,
        ni_primary_rate: 1_200,
        ni_upper_rate: 200,
    }
}

/// Tax year 2021/22.
pub fn tax_year_2021() -> (y: TaxYear)
    ensures
        y.wf(),
        y == (TaxYear {
            personal_allowance: 12_500,
            higher_rate_threshold: 50_000,
            additional_rate_threshold: 150_000,
            basic_rate: 2_000,
            higher_rate: 4_000,
            additional_rate: 4_500,
            ni_primary_threshold: 9_500,
            ni_upper_earnings_limit: 50_000,
            ni_primary_rate: 1_200,
            ni_upper_rate: 200,
        }),
{
    TaxYear {
        personal_allowance: 12_500,
        higher_rate_threshold: 50_000,
        additional_rate_threshold: 150_000,
        basic_rate: 2_000,
        higher_rate: 4_000,
        additional_rate: 4_500,
        ni_primary_threshold: 9_500,
        ni_upper_earnings_limit: 50_000,
        ni_primary_rate: 1_200,
        ni_upper_rate: 200,
    }
}

/// Tax year 2020/21.
pub fn tax_year_2020() -> (y: TaxYear)
    ensures
        y.wf(),
        y == (TaxYear {
            personal_allowance: 12_500,
            higher_rate_threshold: 50_000,
            additional_rate_threshold: 150_000,
            basic_rate: 2_000,
            higher_rate: 4_000,
            additional_rate: 4_500,
            ni_primary_threshold: 8_632,
            ni_upper_earnings_limit: 50_000,
            ni_primary_rate: 1_200,
            ni_upper_rate: 200,
        }),
{
    TaxYear {
        personal_allowance: 12_500,
        higher_rate_threshold: 50_000,
        additional_rate_threshold: 150_000,
        basic_rate: 2_000,
        higher_rate: 4_000,
        additional_rate: 4_500,
        ni_primary_threshold: 8_632,
        ni_upper_earnings_limit: 50_000,
        ni_primary_rate: 1_200,
        ni_upper_rate: 200,
    }
}

/// Tax year 2019/20.
pub fn tax_year_2019() -> (y: TaxYear)
    ensures
        y.wf(),
        y == (TaxYear {
            personal_allowance: 11_850,
            higher_rate_threshold: 46_350,
            additional_rate_threshold: 150_000,
            basic_rate: 2_000,
            higher_rate: 4_000,
            additional_rate: 4_500,
            ni_primary_threshold: 8_424,
            ni_upper_earnings_limit: 46_350,
            ni_primary_rate: 1_200,
            ni_upper_rate: 200,
        }),
{
    TaxYear {
        personal_allowance: 11_850,
        higher_rate_threshold: 46_350,
        additional_rate_threshold: 150_000,
        basic_rate: 2_000,
        higher_rate: 4_000,
        additional_rate: 4_500,
        ni_primary_threshold: 8_424,
        ni_upper_earnings_limit: 46_350,
        ni_primary_rate: 1_200,
        ni_upper_rate: 200,
    }
}

/// Tax year 2018/19.
pub fn tax_year_2018() -> (y: TaxYear)
    ensures
        y.wf(),
        y == (TaxYear {
            personal_allowance: 11_500,
            higher_rate_threshold: 45_000,
            additional_rate_threshold: 150_000,
            basic_rate: 2_000,
            higher_rate: 4_000,
            additional_rate: 4_500,
            ni_primary_threshold: 8_164,
            ni_upper_earnings_limit: 45_000,
            ni_primary_rate: 1_200,
            ni_upper_rate: 200,
        }),
{
    TaxYear {
        personal_allowance: 11_500,
        higher_rate_threshold: 45_000,
        additional_rate_threshold: 150_000,
        basic_rate: 2_000,
        higher_rate: 4_000,
        additional_rate: 4_500,
        ni_primary_threshold: 8_164,
        ni_upper_earnings_limit: 45_000,
        ni_primary_rate: 1_200,
        ni_upper_rate: 200,
    }
}

/// Tax year 2017/18.
pub fn tax_year_2017() -> (y: TaxYear)
    ensures
        y.wf(),
        y == (TaxYear {
            personal_allowance: 11_000,
            higher_rate_threshold: 43_000,
            additional_rate_threshold: 150_000,
            basic_rate: 2_000,
            higher_rate: 4_000,
            additional_rate: 4_500,
            ni_primary_threshold: 8_060,
            ni_upper_earnings_limit: 43_000,
            ni_primary_rate: 1_200,
            ni_upper_rate: 200,
        }),
{
    TaxYear {
        personal_allowance: 11_000,
        higher_rate_threshold: 43_000,
        additional_rate_threshold: 150_000,
        basic_rate: 2_000,
        higher_rate: 4_000,
        additional_rate: 4_500,
        ni_primary_threshold: 8_060,
        ni_upper_earnings_limit: 43_000,
        ni_primary_rate: 1_200,
        ni_upper_rate: 200,
    }
}

/// Tax year 2016/17.
pub fn tax_year_2016() -> (y: TaxYear)
    ensures
        y.wf(),
        y == (TaxYear {
            personal_allowance: 10_600,
            higher_rate_threshold: 42_385,
            additional_rate_threshold: 150_000,
            basic_rate: 2_000,
            higher_rate: 4_000,
            additional_rate: 4_500,
            ni_primary_threshold: 8_060,
            ni_upper_earnings_limit: 42_385,
            ni_primary_rate: 1_200,
            ni_upper_rate: 200,
        }),
{
    TaxYear {
        personal_allowance: 10_600,
        higher_rate_threshold: 42_385,
        additional_rate_threshold: 150_000,
        basic_rate: 2_000,
        higher_rate: 4_000,
        additional_rate: 4_500,
        ni_primary_threshold: 8_060,
        ni_upper_earnings_limit: 42_385,
        ni_primary_rate: 1_200,
        ni_upper_rate: 200,
    }
}

/// Tax year 2015/16.
pub fn tax_year_2015() -> (y: TaxYear)
    ensures
        y.wf(),
        y == (TaxYear {
            personal_allowance: 10_000,
            higher_rate_threshold: 41_865,
            additional_rate_threshold: 150_000,
            basic_rate: 2_000,
            higher_rate: 4_000,
            additional_rate: 4_500,
            ni_primary_threshold: 7_956,
            ni_upper_earnings_limit: 41_865,
            ni_primary_rate: 1_200,
            ni_upper_rate: 200,
        }),
{
    TaxYear {
        personal_allowance: 10_000,
        higher_rate_threshold: 41_865,
        additional_rate_threshold: 150_000,
        basic_rate: 2_000,
        higher_rate: 4_000,
        additional_rate: 4_500,
        ni_primary_threshold: 7_956,
        ni_upper_earnings_limit: 41_865,
        ni_primary_rate: 1_200,
        ni_upper_rate: 200,
    }
}

/// Tax year 2014/15.
pub fn tax_year_2014() -> (y: TaxYear)
    ensures
        y.wf(),
        y == (TaxYear {
            personal_allowance: 9_440,
            higher_rate_threshold: 41_450,
            additional_rate_threshold: 150_000,
            basic_rate: 2_000,
            higher_rate: 4_000,
            additional_rate: 4_500,
            ni_primary_threshold: 7_755,
            ni_upper_earnings_limit: 41_450,
            ni_primary_rate: 1_200,
            ni_upper_rate: 200,
        }),
{
    TaxYear {
        personal_allowance: 9_440,
        higher_rate_threshold: 41_450,
        additional_rate_threshold: 150_000,
        basic_rate: 2_000,
        higher_rate: 4_000,
        additional_rate: 4_500,
        ni_primary_threshold: 7_755,
        ni_upper_earnings_limit: 41_450,
        ni_primary_rate: 1_200,
        ni_upper_rate: 200,
    }
}

/// Tax year 2013/14.
pub fn tax_year_2013() -> (y: TaxYear)
    ensures
        y.wf(),
        y == (TaxYear {
            personal_allowance: 8_105,
            higher_rate_threshold: 42_475,
            additional_rate_threshold: 150_000,
            basic_rate: 2_000,
            higher_rate: 4_000,
            additional_rate: 5_000,
            ni_primary_threshold: 7_605,
            ni_upper_earnings_limit: 42_475,
            ni_primary_rate: 1_200,
            ni_upper_rate: 200,
        }),
{
    TaxYear {
        personal_allowance: 8_105,
        higher_rate_threshold: 42_475,
        additional_rate_threshold: 150_000,
        basic_rate: 2_000,
        higher_rate: 4_000,
        additional_rate: 5_000,
        ni_primary_threshold: 7_605,
        ni_upper_earnings_limit: 42_475,
        ni_primary_rate: 1_200,
        ni_upper_rate: 200,
    }
}

/// Tax year 2012/13.
pub fn tax_year_2012() -> (y: TaxYear)
    ensures
        y.wf(),
        y == (TaxYear {
            personal_allowance: 7_475,
            higher_rate_threshold: 42_475,
            additional_rate_threshold: 150_000,
            basic_rate: 2_000,
            higher_rate: 4_000,
            additional_rate: 5_000,
            ni_primary_threshold: 7_225,
            ni_upper_earnings_limit: 42_475,
            ni_primary_rate: 1_200,
            ni_upper_rate: 200,
        }),
{
    TaxYear {
        personal_allowance: 7_475,
        higher_rate_threshold: 42_475,
        additional_rate_threshold: 150_000,
        basic_rate: 2_000,
        higher_rate: 4_000,
        additional_rate: 5_000,
        ni_primary_threshold: 7_225,
        ni_upper_earnings_limit: 42_475,
        ni_primary_rate: 1_200,
        ni_upper_rate: 200,
    }
}

/// Tax year 2011/12.
pub fn tax_year_2011() -> (y: TaxYear)
    ensures
        y.wf(),
        y == (TaxYear {
            personal_allowance: 6_475,
            higher_rate_threshold: 43_875,
            additional_rate_threshold: 150_000,
            basic_rate: 2_000,
            higher_rate: 4_000,
            additional_rate: 5_000,
            ni_primary_threshold: 5_715,
            ni_upper_earnings_limit: 43_875,
            ni_primary_rate: 1_100,
            ni_upper_rate: 100,
        }),
{
    TaxYear {
        personal_allowance: 6_475,
        higher_rate_threshold: 43_875,
        additional_rate_threshold: 150_000,
        basic_rate: 2_000,
        higher_rate: 4_000,
        additional_rate: 5_000,
        ni_primary_threshold: 5_715,
        ni_upper_earnings_limit: 43_875,
        ni_primary_rate: 1_100,
        ni_upper_rate: 100,
    }
}

} // verus!
