use crate::fixed::{saturate, saturated};
use vstd::prelude::*;

verus! {

/// Why a simulation was refused before any year of it was computed.
#[derive(Clone, Copy, Debug, PartialEq, Eq)]
pub enum SimulationError {
    /// No run was asked for, an age is negative, or the simulation ends
    /// before the current age.
    InvalidParameters,
    /// Fewer standard-normal draws were supplied than the runs consume.
    InsufficientDraws,
}

/// What one simulation is run on.
///
/// Ages are whole years. Amounts, rates and volatilities are fixed-point
/// numbers counted in millionths (see [`crate::fixed::SCALE`]): an amount of
/// `1_000_000` is one currency unit, a rate of `1_000_000` is 100 %.
#[derive(Clone, Copy, Debug, PartialEq, Eq)]
pub struct SimulationParameters {
    pub current_age: i64,
    /// The age from which the pension is paid, whether retired or not.
    pub legal_retirement_age: i64,
    pub fixed_monthly_pension: i64,
    pub current_assets: i64,
    /// Taken from positive yearly returns only.
    pub capital_gains_tax_rate: i64,
    pub annual_savings: i64,
    /// The first age at which expenses are drawn from the assets.
    pub intended_retirement_age: i64,
    pub average_roi: i64,
    pub average_inflation: i64,
    pub roi_volatility: i64,
    pub inflation_volatility: i64,
    /// Health, food, entertainment, shopping, utilities.
    pub monthly_expenses: [i64; 5],
    /// Vacations, repairs, car maintenance.
    pub annual_expenses: [i64; 3],
    pub simulation_runs: usize,
    /// The last simulated age.
    pub simulation_end_age: i64,
}

impl SimulationParameters {
    /// At least one run, no negative age, and an end that is not before the
    /// start. The intended retirement age may lie anywhere: before the
    /// current age every year is a year of retirement, after the end age
    /// none is.
    pub open spec fn is_valid(&self) -> bool {
        &&& self.simulation_runs >= 1
        &&& self.current_age >= 0
        &&& self.legal_retirement_age >= 0
        &&& self.intended_retirement_age >= 0
        &&& self.simulation_end_age >= self.current_age
    }

    /// One year for each age from the current age to the end age, both included.
    pub open spec fn num_years(&self) -> int {
        self.simulation_end_age - self.current_age + 1
    }

    /// The simulated years that come before the intended retirement age.
    pub open spec fn accumulation_years(&self) -> int {
        if self.intended_retirement_age <= self.current_age {
            0
        } else if self.intended_retirement_age > self.simulation_end_age {
            self.num_years()
        } else {
            self.intended_retirement_age - self.current_age
        }
    }

    /// The simulated years from the intended retirement age on.
    pub open spec fn distribution_years(&self) -> int {
        self.num_years() - self.accumulation_years()
    }

    /// The draws one run consumes: a return for every year, and an inflation
    /// after every year of retirement.
    pub open spec fn draws_per_run(&self) -> int {
        self.accumulation_years() + 2 * self.distribution_years()
    }

    /// The cost of the first year of retirement.
    pub open spec fn base_annual_expense(&self) -> int {
        saturated(
            12 * (self.monthly_expenses[0] + self.monthly_expenses[1] + self.monthly_expenses[2]
                + self.monthly_expenses[3] + self.monthly_expenses[4]) + (self.annual_expenses[0]
                + self.annual_expenses[1] + self.annual_expenses[2]),
        )
    }

    /// The pension of one year at the given age.
    pub open spec fn annual_income(&self, age: int) -> int {
        if age >= self.legal_retirement_age {
            12 * self.fixed_monthly_pension
        } else {
            0
        }
    }

    /// Checks the parameters once, before anything is simulated.
    pub fn validate(&self) -> (r: Result<(), SimulationError>)
        ensures
            r is Ok <==> self.is_valid(),
            r is Err ==> r == Err::<(), SimulationError>(SimulationError::InvalidParameters),
    {
        if self.simulation_runs == 0 || self.current_age < 0 || self.legal_retirement_age < 0
            || self.intended_retirement_age < 0 || self.simulation_end_age < self.current_age {
            Err(SimulationError::InvalidParameters)
        } else {
            Ok(())
        }
    }

    /// How many draws each run needs, where the parameters are valid and the
    /// number can be the length of a vector.
    pub fn required_draws(&self) -> (r: Option<usize>)
        ensures
            r is Some <==> self.is_valid() && self.draws_per_run() <= usize::MAX,
            r matches Some(n) ==> n == self.draws_per_run(),
    {
        if self.validate().is_err() {
            return None;
        }
        let years: i128 = self.simulation_end_age as i128 - self.current_age as i128 + 1;
        let accumulation: i128 = if self.intended_retirement_age <= self.current_age {
            0
        } else if self.intended_retirement_age > self.simulation_end_age {
            years
        } else {
            self.intended_retirement_age as i128 - self.current_age as i128
        };
        let needed: i128 = accumulation + 2 * (years - accumulation);
        if needed <= usize::MAX as i128 {
            Some(needed as usize)
        } else {
            None
        }
    }

    pub(crate) fn year_count(&self) -> (years: usize)
        requires
            self.is_valid(),
            self.num_years() <= usize::MAX,
        ensures
            years == self.num_years(),
    {
        let years: i128 = self.simulation_end_age as i128 - self.current_age as i128 + 1;
        years as usize
    }

    pub(crate) fn accumulation_year_count(&self) -> (years: usize)
        requires
            self.is_valid(),
            self.num_years() <= usize::MAX,
        ensures
            years == self.accumulation_years(),
    {
        if self.intended_retirement_age <= self.current_age {
            0
        } else if self.intended_retirement_age > self.simulation_end_age {
            self.year_count()
        } else {
            let years: i128 = self.intended_retirement_age as i128 - self.current_age as i128;
            years as usize
        }
    }

    pub(crate) fn first_annual_expense(&self) -> (expense: i64)
        ensures
            expense == self.base_annual_expense(),
    {
        let monthly: i128 = self.monthly_expenses[0] as i128 + self.monthly_expenses[1] as i128
            + self.monthly_expenses[2] as i128 + self.monthly_expenses[3] as i128
            + self.monthly_expenses[4] as i128;
        let annual: i128 = self.annual_expenses[0] as i128 + self.annual_expenses[1] as i128
            + self.annual_expenses[2] as i128;
        saturate(12 * monthly + annual)
    }

    pub(crate) fn income_at(&self, age: i64) -> (income: i128)
        ensures
            income == self.annual_income(age as int),
    {
        if age >= self.legal_retirement_age {
            12 * (self.fixed_monthly_pension as i128)
        } else {
            0
        }
    }
}

impl Default for SimulationParameters {
    /// A household of 54 with assets of 600 000 that retires at 60, draws a
    /// pension from 67 and is followed to 90, over ten thousand runs.
    fn default() -> (r: Self)
        ensures
            r == (SimulationParameters {
                current_age: 54,
                legal_retirement_age: 67,
                fixed_monthly_pension: 5_000_000_000,
                current_assets: 600_000_000_000,
                capital_gains_tax_rate: 262_500,
                annual_savings: 18_000_000_000,
                intended_retirement_age: 60,
                average_roi: 120_000,
                average_inflation: 25_000,
                roi_volatility: 150_000,
                inflation_volatility: 10_000,
                monthly_expenses: [
                1_500_000_000,
                1_500_000_000,
                500_000_000,
                500_000_000,
                500_000_000,
            ],
                annual_expenses: [12_000_000_000, 3_000_000_000, 3_000_000_000],
                simulation_runs: 10_000,
                simulation_end_age: 90,
            }),
            r.is_valid(),
    {
        SimulationParameters {
            current_age: 54,
            legal_retirement_age: 67,
            fixed_monthly_pension: 5_000_000_000,
            current_assets: 600_000_000_000,
            capital_gains_tax_rate: 262_500,
            annual_savings: 18_000_000_000,
            intended_retirement_age: 60,
            average_roi: 120_000,
            average_inflation: 25_000,
            roi_volatility: 150_000,
            inflation_volatility: 10_000,
            monthly_expenses: [
                1_500_000_000,
                1_500_000_000,
                500_000_000,
                500_000_000,
                500_000_000,
            ],
            annual_expenses: [12_000_000_000, 3_000_000_000, 3_000_000_000],
            simulation_runs: 10_000,
            simulation_end_age: 90,
        }
    }
}

} // verus!
