use crate::fixed::{saturate, saturated, scale_product, scaled_product, SCALE};
use crate::params::{SimulationError, SimulationParameters};
use crate::sampler::{sample_normal, scaled_draw};
use vstd::prelude::*;

verus! {

/// A yearly return after tax: a gain is taxed, a loss is left as it is.
pub open spec fn taxed_return(r: int, tax_rate: int) -> int {
    if r > 0 {
        saturated(scaled_product(r, SCALE - tax_rate))
    } else {
        r
    }
}

/// An amount after one year at the given rate, with what was paid in less
/// what was paid out added.
pub open spec fn compounded(amount: int, rate: int, flow: int) -> int {
    saturated(scaled_product(amount, SCALE + rate) + flow)
}

/// What a run carries from one year to the next.
pub struct RunState {
    pub asset: int,
    /// The cost of living of the year to come.
    pub annual_expense: int,
}

/// Where in `draws` the return of the year `year` stands. Years count from 0
/// at the current age.
pub open spec fn return_draw_index(p: SimulationParameters, year: int) -> int {
    if year < p.accumulation_years() {
        year
    } else {
        p.accumulation_years() + 2 * (year - p.accumulation_years())
    }
}

/// The return of the year `year`, after tax.
pub open spec fn year_return(p: SimulationParameters, draws: Seq<i64>, year: int) -> int {
    taxed_return(
        scaled_draw(
            p.average_roi as int,
            p.roi_volatility as int,
            draws[return_draw_index(p, year)] as int,
        ),
        p.capital_gains_tax_rate as int,
    )
}

/// The inflation drawn after the year `year`, a year of retirement.
pub open spec fn year_inflation(p: SimulationParameters, draws: Seq<i64>, year: int) -> int {
    scaled_draw(
        p.average_inflation as int,
        p.inflation_volatility as int,
        draws[return_draw_index(p, year) + 1] as int,
    )
}

/// The state before the first year.
pub open spec fn initial_state(p: SimulationParameters) -> RunState {
    RunState { asset: p.current_assets as int, annual_expense: p.base_annual_expense() }
}

/// The state after the year `year`, given the state before it.
pub open spec fn next_state(
    p: SimulationParameters,
    draws: Seq<i64>,
    state: RunState,
    year: int,
) -> RunState {
    if year < p.accumulation_years() {
        RunState {
            asset: compounded(state.asset, year_return(p, draws, year), p.annual_savings as int),
            annual_expense: state.annual_expense,
        }
    } else {
        RunState {
            asset: compounded(
                state.asset,
                year_return(p, draws, year),
                p.annual_income(p.current_age + year) - state.annual_expense,
            ),
            annual_expense: compounded(state.annual_expense, year_inflation(p, draws, year), 0),
        }
    }
}

/// The state after the first `years` years.
pub open spec fn state_after(p: SimulationParameters, draws: Seq<i64>, years: nat) -> RunState
    decreases years,
{
    if years == 0 {
        initial_state(p)
    } else {
        next_state(p, draws, state_after(p, draws, (years - 1) as nat), years - 1)
    }
}

/// The balance recorded for the year `year`.
pub open spec fn asset_at(p: SimulationParameters, draws: Seq<i64>, year: int) -> int {
    state_after(p, draws, (year + 1) as nat).asset
}

/// The spending recorded for the year `year`: nothing before retirement, a
/// twelfth of the year's cost of living from then on.
pub open spec fn spending_at(p: SimulationParameters, draws: Seq<i64>, year: int) -> int {
    if year < p.accumulation_years() {
        0
    } else {
        state_after(p, draws, year as nat).annual_expense / 12
    }
}

/// Whether the run ends with a balance that is not negative.
pub open spec fn is_solvent(p: SimulationParameters, draws: Seq<i64>) -> bool {
    state_after(p, draws, p.num_years() as nat).asset >= 0
}

/// One run as a value: a point for each simulated year, and how it ended.
pub struct Trajectory {
    pub assets: Seq<int>,
    pub spendings: Seq<int>,
    pub solvent: bool,
}

/// The run that the parameters and the draws determine.
pub open spec fn trajectory_of(p: SimulationParameters, draws: Seq<i64>) -> Trajectory {
    Trajectory {
        assets: Seq::new(p.num_years() as nat, |year: int| asset_at(p, draws, year)),
        spendings: Seq::new(p.num_years() as nat, |year: int| spending_at(p, draws, year)),
        solvent: is_solvent(p, draws),
    }
}

/// What one run recorded.
#[derive(Debug, PartialEq, Eq)]
pub struct RunOutcome {
    /// The balance at the end of each year, in millionths.
    pub assets: Vec<i64>,
    /// The monthly spending of each year, in millionths.
    pub spendings: Vec<i64>,
    /// Whether the last balance is not negative.
    pub solvent: bool,
}

impl View for RunOutcome {
    type V = Trajectory;

    open spec fn view(&self) -> Trajectory {
        Trajectory {
            assets: Seq::new(self.assets@.len(), |year: int| self.assets@[year] as int),
            spendings: Seq::new(self.spendings@.len(), |year: int| self.spendings@[year] as int),
            solvent: self.solvent,
        }
    }
}

/// Taxes a yearly return where it is a gain.
pub fn effective_return(r: i64, tax_rate: i64) -> (net: i64)
    ensures
        net == taxed_return(r as int, tax_rate as int),
{
    if r > 0 {
        saturate(scale_product(r, SCALE as i128 - tax_rate as i128))
    } else {
        r
    }
}

pub(crate) fn compound(amount: i64, rate: i64, flow: i128) -> (r: i64)
    requires
        -0x1_0000_0000_0000_0000_0000 <= flow <= 0x1_0000_0000_0000_0000_0000,
    ensures
        r == compounded(amount as int, rate as int, flow as int),
{
    let grown: i128 = scale_product(amount, SCALE as i128 + rate as i128);
    saturate(grown + flow)
}

/// Simulates one run where the parameters are valid and `draws` holds the
/// standard-normal draws the run consumes, in the order of their use.
pub(crate) fn run_trajectory(params: &SimulationParameters, draws: &Vec<i64>) -> (outcome:
    RunOutcome)
    requires
        params.is_valid(),
        draws.len() >= params.draws_per_run(),
    ensures
        outcome@ == trajectory_of(*params, draws@),
        outcome.assets@.len() == params.num_years(),
        outcome.spendings@.len() == params.num_years(),
        forall|y: int|
            0 <= y < params.num_years() ==> #[trigger] outcome.assets@[y] == asset_at(
                *params,
                draws@,
                y,
            ),
        forall|y: int|
            0 <= y < params.num_years() ==> #[trigger] outcome.spendings@[y] == spending_at(
                *params,
                draws@,
                y,
            ),
        outcome.solvent == is_solvent(*params, draws@),
{
    let years: usize = params.year_count();
    let accumulation: usize = params.accumulation_year_count();
    let mut asset: i64 = params.current_assets;
    let mut annual_expense: i64 = params.first_annual_expense();
    let mut assets: Vec<i64> = Vec::new();
    let mut spendings: Vec<i64> = Vec::new();
    let mut year: usize = 0;
    while year < years
        invariant
            params.is_valid(),
            draws.len() >= params.draws_per_run(),
            years == params.num_years(),
            accumulation == params.accumulation_years(),
            year <= years,
            asset == state_after(*params, draws@, year as nat).asset,
            annual_expense == state_after(*params, draws@, year as nat).annual_expense,
            assets@.len() == year,
            spendings@.len() == year,
            forall|y: int| 0 <= y < year ==> assets@[y] == asset_at(*params, draws@, y),
            forall|y: int| 0 <= y < year ==> spendings@[y] == spending_at(*params, draws@, y),
        decreases years - year,
    {
        if year < accumulation {
            let r: i64 = effective_return(
                sample_normal(params.average_roi, params.roi_volatility, draws[year]),
                params.capital_gains_tax_rate,
            );
            asset = compound(asset, r, params.annual_savings as i128);
            assets.push(asset);
            spendings.push(0);
        } else {
            let at: usize = accumulation + 2 * (year - accumulation);
            let age: i64 = params.current_age + year as i64;
            let income: i128 = params.income_at(age);
            let r: i64 = effective_return(
                sample_normal(params.average_roi, params.roi_volatility, draws[at]),
                params.capital_gains_tax_rate,
            );
            asset = compound(asset, r, income - annual_expense as i128);
            assets.push(asset);
            let monthly: i64 = match annual_expense.checked_div_euclid(12) {
                Some(m) => m,
                None => 0,
            };
            spendings.push(monthly);
            let inflation: i64 = sample_normal(
                params.average_inflation,
                params.inflation_volatility,
                draws[at + 1],
            );
            annual_expense = compound(annual_expense, inflation, 0);
        }
        year += 1;
    }
    let outcome = RunOutcome { assets, spendings, solvent: asset >= 0 };
    proof {
        assert(outcome@.assets =~= trajectory_of(*params, draws@).assets);
        assert(outcome@.spendings =~= trajectory_of(*params, draws@).spendings);
    }
    outcome
}

/// Simulates one run: a balance and a monthly spending for each age from the
/// current age to the end age, and whether the last balance is not negative.
///
/// `draws` holds the standard-normal draws of the run, in millionths and in
/// the order of their use: one for the return of each year before
/// retirement, then for each year of retirement one for its return and one
/// for the inflation that follows it.
pub fn simulate_one_run(params: &SimulationParameters, draws: &Vec<i64>) -> (r: Result<
    RunOutcome,
    SimulationError,
>)
    ensures
        match r {
            Ok(outcome) => {
                &&& params.is_valid()
                &&& draws.len() >= params.draws_per_run()
                &&& outcome@ == trajectory_of(*params, draws@)
            },
            Err(SimulationError::InvalidParameters) => !params.is_valid(),
            Err(SimulationError::InsufficientDraws) => {
                &&& params.is_valid()
                &&& draws.len() < params.draws_per_run()
            },
        },
        r matches Ok(outcome) ==> {
            &&& outcome.assets@.len() == params.simulation_end_age - params.current_age + 1
            &&& outcome.spendings@.len() == outcome.assets@.len()
        },
{
    if params.validate().is_err() {
        return Err(SimulationError::InvalidParameters);
    }
    match params.required_draws() {
        Some(needed) => {
            if draws.len() < needed {
                Err(SimulationError::InsufficientDraws)
            } else {
                Ok(run_trajectory(params, draws))
            }
        },
        None => Err(SimulationError::InsufficientDraws),
    }
}

} // verus!
