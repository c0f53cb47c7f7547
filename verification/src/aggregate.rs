use crate::fixed::{lemma_quotient_within, saturate, SCALE};
use crate::params::{SimulationError, SimulationParameters};
use crate::trajectory::{asset_at, is_solvent, run_trajectory, spending_at, RunOutcome};
use vstd::prelude::*;

verus! {

/// The draws of each run, as values.
pub open spec fn draw_sequences(draws: Seq<Vec<i64>>) -> Seq<Seq<i64>> {
    Seq::new(draws.len(), |run: int| draws[run]@)
}

/// Whether there is a sequence of draws for every run, each as long as a run
/// consumes.
pub open spec fn draws_suffice(p: SimulationParameters, draws: Seq<Seq<i64>>) -> bool {
    &&& draws.len() >= p.simulation_runs
    &&& forall|run: int|
        0 <= run < p.simulation_runs ==> (#[trigger] draws[run]).len() >= p.draws_per_run()
}

/// The balances that the first `runs` runs recorded for the year `year`, added up.
pub open spec fn asset_total(
    p: SimulationParameters,
    draws: Seq<Seq<i64>>,
    runs: nat,
    year: int,
) -> int
    decreases runs,
{
    if runs == 0 {
        0
    } else {
        asset_total(p, draws, (runs - 1) as nat, year) + asset_at(p, draws[runs - 1], year)
    }
}

/// The spendings that the first `runs` runs recorded for the year `year`, added up.
pub open spec fn spending_total(
    p: SimulationParameters,
    draws: Seq<Seq<i64>>,
    runs: nat,
    year: int,
) -> int
    decreases runs,
{
    if runs == 0 {
        0
    } else {
        spending_total(p, draws, (runs - 1) as nat, year) + spending_at(p, draws[runs - 1], year)
    }
}

/// How many of the first `runs` runs end with a balance that is not negative.
pub open spec fn solvent_runs(p: SimulationParameters, draws: Seq<Seq<i64>>, runs: nat) -> int
    decreases runs,
{
    if runs == 0 {
        0
    } else {
        solvent_runs(p, draws, (runs - 1) as nat) + if is_solvent(p, draws[runs - 1]) {
            1int
        } else {
            0int
        }
    }
}

/// The mean balance of the year `year` over all runs, rounded down.
pub open spec fn mean_asset(p: SimulationParameters, draws: Seq<Seq<i64>>, year: int) -> int {
    asset_total(p, draws, p.simulation_runs as nat, year) / (p.simulation_runs as int)
}

/// The mean monthly spending of the year `year` over all runs, rounded down.
pub open spec fn mean_spending(p: SimulationParameters, draws: Seq<Seq<i64>>, year: int) -> int {
    spending_total(p, draws, p.simulation_runs as nat, year) / (p.simulation_runs as int)
}

/// The share of the runs that end solvent, in millionths and rounded down.
pub open spec fn success_share(p: SimulationParameters, draws: Seq<Seq<i64>>) -> int {
    (solvent_runs(p, draws, p.simulation_runs as nat) * SCALE) / (p.simulation_runs as int)
}

/// A simulation's results as a value.
pub struct Summary {
    pub ages: Seq<int>,
    pub assets: Seq<int>,
    pub spendings: Seq<int>,
    pub success_probability: int,
}

/// The results that the parameters and the draws of each run determine.
pub open spec fn summary_of(p: SimulationParameters, draws: Seq<Seq<i64>>) -> Summary {
    Summary {
        ages: Seq::new(p.num_years() as nat, |year: int| p.current_age + year),
        assets: Seq::new(p.num_years() as nat, |year: int| mean_asset(p, draws, year)),
        spendings: Seq::new(p.num_years() as nat, |year: int| mean_spending(p, draws, year)),
        success_probability: success_share(p, draws),
    }
}

/// The mean trajectory over all runs, and how often a run ended solvent.
#[derive(Debug, PartialEq, Eq)]
pub struct SimulationResults {
    /// Each age from the current age to the end age.
    pub ages: Vec<i64>,
    /// The mean balance at the end of each year, in millionths.
    pub assets: Vec<i64>,
    /// The mean monthly spending of each year, in millionths.
    pub spendings: Vec<i64>,
    /// The share of the runs whose last balance is not negative, in
    /// millionths.
    pub success_probability: i64,
}

impl View for SimulationResults {
    type V = Summary;

    open spec fn view(&self) -> Summary {
        Summary {
            ages: Seq::new(self.ages@.len(), |year: int| self.ages@[year] as int),
            assets: Seq::new(self.assets@.len(), |year: int| self.assets@[year] as int),
            spendings: Seq::new(self.spendings@.len(), |year: int| self.spendings@[year] as int),
            success_probability: self.success_probability as int,
        }
    }
}

fn draws_are_sufficient(params: &SimulationParameters, draws: &Vec<Vec<i64>>) -> (enough: bool)
    requires
        params.is_valid(),
    ensures
        enough == draws_suffice(*params, draw_sequences(draws@)),
{
    if draws.len() < params.simulation_runs {
        return false;
    }
    match params.required_draws() {
        None => {
            assert(draw_sequences(draws@)[0].len() == draws[0].len());
            false
        },
        Some(needed) => {
            let mut run: usize = 0;
            while run < params.simulation_runs
                invariant
                    run <= params.simulation_runs <= draws.len(),
                    needed == params.draws_per_run(),
                    forall|j: int|
                        0 <= j < run ==> (#[trigger] draw_sequences(draws@)[j]).len() >= needed,
                decreases params.simulation_runs - run,
            {
                if draws[run].len() < needed {
                    assert(draw_sequences(draws@)[run as int].len() < needed);
                    return false;
                }
                run += 1;
            }
            true
        },
    }
}

fn zeros(len: usize) -> (totals: Vec<i128>)
    ensures
        totals@.len() == len,
        forall|y: int| 0 <= y < len ==> totals@[y] == 0,
{
    let mut totals: Vec<i128> = Vec::new();
    let mut y: usize = 0;
    while y < len
        invariant
            y <= len,
            totals@.len() == y,
            forall|j: int| 0 <= j < y ==> totals@[j] == 0,
        decreases len - y,
    {
        totals.push(0);
        y += 1;
    }
    totals
}

/// Adds the points of one more run to the totals of `runs` runs.
fn add_points(totals: &mut Vec<i128>, points: &Vec<i64>, runs: usize)
    requires
        old(totals)@.len() == points@.len(),
        runs < usize::MAX,
        forall|y: int|
            0 <= y < points@.len() ==> runs * i64::MIN <= #[trigger] old(totals)@[y] <= runs
                * i64::MAX,
    ensures
        final(totals)@.len() == points@.len(),
        forall|y: int|
            0 <= y < points@.len() ==> #[trigger] final(totals)@[y] == old(totals)@[y]
                + points@[y],
{
    let ghost before = totals@;
    let mut y: usize = 0;
    while y < points.len()
        invariant
            y <= points@.len(),
            runs < usize::MAX,
            before.len() == points@.len(),
            totals@.len() == points@.len(),
            forall|j: int|
                0 <= j < points@.len() ==> runs * i64::MIN <= #[trigger] before[j] <= runs
                    * i64::MAX,
            forall|j: int| 0 <= j < y ==> #[trigger] totals@[j] == before[j] + points@[j],
            forall|j: int| y <= j < points@.len() ==> #[trigger] totals@[j] == before[j],
        decreases points@.len() - y,
    {
        let sum: i128 = totals[y] + points[y] as i128;
        totals.set(y, sum);
        y += 1;
    }
}

/// Divides the totals of `runs` runs by the number of runs.
fn mean_points(totals: &Vec<i128>, runs: usize) -> (means: Vec<i64>)
    requires
        runs >= 1,
        forall|y: int|
            0 <= y < totals@.len() ==> runs * i64::MIN <= #[trigger] totals@[y] <= runs
                * i64::MAX,
    ensures
        means@.len() == totals@.len(),
        forall|y: int|
            0 <= y < totals@.len() ==> #[trigger] means@[y] == (totals@[y] as int) / (runs as int),
{
    let mut means: Vec<i64> = Vec::new();
    let mut y: usize = 0;
    while y < totals.len()
        invariant
            runs >= 1,
            y <= totals@.len(),
            means@.len() == y,
            forall|j: int|
                0 <= j < totals@.len() ==> runs * i64::MIN <= #[trigger] totals@[j] <= runs
                    * i64::MAX,
            forall|j: int| 0 <= j < y ==> #[trigger] means@[j] == (totals@[j] as int) / (runs as int),
        decreases totals@.len() - y,
    {
        proof {
            lemma_quotient_within(
                totals@[y as int] as int,
                runs as int,
                i64::MIN as int,
                i64::MAX as int,
            );
        }
        let mean: i128 = match totals[y].checked_div_euclid(runs as i128) {
            Some(q) => q,
            None => 0,
        };
        means.push(saturate(mean));
        y += 1;
    }
    means
}

/// The share that `solvent` runs are of `runs` runs, in millionths.
fn success_probability(solvent: usize, runs: usize) -> (share: i64)
    requires
        runs >= 1,
        solvent <= runs,
    ensures
        share == (solvent * SCALE) / (runs as int),
        0 <= share <= SCALE,
{
    let scaled: u128 = solvent as u128 * 1_000_000;
    proof {
        lemma_quotient_within(scaled as int, runs as int, 0, SCALE as int);
    }
    let share: u128 = scaled / (runs as u128);
    share as i64
}

fn ages_from(first: i64, years: usize) -> (ages: Vec<i64>)
    requires
        first >= 0,
        first + years <= i64::MAX + 1,
    ensures
        ages@.len() == years,
        forall|y: int| 0 <= y < years ==> #[trigger] ages@[y] == first + y,
{
    let mut ages: Vec<i64> = Vec::new();
    let mut y: usize = 0;
    while y < years
        invariant
            y <= years,
            first >= 0,
            first + years <= i64::MAX + 1,
            ages@.len() == y,
            forall|j: int| 0 <= j < y ==> #[trigger] ages@[j] == first + j,
        decreases years - y,
    {
        ages.push(first + y as i64);
        y += 1;
    }
    ages
}

/// Runs the simulation: `simulation_runs` runs, the run `k` on the draws
/// `draws[k]`, and from them the mean balance and the mean monthly spending of
/// each year and the share of the runs that ended solvent.
///
/// Nothing is simulated unless the parameters are valid and every run has
/// the draws it consumes (see
/// [`crate::trajectory::simulate_one_run`] for their order).
pub fn aggregate(params: &SimulationParameters, draws: &Vec<Vec<i64>>) -> (r: Result<
    SimulationResults,
    SimulationError,
>)
    ensures
        match r {
            Ok(results) => {
                &&& params.is_valid()
                &&& draws_suffice(*params, draw_sequences(draws@))
                &&& results@ == summary_of(*params, draw_sequences(draws@))
            },
            Err(SimulationError::InvalidParameters) => !params.is_valid(),
            Err(SimulationError::InsufficientDraws) => {
                &&& params.is_valid()
                &&& !draws_suffice(*params, draw_sequences(draws@))
            },
        },
        r matches Ok(results) ==> {
            &&& results.ages@.len() == params.simulation_end_age - params.current_age + 1
            &&& results.assets@.len() == results.ages@.len()
            &&& results.spendings@.len() == results.ages@.len()
            &&& 0 <= results.success_probability <= SCALE
        },
{
    if params.validate().is_err() {
        return Err(SimulationError::InvalidParameters);
    }
    if !draws_are_sufficient(params, draws) {
        return Err(SimulationError::InsufficientDraws);
    }
    let ghost sequences = draw_sequences(draws@);
    assert(sequences[0].len() == draws[0].len());
    let years: usize = params.year_count();
    let runs: usize = params.simulation_runs;
    let mut asset_totals: Vec<i128> = zeros(years);
    let mut spending_totals: Vec<i128> = zeros(years);
    let mut solvent: usize = 0;
    let mut run: usize = 0;
    while run < runs
        invariant
            params.is_valid(),
            draws_suffice(*params, sequences),
            sequences == draw_sequences(draws@),
            runs == params.simulation_runs,
            years == params.num_years(),
            run <= runs,
            asset_totals@.len() == years,
            spending_totals@.len() == years,
            forall|y: int|
                0 <= y < years ==> #[trigger] asset_totals@[y] == asset_total(
                    *params,
                    sequences,
                    run as nat,
                    y,
                ),
            forall|y: int|
                0 <= y < years ==> #[trigger] spending_totals@[y] == spending_total(
                    *params,
                    sequences,
                    run as nat,
                    y,
                ),
            forall|y: int|
                0 <= y < years ==> run * i64::MIN <= #[trigger] asset_totals@[y] <= run
                    * i64::MAX,
            forall|y: int|
                0 <= y < years ==> run * i64::MIN <= #[trigger] spending_totals@[y] <= run
                    * i64::MAX,
            solvent == solvent_runs(*params, sequences, run as nat),
            solvent <= run,
        decreases runs - run,
    {
        assert(sequences[run as int] == draws[run as int]@);
        let outcome: RunOutcome = run_trajectory(params, &draws[run]);
        add_points(&mut asset_totals, &outcome.assets, run);
        add_points(&mut spending_totals, &outcome.spendings, run);
        if outcome.solvent {
            solvent += 1;
        }
        run += 1;
    }
    let results = SimulationResults {
        ages: ages_from(params.current_age, years),
        assets: mean_points(&asset_totals, runs),
        spendings: mean_points(&spending_totals, runs),
        success_probability: success_probability(solvent, runs),
    };
    proof {
        let expected = summary_of(*params, sequences);
        assert(results@.ages =~= expected.ages);
        assert(results@.assets =~= expected.assets);
        assert(results@.spendings =~= expected.spendings);
    }
    Ok(results)
}

} // verus!
