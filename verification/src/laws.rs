use crate::aggregate::{
    asset_total, mean_asset, mean_spending, solvent_runs, spending_total, success_share,
    summary_of,
};
use crate::fixed::{lemma_quotient_within, SCALE};
use crate::params::SimulationParameters;
use crate::sampler::scaled_draw;
use crate::trajectory::{
    asset_at, compounded, is_solvent, return_draw_index, spending_at, state_after, trajectory_of,
    year_inflation, year_return,
};
use vstd::arithmetic::div_mod::lemma_div_multiples_vanish;
use vstd::prelude::*;

verus! {

/// A distribution without spread gives its mean, whatever is drawn.
pub proof fn lemma_no_spread_gives_the_mean(mean: i64, z: int)
    ensures
        scaled_draw(mean as int, 0, z) == mean,
{
    assert(0 * z == 0) by (nonlinear_arith);
}

/// Without volatility a run does not depend on its draws: after any number
/// of years two runs on the same parameters are in the same state.
pub proof fn lemma_state_without_volatility(
    p: SimulationParameters,
    first: Seq<i64>,
    second: Seq<i64>,
    years: nat,
)
    requires
        p.roi_volatility == 0,
        p.inflation_volatility == 0,
    ensures
        state_after(p, first, years) == state_after(p, second, years),
    decreases years,
{
    if years > 0 {
        let year = years - 1;
        lemma_state_without_volatility(p, first, second, year as nat);
        assert(year_return(p, first, year) == year_return(p, second, year)) by {
            lemma_no_spread_gives_the_mean(p.average_roi, first[return_draw_index(p, year)] as int);
            lemma_no_spread_gives_the_mean(p.average_roi, second[return_draw_index(p, year)] as int);
        }
        assert(year_inflation(p, first, year) == year_inflation(p, second, year)) by {
            lemma_no_spread_gives_the_mean(
                p.average_inflation,
                first[return_draw_index(p, year) + 1] as int,
            );
            lemma_no_spread_gives_the_mean(
                p.average_inflation,
                second[return_draw_index(p, year) + 1] as int,
            );
        }
    }
}

/// Without volatility every run records the same trajectory and ends the
/// same way.
pub proof fn lemma_runs_identical_without_volatility(
    p: SimulationParameters,
    first: Seq<i64>,
    second: Seq<i64>,
)
    requires
        p.roi_volatility == 0,
        p.inflation_volatility == 0,
    ensures
        trajectory_of(p, first) == trajectory_of(p, second),
{
    assert forall|year: int| 0 <= year implies #[trigger] asset_at(
        p,
        first,
        year,
    ) == asset_at(p, second, year) by {
        lemma_state_without_volatility(p, first, second, (year + 1) as nat);
    }
    assert forall|year: int| 0 <= year implies #[trigger] spending_at(
        p,
        first,
        year,
    ) == spending_at(p, second, year) by {
        lemma_state_without_volatility(p, first, second, year as nat);
    }
    lemma_state_without_volatility(p, first, second, p.num_years() as nat);
    assert(trajectory_of(p, first).assets =~= trajectory_of(p, second).assets);
    assert(trajectory_of(p, first).spendings =~= trajectory_of(p, second).spendings);
}

/// Without volatility either every one of the first `runs` runs ends
/// solvent or none does.
proof fn lemma_solvent_runs_without_volatility(
    p: SimulationParameters,
    draws: Seq<Seq<i64>>,
    runs: nat,
)
    requires
        p.roi_volatility == 0,
        p.inflation_volatility == 0,
    ensures
        solvent_runs(p, draws, runs) == if is_solvent(p, Seq::empty()) {
            runs as int
        } else {
            0
        },
    decreases runs,
{
    if runs > 0 {
        lemma_solvent_runs_without_volatility(p, draws, (runs - 1) as nat);
        lemma_state_without_volatility(p, draws[runs - 1], Seq::empty(), p.num_years() as nat);
    }
}

/// Without volatility the totals of the first `runs` runs are `runs` times
/// the point of any one run.
proof fn lemma_totals_without_volatility(
    p: SimulationParameters,
    draws: Seq<Seq<i64>>,
    runs: nat,
    year: int,
)
    requires
        p.roi_volatility == 0,
        p.inflation_volatility == 0,
        year >= 0,
    ensures
        asset_total(p, draws, runs, year) == runs * asset_at(p, Seq::empty(), year),
        spending_total(p, draws, runs, year) == runs * spending_at(p, Seq::empty(), year),
    decreases runs,
{
    if runs > 0 {
        lemma_totals_without_volatility(p, draws, (runs - 1) as nat, year);
        lemma_state_without_volatility(p, draws[runs - 1], Seq::empty(), (year + 1) as nat);
        lemma_state_without_volatility(p, draws[runs - 1], Seq::empty(), year as nat);
        let a = asset_at(p, Seq::empty(), year);
        let s = spending_at(p, Seq::empty(), year);
        assert((runs - 1) * a + a == runs * a) by (nonlinear_arith);
        assert((runs - 1) * s + s == runs * s) by (nonlinear_arith);
    } else {
        assert(0 * asset_at(p, Seq::empty(), year) == 0) by (nonlinear_arith);
        assert(0 * spending_at(p, Seq::empty(), year) == 0) by (nonlinear_arith);
    }
}

/// Without volatility the simulation collapses to one trajectory: each mean
/// is the point that every run records, and the share of solvent runs is
/// exactly none or exactly all.
pub proof fn lemma_results_without_volatility(p: SimulationParameters, draws: Seq<Seq<i64>>)
    requires
        p.simulation_runs >= 1,
        p.roi_volatility == 0,
        p.inflation_volatility == 0,
    ensures
        success_share(p, draws) == 0 || success_share(p, draws) == SCALE,
        success_share(p, draws) == SCALE <==> is_solvent(p, Seq::empty()),
        forall|year: int|
            0 <= year ==> #[trigger] mean_asset(p, draws, year) == asset_at(
                p,
                Seq::empty(),
                year,
            ),
        forall|year: int|
            0 <= year ==> #[trigger] mean_spending(p, draws, year) == spending_at(
                p,
                Seq::empty(),
                year,
            ),
{
    let runs = p.simulation_runs as int;
    lemma_solvent_runs_without_volatility(p, draws, runs as nat);
    if is_solvent(p, Seq::empty()) {
        lemma_div_multiples_vanish(SCALE as int, runs);
    } else {
        assert(0 * (SCALE as int) == 0);
        lemma_quotient_within(0, runs, 0, 0);
    }
    assert forall|year: int| 0 <= year implies #[trigger] mean_asset(p, draws, year) == asset_at(
        p,
        Seq::empty(),
        year,
    ) by {
        lemma_totals_without_volatility(p, draws, runs as nat, year);
        lemma_div_multiples_vanish(asset_at(p, Seq::empty(), year), runs);
    }
    assert forall|year: int| 0 <= year implies #[trigger] mean_spending(p, draws, year)
        == spending_at(p, Seq::empty(), year) by {
        lemma_totals_without_volatility(p, draws, runs as nat, year);
        lemma_div_multiples_vanish(spending_at(p, Seq::empty(), year), runs);
    }
}

/// Who retires at once, or has retired, saves in no simulated year: the
/// first point is a point of retirement, drawn down by the first year's cost
/// of living.
pub proof fn lemma_no_accumulation_once_retired(p: SimulationParameters, draws: Seq<i64>)
    requires
        p.is_valid(),
        p.intended_retirement_age <= p.current_age,
    ensures
        p.accumulation_years() == 0,
        p.distribution_years() == p.num_years(),
        asset_at(p, draws, 0) == compounded(
            p.current_assets as int,
            year_return(p, draws, 0),
            p.annual_income(p.current_age as int) - p.base_annual_expense(),
        ),
        spending_at(p, draws, 0) == p.base_annual_expense() / 12,
{
    reveal_with_fuel(state_after, 2);
}

/// A run reads no draw but those it consumes: two sequences of draws that
/// agree on them lead to the same state after each simulated year.
pub proof fn lemma_state_follows_consumed_draws(
    p: SimulationParameters,
    first: Seq<i64>,
    second: Seq<i64>,
    years: nat,
)
    requires
        p.is_valid(),
        years <= p.num_years(),
        forall|i: int| 0 <= i < p.draws_per_run() ==> first[i] == second[i],
    ensures
        state_after(p, first, years) == state_after(p, second, years),
    decreases years,
{
    if years > 0 {
        let year = years - 1;
        lemma_state_follows_consumed_draws(p, first, second, year as nat);
        let at = return_draw_index(p, year);
        assert(0 <= at < p.draws_per_run());
        assert(first[at] == second[at]);
        if year >= p.accumulation_years() {
            assert(first[at + 1] == second[at + 1]);
        }
    }
}

/// Two runs on the same parameters whose draws agree as far as a run
/// consumes them record the same trajectory and end the same way.
pub proof fn lemma_run_follows_consumed_draws(
    p: SimulationParameters,
    first: Seq<i64>,
    second: Seq<i64>,
)
    requires
        p.is_valid(),
        forall|i: int| 0 <= i < p.draws_per_run() ==> first[i] == second[i],
    ensures
        trajectory_of(p, first) == trajectory_of(p, second),
{
    assert forall|year: int| 0 <= year < p.num_years() implies #[trigger] asset_at(
        p,
        first,
        year,
    ) == asset_at(p, second, year) by {
        lemma_state_follows_consumed_draws(p, first, second, (year + 1) as nat);
    }
    assert forall|year: int| 0 <= year < p.num_years() implies #[trigger] spending_at(
        p,
        first,
        year,
    ) == spending_at(p, second, year) by {
        lemma_state_follows_consumed_draws(p, first, second, year as nat);
    }
    lemma_state_follows_consumed_draws(p, first, second, p.num_years() as nat);
    assert(trajectory_of(p, first).assets =~= trajectory_of(p, second).assets);
    assert(trajectory_of(p, first).spendings =~= trajectory_of(p, second).spendings);
}

/// Whether two simulations are given the same draws, as far as their runs
/// consume them.
pub open spec fn same_consumed_draws(
    p: SimulationParameters,
    first: Seq<Seq<i64>>,
    second: Seq<Seq<i64>>,
) -> bool {
    forall|run: int, i: int|
        0 <= run < p.simulation_runs && 0 <= i < p.draws_per_run() ==> #[trigger] first[run][i]
            == second[run][i]
}

/// The totals of the first `runs` runs depend on the consumed draws alone.
proof fn lemma_totals_follow_consumed_draws(
    p: SimulationParameters,
    first: Seq<Seq<i64>>,
    second: Seq<Seq<i64>>,
    runs: nat,
    year: int,
)
    requires
        p.is_valid(),
        same_consumed_draws(p, first, second),
        runs <= p.simulation_runs,
        0 <= year < p.num_years(),
    ensures
        asset_total(p, first, runs, year) == asset_total(p, second, runs, year),
        spending_total(p, first, runs, year) == spending_total(p, second, runs, year),
        solvent_runs(p, first, runs) == solvent_runs(p, second, runs),
    decreases runs,
{
    if runs > 0 {
        let run = runs - 1;
        lemma_totals_follow_consumed_draws(p, first, second, run as nat, year);
        assert forall|i: int| 0 <= i < p.draws_per_run() implies first[run][i] == second[run][i] by {
            assert(first[run][i] == second[run][i]);
        }
        lemma_state_follows_consumed_draws(p, first[run], second[run], (year + 1) as nat);
        lemma_state_follows_consumed_draws(p, first[run], second[run], year as nat);
        lemma_state_follows_consumed_draws(p, first[run], second[run], p.num_years() as nat);
    }
}

/// The simulation is a function of its parameters and of the draws its runs
/// consume: given the same, it gives the same results, whatever else the
/// sequences of draws hold.
pub proof fn lemma_results_follow_consumed_draws(
    p: SimulationParameters,
    first: Seq<Seq<i64>>,
    second: Seq<Seq<i64>>,
)
    requires
        p.is_valid(),
        same_consumed_draws(p, first, second),
    ensures
        summary_of(p, first) == summary_of(p, second),
{
    let runs = p.simulation_runs as nat;
    assert forall|year: int| 0 <= year < p.num_years() implies #[trigger] mean_asset(
        p,
        first,
        year,
    ) == mean_asset(p, second, year) by {
        lemma_totals_follow_consumed_draws(p, first, second, runs, year);
    }
    assert forall|year: int| 0 <= year < p.num_years() implies #[trigger] mean_spending(
        p,
        first,
        year,
    ) == mean_spending(p, second, year) by {
        lemma_totals_follow_consumed_draws(p, first, second, runs, year);
    }
    lemma_totals_follow_consumed_draws(p, first, second, runs, 0);
    assert(summary_of(p, first).ages =~= summary_of(p, second).ages);
    assert(summary_of(p, first).assets =~= summary_of(p, second).assets);
    assert(summary_of(p, first).spendings =~= summary_of(p, second).spendings);
}

/// The totals of the first `runs` runs read the draws of those runs alone.
proof fn lemma_totals_read_their_runs(
    p: SimulationParameters,
    first: Seq<Seq<i64>>,
    second: Seq<Seq<i64>>,
    runs: nat,
    year: int,
)
    requires
        runs <= first.len(),
    ensures
        asset_total(p, first + second, runs, year) == asset_total(p, first, runs, year),
        spending_total(p, first + second, runs, year) == spending_total(p, first, runs, year),
        solvent_runs(p, first + second, runs) == solvent_runs(p, first, runs),
    decreases runs,
{
    if runs > 0 {
        lemma_totals_read_their_runs(p, first, second, (runs - 1) as nat, year);
        assert((first + second)[runs - 1] == first[runs - 1]);
    }
}

/// The first `runs` runs of a second batch add their totals to those of a
/// whole first batch.
proof fn lemma_totals_of_a_begun_batch(
    p: SimulationParameters,
    first: Seq<Seq<i64>>,
    second: Seq<Seq<i64>>,
    runs: nat,
    year: int,
)
    requires
        runs <= second.len(),
    ensures
        asset_total(p, first + second, first.len() + runs, year) == asset_total(
            p,
            first,
            first.len(),
            year,
        ) + asset_total(p, second, runs, year),
        spending_total(p, first + second, first.len() + runs, year) == spending_total(
            p,
            first,
            first.len(),
            year,
        ) + spending_total(p, second, runs, year),
        solvent_runs(p, first + second, first.len() + runs) == solvent_runs(
            p,
            first,
            first.len(),
        ) + solvent_runs(p, second, runs),
    decreases runs,
{
    if runs == 0 {
        lemma_totals_read_their_runs(p, first, second, first.len(), year);
    } else {
        lemma_totals_of_a_begun_batch(p, first, second, (runs - 1) as nat, year);
        assert((first + second)[first.len() + runs - 1] == second[runs - 1]);
    }
}

/// Runs may be simulated in batches and their totals added afterwards: the
/// totals of two batches add up to the totals of all their runs.
pub proof fn lemma_totals_of_batches_add_up(
    p: SimulationParameters,
    first: Seq<Seq<i64>>,
    second: Seq<Seq<i64>>,
    year: int,
)
    ensures
        asset_total(p, first + second, first.len() + second.len(), year) == asset_total(
            p,
            first,
            first.len(),
            year,
        ) + asset_total(p, second, second.len(), year),
        spending_total(p, first + second, first.len() + second.len(), year) == spending_total(
            p,
            first,
            first.len(),
            year,
        ) + spending_total(p, second, second.len(), year),
        solvent_runs(p, first + second, first.len() + second.len()) == solvent_runs(
            p,
            first,
            first.len(),
        ) + solvent_runs(p, second, second.len()),
{
    lemma_totals_of_a_begun_batch(p, first, second, second.len(), year);
}

/// The mean over a single run is the run: its points are the results'
/// points, and the share of solvent runs is all or none as it ended.
pub proof fn lemma_single_run_results(p: SimulationParameters, draws: Seq<Seq<i64>>)
    requires
        p.simulation_runs == 1,
    ensures
        forall|year: int| #[trigger]
            mean_asset(p, draws, year) == asset_at(p, draws[0], year),
        forall|year: int| #[trigger]
            mean_spending(p, draws, year) == spending_at(p, draws[0], year),
        success_share(p, draws) == if is_solvent(p, draws[0]) {
            SCALE as int
        } else {
            0
        },
{
    reveal_with_fuel(asset_total, 2);
    reveal_with_fuel(spending_total, 2);
    reveal_with_fuel(solvent_runs, 2);
}

/// No more runs end solvent than there are runs.
proof fn lemma_solvent_runs_within(p: SimulationParameters, draws: Seq<Seq<i64>>, runs: nat)
    ensures
        0 <= solvent_runs(p, draws, runs) <= runs,
    decreases runs,
{
    if runs > 0 {
        lemma_solvent_runs_within(p, draws, (runs - 1) as nat);
    }
}

/// The success probability is a share: it lies between nothing and one.
pub proof fn lemma_success_share_is_a_share(p: SimulationParameters, draws: Seq<Seq<i64>>)
    requires
        p.simulation_runs >= 1,
    ensures
        0 <= success_share(p, draws) <= SCALE,
{
    let runs = p.simulation_runs as int;
    let solvent = solvent_runs(p, draws, runs as nat);
    lemma_solvent_runs_within(p, draws, runs as nat);
    assert(runs * 0 <= solvent * SCALE <= runs * SCALE) by (nonlinear_arith)
        requires
            0 <= solvent <= runs,
    ;
    lemma_quotient_within(solvent * SCALE, runs, 0, SCALE as int);
}

/// The results hold one age, one mean balance and one mean spending for
/// each age from the current age to the end age.
pub proof fn lemma_summary_has_a_point_for_each_year(
    p: SimulationParameters,
    draws: Seq<Seq<i64>>,
)
    requires
        p.is_valid(),
    ensures
        summary_of(p, draws).ages.len() == p.simulation_end_age - p.current_age + 1,
        summary_of(p, draws).assets.len() == summary_of(p, draws).ages.len(),
        summary_of(p, draws).spendings.len() == summary_of(p, draws).ages.len(),
        summary_of(p, draws).ages.first() == p.current_age,
        summary_of(p, draws).ages.last() == p.simulation_end_age,
{
}

} // verus!
