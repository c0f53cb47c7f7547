use retirecalc::{
    aggregate, effective_return, sample_normal, simulate_one_run, RunOutcome, SimulationError,
    SimulationParameters, SimulationResults, SCALE,
};

/// Whole currency units in the millionths that the library counts in.
fn units(amount: i64) -> i64 {
    amount * SCALE
}

fn flat_household(current_assets: i64) -> SimulationParameters {
    SimulationParameters {
        current_age: 60,
        legal_retirement_age: 60,
        fixed_monthly_pension: 0,
        current_assets: units(current_assets),
        capital_gains_tax_rate: 0,
        annual_savings: 0,
        intended_retirement_age: 60,
        average_roi: 0,
        average_inflation: 0,
        roi_volatility: 0,
        inflation_volatility: 0,
        monthly_expenses: [0, 0, 0, 0, 0],
        annual_expenses: [0, 0, 0],
        simulation_runs: 1,
        simulation_end_age: 61,
    }
}

fn small_household() -> SimulationParameters {
    SimulationParameters {
        current_age: 50,
        legal_retirement_age: 52,
        fixed_monthly_pension: units(1_000),
        current_assets: units(100_000),
        capital_gains_tax_rate: 250_000,
        annual_savings: units(5_000),
        intended_retirement_age: 51,
        average_roi: 50_000,
        average_inflation: 20_000,
        roi_volatility: 100_000,
        inflation_volatility: 10_000,
        monthly_expenses: [units(100), units(200), units(300), units(400), units(500)],
        annual_expenses: [units(1_000), units(2_000), units(3_000)],
        simulation_runs: 1,
        simulation_end_age: 53,
    }
}

fn mixed_draws() -> Vec<i64> {
    vec![1_000_000, -2_000_000, 500_000, 1_500_000, -1_000_000, 0, 3_000_000]
}

struct Lcg(u64);

impl Lcg {
    fn next_draw(&mut self) -> i64 {
        self.0 = self.0.wrapping_mul(6364136223846793005).wrapping_add(1442695040888963407);
        ((self.0 >> 33) % 6_000_001) as i64 - 3_000_000
    }

    fn runs(&mut self, runs: usize, per_run: usize) -> Vec<Vec<i64>> {
        (0..runs).map(|_| (0..per_run).map(|_| self.next_draw()).collect()).collect()
    }
}

#[test]
fn flat_household_keeps_its_assets() {
    let results = aggregate(&flat_household(1_000), &vec![vec![0, 0, 0, 0]]).unwrap();
    assert_eq!(results.ages, vec![60, 61]);
    assert_eq!(results.assets, vec![1_000_000_000, 1_000_000_000]);
    assert_eq!(results.spendings, vec![0, 0]);
    assert_eq!(results.success_probability, SCALE);
    let assets: Vec<f64> = results.assets.iter().map(|a| *a as f64 / SCALE as f64).collect();
    assert_eq!(assets, vec![1000.0, 1000.0]);
    assert_eq!(results.success_probability as f64 / SCALE as f64, 1.0);
}

#[test]
fn flat_household_ignores_what_is_drawn() {
    let results = aggregate(&flat_household(1_000), &vec![vec![3_000_000, -7, 12, -2_500_000]]);
    assert_eq!(
        results,
        Ok(SimulationResults {
            ages: vec![60, 61],
            assets: vec![units(1_000), units(1_000)],
            spendings: vec![0, 0],
            success_probability: 1_000_000,
        })
    );
}

#[test]
fn indebted_household_never_succeeds() {
    let results = aggregate(&flat_household(-1_000), &vec![vec![0, 0, 0, 0]]).unwrap();
    assert_eq!(results.assets, vec![-1_000_000_000, -1_000_000_000]);
    assert_eq!(results.success_probability, 0);
    assert_eq!(results.success_probability as f64 / SCALE as f64, 0.0);
}

#[test]
fn no_runs_are_refused() {
    let mut params = flat_household(1_000);
    params.simulation_runs = 0;
    assert_eq!(aggregate(&params, &vec![vec![0, 0, 0, 0]]), Err(SimulationError::InvalidParameters));
    assert_eq!(aggregate(&params, &Vec::new()), Err(SimulationError::InvalidParameters));
    assert_eq!(params.validate(), Err(SimulationError::InvalidParameters));
    assert_eq!(params.required_draws(), None);
}

#[test]
fn negative_ages_are_refused() {
    let draws = vec![vec![0; 400]];
    let mut params = flat_household(1_000);
    params.current_age = -1;
    assert_eq!(aggregate(&params, &draws), Err(SimulationError::InvalidParameters));
    let mut params = flat_household(1_000);
    params.legal_retirement_age = -1;
    assert_eq!(aggregate(&params, &draws), Err(SimulationError::InvalidParameters));
    let mut params = flat_household(1_000);
    params.intended_retirement_age = -60;
    assert_eq!(aggregate(&params, &draws), Err(SimulationError::InvalidParameters));
    let mut params = flat_household(1_000);
    params.current_age = -5;
    params.simulation_end_age = -1;
    assert_eq!(aggregate(&params, &draws), Err(SimulationError::InvalidParameters));
    assert_eq!(simulate_one_run(&params, &draws[0]), Err(SimulationError::InvalidParameters));
}

#[test]
fn an_end_before_the_start_is_refused() {
    let mut params = flat_household(1_000);
    params.simulation_end_age = 59;
    assert_eq!(aggregate(&params, &vec![vec![0; 8]]), Err(SimulationError::InvalidParameters));
    assert_eq!(simulate_one_run(&params, &vec![0; 8]), Err(SimulationError::InvalidParameters));
    params.simulation_end_age = 60;
    assert_eq!(aggregate(&params, &vec![vec![0; 8]]).unwrap().ages, vec![60]);
}

#[test]
fn missing_draws_are_refused() {
    let mut params = small_household();
    assert_eq!(params.required_draws(), Some(7));
    assert_eq!(
        simulate_one_run(&params, &vec![0; 6]),
        Err(SimulationError::InsufficientDraws)
    );
    assert!(simulate_one_run(&params, &vec![0; 7]).is_ok());
    assert_eq!(aggregate(&params, &Vec::new()), Err(SimulationError::InsufficientDraws));
    params.simulation_runs = 3;
    assert_eq!(
        aggregate(&params, &vec![vec![0; 7], vec![0; 7]]),
        Err(SimulationError::InsufficientDraws)
    );
    assert_eq!(
        aggregate(&params, &vec![vec![0; 7], vec![0; 7], vec![0; 6]]),
        Err(SimulationError::InsufficientDraws)
    );
    assert!(aggregate(&params, &vec![vec![0; 7], vec![0; 7], vec![0; 7]]).is_ok());
}

#[test]
fn invalid_parameters_come_before_missing_draws() {
    let mut params = small_household();
    params.simulation_runs = 0;
    assert_eq!(aggregate(&params, &Vec::new()), Err(SimulationError::InvalidParameters));
    assert_eq!(simulate_one_run(&params, &Vec::new()), Err(SimulationError::InvalidParameters));
}

#[test]
fn spare_draws_change_nothing() {
    let mut params = small_household();
    params.simulation_runs = 1;
    let exact = aggregate(&params, &vec![mixed_draws()]).unwrap();
    let mut longer = mixed_draws();
    longer.extend([5_000_000, -5_000_000]);
    let spare = aggregate(&params, &vec![longer, vec![1, 2, 3]]).unwrap();
    assert_eq!(exact, spare);
}

#[test]
fn one_run_follows_its_draws() {
    let outcome = simulate_one_run(&small_household(), &mixed_draws()).unwrap();
    assert_eq!(
        outcome,
        RunOutcome {
            assets: vec![116_250_000_000, 74_812_500_000, 73_434_375_000, 63_342_164_062],
            spendings: vec![0, 2_000_000_000, 2_050_000_000, 2_070_500_000],
            solvent: true,
        }
    );
}

#[test]
fn a_run_that_ends_in_debt_is_not_solvent() {
    let outcome = simulate_one_run(&small_household(), &vec![-3_000_000; 7]).unwrap();
    assert_eq!(outcome.assets, vec![80_000_000_000, 36_000_000_000, 15_240_000_000, -92_400_000]);
    assert_eq!(outcome.spendings, vec![0, 2_000_000_000, 1_980_000_000, 1_960_200_000]);
    assert!(!outcome.solvent);
}

#[test]
fn debt_is_carried_to_the_end() {
    let mut params = small_household();
    params.current_assets = -100_000_000_001;
    let outcome = simulate_one_run(&params, &mixed_draws()).unwrap();
    assert_eq!(
        outcome.assets,
        vec![-106_250_000_002, -114_312_500_002, -144_059_375_003, -162_307_601_566]
    );
    assert!(!outcome.solvent);
}

#[test]
fn a_passing_debt_does_not_end_the_run() {
    let mut params = flat_household(-1_000);
    params.fixed_monthly_pension = units(100);
    params.simulation_end_age = 62;
    let outcome = simulate_one_run(&params, &vec![0; 6]).unwrap();
    assert_eq!(outcome.assets, vec![units(200), units(1_400), units(2_600)]);
    assert!(outcome.solvent);
    params.fixed_monthly_pension = units(50);
    params.legal_retirement_age = 61;
    let outcome = simulate_one_run(&params, &vec![0; 6]).unwrap();
    assert_eq!(outcome.assets, vec![units(-1_000), units(-400), units(200)]);
    assert!(outcome.solvent);
}

#[test]
fn means_are_taken_over_all_runs() {
    let mut params = small_household();
    params.simulation_runs = 3;
    let draws = vec![mixed_draws(), vec![0; 7], vec![-3_000_000; 7]];
    let results = aggregate(&params, &draws).unwrap();
    assert_eq!(results.ages, vec![50, 51, 52, 53]);
    assert_eq!(
        results.assets,
        vec![101_666_666_666, 66_546_875_000, 56_117_851_562, 44_315_770_995]
    );
    assert_eq!(results.spendings, vec![0, 2_000_000_000, 2_023_333_333, 2_037_166_666]);
    assert_eq!(results.success_probability, 666_666);
}

#[test]
fn means_of_debts_are_rounded_down() {
    let mut params = small_household();
    params.current_assets = -100_000_000_001;
    params.simulation_runs = 2;
    let draws = vec![mixed_draws(), vec![1, 2, 3, 4, 5, 6, 7]];
    let second = simulate_one_run(&params, &draws[1]).unwrap();
    assert_eq!(
        second.assets,
        vec![-98_750_000_002, -126_453_125_003, -143_675_117_191, -162_032_534_086]
    );
    let results = aggregate(&params, &draws).unwrap();
    assert_eq!(
        results.assets,
        vec![-102_500_000_002, -120_382_812_503, -143_867_246_097, -162_170_067_826]
    );
    assert_eq!(results.spendings, vec![0, 2_000_000_000, 2_045_000_000, 2_075_650_000]);
    assert_eq!(results.success_probability, 0);
}

#[test]
fn the_mean_of_one_run_is_the_run() {
    let params = small_household();
    let outcome = simulate_one_run(&params, &mixed_draws()).unwrap();
    let results = aggregate(&params, &vec![mixed_draws()]).unwrap();
    assert_eq!(results.assets, outcome.assets);
    assert_eq!(results.spendings, outcome.spendings);
    assert_eq!(results.success_probability, SCALE);
}

#[test]
fn the_same_draws_give_the_same_results() {
    let mut params = SimulationParameters::default();
    params.simulation_runs = 1;
    let draws = Lcg(7).runs(1, 68);
    let first = aggregate(&params, &draws).unwrap();
    let second = aggregate(&params, &draws.clone()).unwrap();
    assert_eq!(first, second);
    params.simulation_runs = 40;
    let draws = Lcg(7).runs(40, 68);
    assert_eq!(aggregate(&params, &draws), aggregate(&params, &Lcg(7).runs(40, 68)));
}

#[test]
fn default_household_on_known_draws() {
    let mut params = SimulationParameters::default();
    params.simulation_runs = 5;
    let draws = Lcg(42).runs(5, 68);
    assert_eq!(&draws[0][..3], &[-734_869, 1_178_946, 1_563_391]);
    let results = aggregate(&params, &draws).unwrap();
    assert_eq!(&results.assets[..3], &[626_060_880_000, 665_811_201_341, 710_374_216_067]);
    assert_eq!(results.assets[36], 2_459_926_947_274);
    assert_eq!(&results.spendings[5..8], &[0, 6_000_000_000, 6_151_663_200]);
    assert_eq!(results.spendings[36], 12_446_172_252);
    assert_eq!(results.success_probability, 400_000);
}

#[test]
fn every_year_has_its_point() {
    let mut params = SimulationParameters::default();
    params.simulation_runs = 12;
    let results = aggregate(&params, &Lcg(1).runs(12, 68)).unwrap();
    assert_eq!(results.ages.len(), 37);
    assert_eq!(results.assets.len(), 37);
    assert_eq!(results.spendings.len(), 37);
    assert_eq!(results.ages.first(), Some(&54));
    assert_eq!(results.ages.last(), Some(&90));
    params.current_age = 90;
    params.intended_retirement_age = 90;
    let results = aggregate(&params, &Lcg(1).runs(12, 2)).unwrap();
    assert_eq!((results.ages.len(), results.assets.len(), results.spendings.len()), (1, 1, 1));
}

#[test]
fn the_success_probability_is_a_share() {
    let mut params = SimulationParameters::default();
    params.simulation_runs = 25;
    for (seed, assets) in [(3, 600_000), (4, 0), (5, -50_000), (6, 100_000_000)] {
        params.current_assets = units(assets);
        let results = aggregate(&params, &Lcg(seed).runs(25, 68)).unwrap();
        assert!(0 <= results.success_probability && results.success_probability <= SCALE);
        assert_eq!(results.success_probability % (SCALE / 25), 0);
    }
    params.current_assets = units(100_000_000);
    assert_eq!(aggregate(&params, &Lcg(6).runs(25, 68)).unwrap().success_probability, SCALE);
}

#[test]
fn without_volatility_all_runs_coincide() {
    let mut params = SimulationParameters::default();
    params.roi_volatility = 0;
    params.inflation_volatility = 0;
    params.simulation_runs = 9;
    let one = simulate_one_run(&params, &Lcg(11).runs(1, 68)[0]).unwrap();
    let other = simulate_one_run(&params, &vec![0; 68]).unwrap();
    assert_eq!(one, other);
    let results = aggregate(&params, &Lcg(12).runs(9, 68)).unwrap();
    assert_eq!(results.assets, one.assets);
    assert_eq!(results.spendings, one.spendings);
    assert_eq!(results.success_probability, SCALE);
    params.current_assets = -1;
    params.annual_savings = 0;
    let results = aggregate(&params, &Lcg(13).runs(9, 68)).unwrap();
    assert_eq!(results.success_probability, 0);
}

#[test]
fn retiring_now_starts_with_a_year_of_retirement() {
    let mut params = small_household();
    params.intended_retirement_age = 50;
    assert_eq!(params.required_draws(), Some(8));
    let outcome = simulate_one_run(&params, &vec![0; 8]).unwrap();
    assert_eq!(outcome.spendings, vec![2_000_000_000, 2_040_000_000, 2_080_800_000, 2_122_416_000]);
    assert_eq!(outcome.assets[0], units(100_000 + 3_750 - 24_000));
    assert_eq!(
        outcome.assets,
        vec![79_750_000_000, 58_260_625_000, 47_475_798_437, 35_787_148_878]
    );
    params.intended_retirement_age = 51;
    let outcome = simulate_one_run(&params, &vec![0; 8]).unwrap();
    assert_eq!(outcome.spendings[0], 0);
    assert_eq!(outcome.assets[0], units(100_000 + 3_750 + 5_000));
}

#[test]
fn who_has_retired_saves_in_no_year() {
    let mut params = small_household();
    params.intended_retirement_age = 50;
    let now = simulate_one_run(&params, &vec![0; 8]).unwrap();
    params.intended_retirement_age = 40;
    assert_eq!(params.required_draws(), Some(8));
    let before = simulate_one_run(&params, &vec![0; 8]).unwrap();
    assert_eq!(now, before);
    assert_eq!(before.assets.len(), 4);
}

#[test]
fn who_never_retires_spends_in_no_year() {
    let mut params = small_household();
    params.intended_retirement_age = 54;
    assert_eq!(params.required_draws(), Some(4));
    let outcome = simulate_one_run(&params, &vec![0; 4]).unwrap();
    assert_eq!(outcome.spendings, vec![0, 0, 0, 0]);
    assert_eq!(
        outcome.assets,
        vec![108_750_000_000, 117_828_125_000, 127_246_679_687, 137_018_430_175]
    );
    params.intended_retirement_age = 99;
    assert_eq!(simulate_one_run(&params, &vec![0; 4]).unwrap(), outcome);
}

#[test]
fn retiring_in_the_last_year_leaves_one_year_of_retirement() {
    let mut params = small_household();
    params.intended_retirement_age = 53;
    assert_eq!(params.required_draws(), Some(3 + 2));
    let outcome = simulate_one_run(&params, &vec![0; 5]).unwrap();
    assert_eq!(outcome.spendings, vec![0, 0, 0, 2_000_000_000]);
    assert_eq!(
        outcome.assets,
        vec![108_750_000_000, 117_828_125_000, 127_246_679_687, 120_018_430_175]
    );
    assert!(outcome.solvent);
    assert_eq!(simulate_one_run(&params, &vec![0; 4]), Err(SimulationError::InsufficientDraws));
}

#[test]
fn the_pension_starts_at_the_legal_age() {
    let mut params = flat_household(0);
    params.fixed_monthly_pension = units(10);
    params.legal_retirement_age = 61;
    params.simulation_end_age = 62;
    let outcome = simulate_one_run(&params, &vec![0; 6]).unwrap();
    assert_eq!(outcome.assets, vec![0, units(120), units(240)]);
    params.intended_retirement_age = 62;
    params.legal_retirement_age = 0;
    let outcome = simulate_one_run(&params, &vec![0; 6]).unwrap();
    assert_eq!(outcome.assets, vec![0, 0, units(120)]);
}

#[test]
fn inflation_compounds_on_the_inflated_expense() {
    let mut params = flat_household(0);
    params.monthly_expenses = [units(1_000), 0, 0, 0, 0];
    params.average_inflation = 100_000;
    params.simulation_end_age = 62;
    let outcome = simulate_one_run(&params, &vec![0; 6]).unwrap();
    assert_eq!(outcome.spendings, vec![units(1_000), units(1_100), units(1_210)]);
    assert_eq!(outcome.assets, vec![units(-12_000), units(-25_200), units(-39_720)]);
}

#[test]
fn spendings_keep_their_fractions() {
    let params = SimulationParameters {
        current_age: 60,
        legal_retirement_age: 61,
        fixed_monthly_pension: units(100),
        current_assets: units(10_000),
        capital_gains_tax_rate: 0,
        annual_savings: 0,
        intended_retirement_age: 60,
        average_roi: 0,
        average_inflation: 500_000,
        roi_volatility: 0,
        inflation_volatility: 0,
        monthly_expenses: [units(10), units(20), units(30), units(40), 0],
        annual_expenses: [units(100), units(200), units(300)],
        simulation_runs: 1,
        simulation_end_age: 62,
    };
    let results = aggregate(&params, &vec![vec![7, -7, 7, -7, 7, -7]]).unwrap();
    assert_eq!(results.ages, vec![60, 61, 62]);
    assert_eq!(results.assets, vec![8_200_000_000, 6_700_000_000, 3_850_000_000]);
    assert_eq!(results.spendings, vec![150_000_000, 225_000_000, 337_500_000]);
    assert_eq!(results.success_probability, SCALE);
    let spendings: Vec<f64> = results.spendings.iter().map(|s| *s as f64 / SCALE as f64).collect();
    assert_eq!(spendings, vec![150.0, 225.0, 337.5]);
}

#[test]
fn balances_keep_their_fractions() {
    let params = SimulationParameters {
        current_age: 58,
        legal_retirement_age: 61,
        fixed_monthly_pension: units(1_000),
        current_assets: units(1_000),
        capital_gains_tax_rate: 500_000,
        annual_savings: units(100),
        intended_retirement_age: 59,
        average_roi: 500_000,
        average_inflation: 0,
        roi_volatility: 0,
        inflation_volatility: 0,
        monthly_expenses: [units(100), 0, 0, 0, 0],
        annual_expenses: [units(600), 0, 0],
        simulation_runs: 1,
        simulation_end_age: 61,
    };
    let results = aggregate(&params, &vec![vec![0; 7]]).unwrap();
    assert_eq!(results.ages, vec![58, 59, 60, 61]);
    assert_eq!(
        results.assets,
        vec![1_350_000_000, -112_500_000, -1_940_625_000, 7_774_218_750]
    );
    assert_eq!(results.spendings, vec![0, 150_000_000, 150_000_000, 150_000_000]);
    assert_eq!(results.success_probability, SCALE);
    let assets: Vec<f64> = results.assets.iter().map(|a| *a as f64 / SCALE as f64).collect();
    assert_eq!(assets, vec![1350.0, -112.5, -1940.625, 7774.21875]);
}

#[test]
fn what_is_smaller_than_a_millionth_is_rounded_down() {
    let mut params = flat_household(1);
    params.average_roi = 333_333;
    params.simulation_end_age = 62;
    let outcome = simulate_one_run(&params, &vec![0; 6]).unwrap();
    assert_eq!(outcome.assets, vec![1_333_333, 1_777_776, 2_370_367]);
    let mut params = flat_household(0);
    params.simulation_end_age = 60;
    params.annual_expenses = [units(100), 0, 0];
    let outcome = simulate_one_run(&params, &vec![0; 2]).unwrap();
    assert_eq!(outcome.spendings, vec![8_333_333]);
    params.annual_expenses = [units(-100), 0, 0];
    let outcome = simulate_one_run(&params, &vec![0; 2]).unwrap();
    assert_eq!(outcome.spendings, vec![-8_333_334]);
}

#[test]
fn balances_stop_at_the_largest_amount() {
    let mut params = small_household();
    params.current_assets = i64::MAX;
    params.average_roi = 1_000_000;
    params.roi_volatility = 0;
    params.capital_gains_tax_rate = 0;
    let outcome = simulate_one_run(&params, &mixed_draws()).unwrap();
    assert_eq!(outcome.assets, vec![i64::MAX; 4]);
    assert_eq!(outcome.spendings, vec![0, 2_000_000_000, 2_050_000_000, 2_070_500_000]);
    params.current_assets = i64::MIN;
    let outcome = simulate_one_run(&params, &mixed_draws()).unwrap();
    assert_eq!(outcome.assets, vec![i64::MIN; 4]);
    assert!(!outcome.solvent);
}

#[test]
fn a_draw_is_the_mean_plus_the_spread() {
    assert_eq!(sample_normal(120_000, 150_000, 1_000_000), 270_000);
    assert_eq!(sample_normal(120_000, 150_000, -2_000_000), -180_000);
    assert_eq!(sample_normal(120_000, 150_000, 0), 120_000);
    assert_eq!(sample_normal(25_000, 10_000, 1_234_567), 37_345);
    assert_eq!(sample_normal(0, 1, -1), -1);
    assert_eq!(sample_normal(-5, 3, -1_000_001), -9);
    assert_eq!(sample_normal(77, 0, i64::MIN), 77);
    assert_eq!(sample_normal(i64::MAX, i64::MAX, i64::MAX), i64::MAX);
    assert_eq!(sample_normal(0, i64::MAX, i64::MIN), i64::MIN);
}

#[test]
fn only_gains_are_taxed() {
    assert_eq!(effective_return(100_000, 262_500), 73_750);
    assert_eq!(effective_return(-100_000, 262_500), -100_000);
    assert_eq!(effective_return(0, 262_500), 0);
    assert_eq!(effective_return(1, 999_999), 0);
    assert_eq!(effective_return(150_000, 0), 150_000);
    assert_eq!(effective_return(i64::MAX, -i64::MAX), i64::MAX);
}

#[test]
fn default_parameters() {
    let params = SimulationParameters::default();
    assert_eq!(
        params,
        SimulationParameters {
            current_age: 54,
            legal_retirement_age: 67,
            fixed_monthly_pension: 5_000_000_000,
            current_assets: 600_000_000_000,
            capital_gains_tax_rate: 262_500,
            annual_savings: 18_000_000_000,
            intended_retirement_age: 60,
            average_roi: 120_000,
            average_inflation: 25_000,
            roi_volatility: 150_000,
            inflation_volatility: 10_000,
            monthly_expenses: [1_500_000_000, 1_500_000_000, 500_000_000, 500_000_000, 500_000_000],
            annual_expenses: [12_000_000_000, 3_000_000_000, 3_000_000_000],
            simulation_runs: 10_000,
            simulation_end_age: 90,
        }
    );
    assert_eq!(params.validate(), Ok(()));
    assert_eq!(params.required_draws(), Some(6 + 2 * 31));
    assert_eq!(params.capital_gains_tax_rate as f64 / SCALE as f64, 0.2625);
    assert_eq!(params.current_assets as f64 / SCALE as f64, 600000.0);
    assert_eq!(params.monthly_expenses.map(|m| m / SCALE), [1_500, 1_500, 500, 500, 500]);
}
