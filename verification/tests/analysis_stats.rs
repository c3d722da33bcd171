use avellaneda_stoikov_rs::analysis::{
    apply_combination, assemble_sweep_result, combinations, sharpe_decision, summarize_run,
    Combination, SweepConfig,
};
use avellaneda_stoikov_rs::model::{ConfigError, Num, Parameters};
use avellaneda_stoikov_rs::sim::{SimConfig, TrajectoryEngine};
use avellaneda_stoikov_rs::analysis::validate_sweep;

fn num(x: f64) -> Num {
    Num { bits: x.to_bits() }
}

fn nums(xs: &[f64]) -> Vec<Num> {
    xs.iter().map(|&x| num(x)).collect()
}

fn sim_config() -> SimConfig {
    SimConfig {
        dt: num(0.005),
        num_steps: 200,
        s_0: num(100.0),
        drift: num(0.0),
        latency_steps: 0,
    }
}

fn sweep_config(gammas: &[f64], sigmas: &[f64], ks: &[f64], drifts: &[f64]) -> SweepConfig {
    SweepConfig {
        gammas: nums(gammas),
        sigmas: nums(sigmas),
        ks: nums(ks),
        drifts: nums(drifts),
        sim_config: sim_config(),
        iterations_per_param: 10,
    }
}

#[test]
fn two_gammas_give_two_combinations_with_matching_tags() {
    let cfg = sweep_config(&[0.01, 0.1], &[0.2], &[1.5], &[0.0]);
    let v = combinations(&cfg);
    assert_eq!(v.len(), 2);
    assert_eq!(v[0].gamma, num(0.01));
    assert_eq!(v[1].gamma, num(0.1));
    for c in &v {
        assert_eq!(c.sigma, num(0.2));
        assert_eq!(c.k, num(1.5));
        assert_eq!(c.drift, num(0.0));
    }
}

#[test]
fn combinations_enumerate_gammas_outermost_drifts_innermost() {
    let cfg = sweep_config(&[1.0, 2.0], &[10.0, 20.0, 30.0], &[5.0], &[0.1, -0.1]);
    let v = combinations(&cfg);
    assert_eq!(v.len(), 12);
    // First block: gamma fixed at its first value, sigmas advance every two
    // entries, drift alternates fastest.
    assert_eq!(v[0], Combination { gamma: num(1.0), sigma: num(10.0), k: num(5.0), drift: num(0.1) });
    assert_eq!(v[1].drift, num(-0.1));
    assert_eq!(v[2].sigma, num(20.0));
    assert_eq!(v[5].sigma, num(30.0));
    assert_eq!(v[6].gamma, num(2.0));
    assert_eq!(v[11], Combination { gamma: num(2.0), sigma: num(30.0), k: num(5.0), drift: num(-0.1) });
}

#[test]
fn empty_grid_gives_no_combinations() {
    let cfg = sweep_config(&[], &[0.2], &[1.5], &[0.0]);
    assert_eq!(combinations(&cfg).len(), 0);
}

#[test]
fn sharpe_is_zero_for_fewer_than_two_samples() {
    let r = sharpe_decision(1, num(2.5), num(7.0));
    assert_eq!(r, num(0.0));
}

#[test]
fn sharpe_is_zero_when_std_is_zero() {
    // All P&L samples identical: the sample standard deviation is exactly
    // +0.0 and the ratio must degenerate to zero, not NaN or infinity.
    let pnls = [3.25f64; 8];
    let n = pnls.len();
    let mean: f64 = pnls.iter().sum::<f64>() / n as f64;
    let var: f64 = pnls.iter().map(|x| (x - mean).powi(2)).sum::<f64>() / (n as f64 - 1.0);
    let std: f64 = var.sqrt();
    assert_eq!(std, 0.0);
    let r = sharpe_decision(n, num(std), num(mean / std));
    assert_eq!(r, num(0.0));
    assert_eq!(f64::from_bits(r.bits), 0.0);
}

#[test]
fn sharpe_passes_ratio_through_otherwise() {
    let r = sharpe_decision(10, num(2.0), num(1.25));
    assert_eq!(r, num(1.25));
}

#[test]
fn run_summary_reports_exact_inventory_statistics() {
    let cfg = SimConfig {
        dt: num(1.0),
        num_steps: 5,
        s_0: num(100.0),
        drift: num(0.0),
        latency_steps: 0,
    };
    let mut e = TrajectoryEngine::new(&cfg);
    // Each record holds the inventory before its step's market move, so
    // these fills record the path 0, 1, 2, 1, 0.
    let fills = [(true, false), (true, false), (false, true), (false, true), (false, true)];
    for (i, (b, a)) in fills.iter().enumerate() {
        e.submit_quote(num(i as f64), num(0.0), num(101.0), num(99.0));
        e.apply_market(num(100.0), *b, *a, num(0.0));
    }
    let res = e.finish(num(42.0));
    let recorded: Vec<i32> = res.trajectory.iter().map(|r| r.inventory).collect();
    assert_eq!(recorded, vec![0, 1, 2, 1, 0]);
    let s = summarize_run(&res);
    assert_eq!(s.abs_inventory_sum, 4);
    assert_eq!(s.max_abs_inventory, 2);
    assert_eq!(s.terminal_inventory, 0);
    assert_eq!(s.final_pnl, num(42.0));
}

#[test]
fn assembled_row_is_tagged_and_drawdown_is_zero() {
    let combo = Combination {
        gamma: num(0.1),
        sigma: num(0.2),
        k: num(1.5),
        drift: num(0.05),
    };
    let row = assemble_sweep_result(
        combo,
        num(1.0),
        num(2.0),
        num(0.5),
        num(3.0),
        num(4.0),
        num(0.25),
        num(0.75),
    );
    assert_eq!(row.gamma, combo.gamma);
    assert_eq!(row.sigma, combo.sigma);
    assert_eq!(row.k, combo.k);
    assert_eq!(row.drift, combo.drift);
    assert_eq!(row.mean_pnl, num(1.0));
    assert_eq!(row.std_pnl, num(2.0));
    assert_eq!(row.sharpe_ratio, num(0.5));
    assert_eq!(f64::from_bits(row.max_drawdown.bits), 0.0);
    assert_eq!(row.mean_abs_inventory, num(3.0));
    assert_eq!(row.max_inventory, num(4.0));
    assert_eq!(row.terminal_inventory_mean, num(0.25));
    assert_eq!(row.terminal_inventory_std, num(0.75));
}

#[test]
fn combination_overrides_base_parameters() {
    let base = Parameters {
        gamma: num(0.1),
        sigma: num(0.2),
        t_horizon: num(1.0),
        k: num(1.5),
        a: num(140.0),
    };
    let combo = Combination {
        gamma: num(0.5),
        sigma: num(0.4),
        k: num(2.5),
        drift: num(0.05),
    };
    let (p, c) = apply_combination(&base, &sim_config(), combo);
    assert_eq!(p.gamma, num(0.5));
    assert_eq!(p.sigma, num(0.4));
    assert_eq!(p.k, num(2.5));
    assert_eq!(p.t_horizon, num(1.0));
    assert_eq!(p.a, num(140.0));
    assert_eq!(c.drift, num(0.05));
    assert_eq!(c.dt, num(0.005));
    assert_eq!(c.num_steps, 200);
    assert_eq!(c.s_0, num(100.0));
    assert_eq!(c.latency_steps, 0);
}

#[test]
fn sweep_validation_checks_grids_and_iterations() {
    let good = sweep_config(&[0.01, 0.1], &[0.2], &[1.5], &[0.0]);
    assert_eq!(validate_sweep(&good), Ok(()));

    let mut bad = sweep_config(&[0.01, -0.1], &[0.2], &[1.5], &[0.0]);
    assert_eq!(validate_sweep(&bad), Err(ConfigError::NonPositiveRiskAversion));

    bad = sweep_config(&[0.01], &[0.2], &[0.0], &[0.0]);
    assert_eq!(validate_sweep(&bad), Err(ConfigError::NonPositiveLiquidity));

    bad = sweep_config(&[0.01], &[0.2], &[1.5], &[0.0]);
    bad.iterations_per_param = 1;
    assert_eq!(validate_sweep(&bad), Err(ConfigError::TooFewIterations));
}
