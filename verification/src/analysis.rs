//! Sweep layer: Cartesian grid enumeration and per-combination reduction.
//!
//! The sweep explores the full Cartesian product of the four parameter
//! grids, gammas outermost and drifts innermost, and reduces the runs of
//! each combination into one result row. Everything that is integer-valued
//! is computed and verified here exactly: the enumeration of combinations,
//! the per-run inventory statistics, the degenerate-case selection of the
//! Sharpe ratio, and the tagging of each result row with its originating
//! combination. The caller evaluates the real-number averages on the values
//! this module hands out.

use vstd::prelude::*;
use vstd::arithmetic::div_mod::lemma_fundamental_div_mod_converse;
use crate::model::{ConfigError, Num, Parameters};
use crate::sim::{SimConfig, SimResult, StepRecord, MAX_STEP_COUNT};

verus! {

/// The parameter grids of a sweep, together with the base per-trajectory
/// configuration and the number of independent runs per combination.
#[derive(Clone, Debug)]
pub struct SweepConfig {
    pub gammas: Vec<Num>,
    pub sigmas: Vec<Num>,
    pub ks: Vec<Num>,
    pub drifts: Vec<Num>,
    pub sim_config: SimConfig,
    pub iterations_per_param: usize,
}

/// One cell of the Cartesian grid.
#[derive(Clone, Copy, PartialEq, Eq, Structural, Debug)]
pub struct Combination {
    pub gamma: Num,
    pub sigma: Num,
    pub k: Num,
    pub drift: Num,
}

/// The reduced statistics of one combination.
#[derive(Clone, Debug)]
pub struct SweepResult {
    pub gamma: Num,
    pub sigma: Num,
    pub k: Num,
    pub drift: Num,
    pub mean_pnl: Num,
    pub std_pnl: Num,
    pub sharpe_ratio: Num,
    pub max_drawdown: Num,
    pub mean_abs_inventory: Num,
    pub max_inventory: Num,
    pub terminal_inventory_mean: Num,
    pub terminal_inventory_std: Num,
}

/// Position of the cell `(a, b, c, e)` in the enumeration order: gammas
/// outermost, then sigmas, then ks, then drifts.
pub open spec fn combo_index(a: int, b: int, c: int, e: int, ns: int, nk: int, nd: int) -> int {
    ((a * ns + b) * nk + c) * nd + e
}

/// The cell of the grid at coordinates `(a, b, c, e)`.
pub open spec fn grid_combination(cfg: SweepConfig, a: int, b: int, c: int, e: int) -> Combination {
    Combination {
        gamma: cfg.gammas@[a],
        sigma: cfg.sigmas@[b],
        k: cfg.ks@[c],
        drift: cfg.drifts@[e],
    }
}

/// Every cell whose enumeration position is already filled holds the right
/// combination.
pub open spec fn combinations_law(cfg: SweepConfig, v: Seq<Combination>) -> bool {
    forall|a: int, b: int, c: int, e: int|
        0 <= a < cfg.gammas@.len() && 0 <= b < cfg.sigmas@.len() && 0 <= c < cfg.ks@.len() && 0 <= e
            < cfg.drifts@.len() && #[trigger] combo_index(
            a,
            b,
            c,
            e,
            cfg.sigmas@.len() as int,
            cfg.ks@.len() as int,
            cfg.drifts@.len() as int,
        ) < v.len() ==> v[combo_index(
            a,
            b,
            c,
            e,
            cfg.sigmas@.len() as int,
            cfg.ks@.len() as int,
            cfg.drifts@.len() as int,
        )] == grid_combination(cfg, a, b, c, e)
}

/// Two distinct coordinate quadruples never share an enumeration position.
proof fn lemma_combo_index_unique(
    a1: int, b1: int, c1: int, e1: int,
    a2: int, b2: int, c2: int, e2: int,
    ns: int, nk: int, nd: int,
)
    requires
        0 <= b1 < ns, 0 <= c1 < nk, 0 <= e1 < nd,
        0 <= b2 < ns, 0 <= c2 < nk, 0 <= e2 < nd,
        combo_index(a1, b1, c1, e1, ns, nk, nd) == combo_index(a2, b2, c2, e2, ns, nk, nd),
    ensures
        a1 == a2 && b1 == b2 && c1 == c2 && e1 == e2,
{
    let x = combo_index(a1, b1, c1, e1, ns, nk, nd);
    lemma_fundamental_div_mod_converse(x, nd, (a1 * ns + b1) * nk + c1, e1);
    lemma_fundamental_div_mod_converse(x, nd, (a2 * ns + b2) * nk + c2, e2);
    let y = (a1 * ns + b1) * nk + c1;
    lemma_fundamental_div_mod_converse(y, nk, a1 * ns + b1, c1);
    lemma_fundamental_div_mod_converse(y, nk, a2 * ns + b2, c2);
    let z = a1 * ns + b1;
    lemma_fundamental_div_mod_converse(z, ns, a1, b1);
    lemma_fundamental_div_mod_converse(z, ns, a2, b2);
}

/// A quadruple of in-range coordinates has its position inside the grid.
pub proof fn lemma_combo_index_in_range(
    a: int, b: int, c: int, e: int,
    ng: int, ns: int, nk: int, nd: int,
)
    requires
        0 <= a < ng, 0 <= b < ns, 0 <= c < nk, 0 <= e < nd,
    ensures
        0 <= combo_index(a, b, c, e, ns, nk, nd) < ng * ns * nk * nd,
{
    assert(0 <= a * ns + b < ng * ns) by (nonlinear_arith)
        requires 0 <= a < ng, 0 <= b < ns,
    ;
    assert(0 <= (a * ns + b) * nk + c < (ng * ns) * nk) by (nonlinear_arith)
        requires 0 <= a * ns + b < ng * ns, 0 <= c < nk,
    ;
    assert(0 <= ((a * ns + b) * nk + c) * nd + e < ((ng * ns) * nk) * nd) by (nonlinear_arith)
        requires 0 <= (a * ns + b) * nk + c < (ng * ns) * nk, 0 <= e < nd,
    ;
    assert(((ng * ns) * nk) * nd == ng * ns * nk * nd) by (nonlinear_arith);
}

/// Enumerate the full Cartesian product of the four grids, gammas
/// outermost and drifts innermost: exactly one combination per cell, each
/// at its enumeration position. The grid size must fit the address space.
#[verifier::loop_isolation(false)]
pub fn combinations(cfg: &SweepConfig) -> (v: Vec<Combination>)
    requires
        cfg.gammas@.len() * cfg.sigmas@.len() * cfg.ks@.len() * cfg.drifts@.len() <= usize::MAX,
    ensures
        v@.len() == cfg.gammas@.len() * cfg.sigmas@.len() * cfg.ks@.len() * cfg.drifts@.len(),
        forall|a: int, b: int, c: int, e: int|
            0 <= a < cfg.gammas@.len() && 0 <= b < cfg.sigmas@.len() && 0 <= c < cfg.ks@.len() && 0
                <= e < cfg.drifts@.len() ==> v@[#[trigger] combo_index(
                a,
                b,
                c,
                e,
                cfg.sigmas@.len() as int,
                cfg.ks@.len() as int,
                cfg.drifts@.len() as int,
            )] == grid_combination(*cfg, a, b, c, e),
{
    let ghost ns = cfg.sigmas@.len() as int;
    let ghost nk = cfg.ks@.len() as int;
    let ghost nd = cfg.drifts@.len() as int;
    let mut v: Vec<Combination> = Vec::new();
    proof {
        assert(combo_index(0, 0, 0, 0, ns, nk, nd) == 0) by (nonlinear_arith);
    }
    let mut a: usize = 0;
    while a < cfg.gammas.len()
        invariant
            a <= cfg.gammas@.len(),
            v@.len() == combo_index(a as int, 0, 0, 0, ns, nk, nd),
            combinations_law(*cfg, v@),
        decreases cfg.gammas@.len() - a,
    {
        let mut b: usize = 0;
        while b < cfg.sigmas.len()
            invariant
                b <= cfg.sigmas@.len(),
                v@.len() == combo_index(a as int, b as int, 0, 0, ns, nk, nd),
                combinations_law(*cfg, v@),
            decreases cfg.sigmas@.len() - b,
        {
            let mut c: usize = 0;
            while c < cfg.ks.len()
                invariant
                    c <= cfg.ks@.len(),
                    v@.len() == combo_index(a as int, b as int, c as int, 0, ns, nk, nd),
                    combinations_law(*cfg, v@),
                decreases cfg.ks@.len() - c,
            {
                let mut e: usize = 0;
                while e < cfg.drifts.len()
                    invariant
                        e <= cfg.drifts@.len(),
                        v@.len() == combo_index(a as int, b as int, c as int, e as int, ns, nk, nd),
                        combinations_law(*cfg, v@),
                    decreases cfg.drifts@.len() - e,
                {
                    let combo = Combination {
                        gamma: cfg.gammas[a],
                        sigma: cfg.sigmas[b],
                        k: cfg.ks[c],
                        drift: cfg.drifts[e],
                    };
                    v.push(combo);
                    proof {
                        let len0 = v@.len() - 1;
                        assert forall|a2: int, b2: int, c2: int, e2: int|
                            0 <= a2 < cfg.gammas@.len() && 0 <= b2 < ns && 0 <= c2 < nk && 0 <= e2
                                < nd && #[trigger] combo_index(a2, b2, c2, e2, ns, nk, nd)
                                < v@.len() implies v@[combo_index(a2, b2, c2, e2, ns, nk, nd)]
                            == grid_combination(*cfg, a2, b2, c2, e2) by {
                            if combo_index(a2, b2, c2, e2, ns, nk, nd) == len0 {
                                lemma_combo_index_unique(
                                    a2, b2, c2, e2,
                                    a as int, b as int, c as int, e as int,
                                    ns, nk, nd,
                                );
                            }
                        };
                    }
                    e = e + 1;
                }
                proof {
                    assert(combo_index(a as int, b as int, c as int, nd, ns, nk, nd)
                        == combo_index(a as int, b as int, c as int + 1, 0, ns, nk, nd))
                        by (nonlinear_arith);
                }
                c = c + 1;
            }
            proof {
                assert(combo_index(a as int, b as int, nk, 0, ns, nk, nd) == combo_index(
                    a as int,
                    b as int + 1,
                    0,
                    0,
                    ns,
                    nk,
                    nd,
                )) by (nonlinear_arith);
            }
            b = b + 1;
        }
        proof {
            assert(combo_index(a as int, ns, 0, 0, ns, nk, nd) == combo_index(
                a as int + 1,
                0,
                0,
                0,
                ns,
                nk,
                nd,
            )) by (nonlinear_arith);
        }
        a = a + 1;
    }
    proof {
        let ng = cfg.gammas@.len() as int;
        assert(combo_index(ng, 0, 0, 0, ns, nk, nd) == ng * ns * nk * nd) by (nonlinear_arith);
        assert(v@.len() == cfg.gammas@.len() * cfg.sigmas@.len() * cfg.ks@.len()
            * cfg.drifts@.len());
        assert forall|a2: int, b2: int, c2: int, e2: int|
            0 <= a2 < cfg.gammas@.len() && 0 <= b2 < ns && 0 <= c2 < nk && 0 <= e2 < nd implies v@[
            #[trigger] combo_index(a2, b2, c2, e2, ns, nk, nd)] == grid_combination(
            *cfg,
            a2,
            b2,
            c2,
            e2,
        ) by {
            lemma_combo_index_in_range(
                a2, b2, c2, e2,
                cfg.gammas@.len() as int, ns, nk, nd,
            );
        };
    }
    v
}

/// Derive the strategy parameters and trajectory configuration of one
/// combination: the combination's risk aversion, volatility, liquidity and
/// drift override the base values; everything else is inherited unchanged.
pub fn apply_combination(base: &Parameters, sim: &SimConfig, combo: Combination) -> (r: (
    Parameters,
    SimConfig,
))
    ensures
        r.0.gamma == combo.gamma,
        r.0.sigma == combo.sigma,
        r.0.k == combo.k,
        r.0.t_horizon == base.t_horizon,
        r.0.a == base.a,
        r.1.drift == combo.drift,
        r.1.dt == sim.dt,
        r.1.num_steps == sim.num_steps,
        r.1.s_0 == sim.s_0,
        r.1.latency_steps == sim.latency_steps,
{
    let params = Parameters {
        gamma: combo.gamma,
        sigma: combo.sigma,
        t_horizon: base.t_horizon,
        k: combo.k,
        a: base.a,
    };
    let config = SimConfig {
        dt: sim.dt,
        num_steps: sim.num_steps,
        s_0: sim.s_0,
        drift: combo.drift,
        latency_steps: sim.latency_steps,
    };
    (params, config)
}

/// Absolute value.
pub open spec fn abs_val(q: int) -> int {
    if q < 0 {
        -q
    } else {
        q
    }
}

/// Sum of the absolute inventories over a trajectory.
pub open spec fn sum_abs_inventory(t: Seq<StepRecord>) -> int
    decreases t.len(),
{
    if t.len() == 0 {
        0
    } else {
        sum_abs_inventory(t.drop_last()) + abs_val(t.last().inventory as int)
    }
}

/// Largest absolute inventory over a trajectory.
pub open spec fn max_abs_inventory(t: Seq<StepRecord>) -> int
    decreases t.len(),
{
    if t.len() == 0 {
        0
    } else {
        let rest = max_abs_inventory(t.drop_last());
        let x = abs_val(t.last().inventory as int);
        if x > rest {
            x
        } else {
            rest
        }
    }
}

/// The per-run quantities a combination's reduction needs: the terminal
/// P&L value, and the run's inventory statistics, computed exactly over
/// the integers.
#[derive(Clone, Copy, Debug)]
pub struct RunSummary {
    /// The run's terminal P&L value, as the trajectory reported it.
    pub final_pnl: Num,
    /// Sum of per-step absolute inventories; divided by the step count,
    /// this is the run's mean absolute inventory.
    pub abs_inventory_sum: u64,
    /// The run's peak absolute inventory.
    pub max_abs_inventory: u32,
    /// The inventory at the final recorded step.
    pub terminal_inventory: i32,
}

/// Reduce one finished run to its summary: exact integer sums and maxima
/// over the recorded inventories, plus the terminal values.
pub fn summarize_run(r: &SimResult) -> (s: RunSummary)
    requires
        1 <= r.trajectory@.len() <= MAX_STEP_COUNT,
    ensures
        s.final_pnl == r.final_pnl,
        s.abs_inventory_sum as int == sum_abs_inventory(r.trajectory@),
        s.max_abs_inventory as int == max_abs_inventory(r.trajectory@),
        s.terminal_inventory == r.trajectory@.last().inventory,
{
    let n = r.trajectory.len();
    let mut sum: u64 = 0;
    let mut max: u32 = 0;
    let mut i: usize = 0;
    while i < n
        invariant
            i <= n,
            n == r.trajectory@.len(),
            n <= MAX_STEP_COUNT,
            sum as int == sum_abs_inventory(r.trajectory@.take(i as int)),
            max as int == max_abs_inventory(r.trajectory@.take(i as int)),
            sum <= (i as u64) * 0x8000_0000u64,
        decreases n - i,
    {
        let q = r.trajectory[i].inventory;
        let aq: u64 = if q < 0 {
            (-(q as i64)) as u64
        } else {
            q as u64
        };
        let aq32: u32 = if q < 0 {
            (-(q as i64)) as u32
        } else {
            q as u32
        };
        proof {
            assert(r.trajectory@.take(i + 1).drop_last() =~= r.trajectory@.take(i as int));
            assert(r.trajectory@.take(i + 1).last() == r.trajectory@[i as int]);
        }
        sum = sum + aq;
        if aq32 > max {
            max = aq32;
        }
        i = i + 1;
    }
    proof {
        assert(r.trajectory@.take(n as int) =~= r.trajectory@);
    }
    RunSummary {
        final_pnl: r.final_pnl,
        abs_inventory_sum: sum,
        max_abs_inventory: max,
        terminal_inventory: r.trajectory[n - 1].inventory,
    }
}

/// Sharpe ratio selection: fewer than two samples, or a standard deviation
/// at the zero pattern (the degenerate case of identical samples), yields
/// the zero pattern, never a quotient. Otherwise the ratio value the caller
/// computed is passed through. A standard deviation arises as the square
/// root of a non-negative variance, so its pattern is positive zero, a
/// positive value or a NaN — never negative zero — and the pattern test
/// agrees with the numeric zero test.
pub fn sharpe_decision(n: usize, std_pnl: Num, ratio: Num) -> (r: Num)
    ensures
        n < 2 ==> r.is_zero_pattern(),
        n >= 2 && std_pnl.is_zero_pattern() ==> r.is_zero_pattern(),
        n >= 2 && !std_pnl.is_zero_pattern() ==> r == ratio,
{
    if n < 2 {
        Num::zero()
    } else if std_pnl.is_zero() {
        Num::zero()
    } else {
        ratio
    }
}

/// Build the result row of one combination: each statistic lands in its
/// field and the row is tagged with exactly the combination it reduces.
/// The drawdown statistic is not computed by this evaluator; its field is
/// always the zero pattern.
pub fn assemble_sweep_result(
    combo: Combination,
    mean_pnl: Num,
    std_pnl: Num,
    sharpe_ratio: Num,
    mean_abs_inventory: Num,
    max_inventory: Num,
    terminal_inventory_mean: Num,
    terminal_inventory_std: Num,
) -> (r: SweepResult)
    ensures
        r.gamma == combo.gamma,
        r.sigma == combo.sigma,
        r.k == combo.k,
        r.drift == combo.drift,
        r.mean_pnl == mean_pnl,
        r.std_pnl == std_pnl,
        r.sharpe_ratio == sharpe_ratio,
        r.max_drawdown.is_zero_pattern(),
        r.mean_abs_inventory == mean_abs_inventory,
        r.max_inventory == max_inventory,
        r.terminal_inventory_mean == terminal_inventory_mean,
        r.terminal_inventory_std == terminal_inventory_std,
{
    SweepResult {
        gamma: combo.gamma,
        sigma: combo.sigma,
        k: combo.k,
        drift: combo.drift,
        mean_pnl,
        std_pnl,
        sharpe_ratio,
        max_drawdown: Num::zero(),
        mean_abs_inventory,
        max_inventory,
        terminal_inventory_mean,
        terminal_inventory_std,
    }
}

/// Fail-fast validation of a sweep configuration: every risk aversion and
/// every liquidity value of the grid must be strictly positive, the base
/// trajectory configuration must be valid, and at least two runs per
/// combination are needed for the sample variance to be well defined.
pub fn validate_sweep(cfg: &SweepConfig) -> (r: Result<(), ConfigError>)
    ensures
        r is Ok <==> ((forall|i: int|
            0 <= i < cfg.gammas@.len() ==> (#[trigger] cfg.gammas@[i]).is_positive_pattern())
            && (forall|i: int|
            0 <= i < cfg.ks@.len() ==> (#[trigger] cfg.ks@[i]).is_positive_pattern())
            && cfg.sim_config.dt.is_positive_pattern() && 1 <= cfg.sim_config.num_steps
            <= MAX_STEP_COUNT && cfg.iterations_per_param >= 2),
        r == Result::<(), ConfigError>::Err(ConfigError::NonPositiveRiskAversion) <==> (exists|i: int|
            0 <= i < cfg.gammas@.len() && !(#[trigger] cfg.gammas@[i]).is_positive_pattern()),
        r == Result::<(), ConfigError>::Err(ConfigError::NonPositiveLiquidity) <==> ((forall|i: int|
            0 <= i < cfg.gammas@.len() ==> (#[trigger] cfg.gammas@[i]).is_positive_pattern())
            && (exists|i: int|
            0 <= i < cfg.ks@.len() && !(#[trigger] cfg.ks@[i]).is_positive_pattern())),
        r == Result::<(), ConfigError>::Err(ConfigError::NonPositiveTimeStep) <==> ((forall|i: int|
            0 <= i < cfg.gammas@.len() ==> (#[trigger] cfg.gammas@[i]).is_positive_pattern())
            && (forall|i: int|
            0 <= i < cfg.ks@.len() ==> (#[trigger] cfg.ks@[i]).is_positive_pattern())
            && !cfg.sim_config.dt.is_positive_pattern()),
        r == Result::<(), ConfigError>::Err(ConfigError::NoSteps) <==> ((forall|i: int|
            0 <= i < cfg.gammas@.len() ==> (#[trigger] cfg.gammas@[i]).is_positive_pattern())
            && (forall|i: int|
            0 <= i < cfg.ks@.len() ==> (#[trigger] cfg.ks@[i]).is_positive_pattern())
            && cfg.sim_config.dt.is_positive_pattern() && cfg.sim_config.num_steps == 0),
        r == Result::<(), ConfigError>::Err(ConfigError::StepCountTooLarge) <==> ((forall|i: int|
            0 <= i < cfg.gammas@.len() ==> (#[trigger] cfg.gammas@[i]).is_positive_pattern())
            && (forall|i: int|
            0 <= i < cfg.ks@.len() ==> (#[trigger] cfg.ks@[i]).is_positive_pattern())
            && cfg.sim_config.dt.is_positive_pattern() && cfg.sim_config.num_steps
            > MAX_STEP_COUNT),
        r == Result::<(), ConfigError>::Err(ConfigError::TooFewIterations) <==> ((forall|i: int|
            0 <= i < cfg.gammas@.len() ==> (#[trigger] cfg.gammas@[i]).is_positive_pattern())
            && (forall|i: int|
            0 <= i < cfg.ks@.len() ==> (#[trigger] cfg.ks@[i]).is_positive_pattern())
            && cfg.sim_config.dt.is_positive_pattern() && 1 <= cfg.sim_config.num_steps
            <= MAX_STEP_COUNT && cfg.iterations_per_param < 2),
{
    let mut i: usize = 0;
    while i < cfg.gammas.len()
        invariant
            i <= cfg.gammas@.len(),
            forall|j: int|
                0 <= j < i ==> (#[trigger] cfg.gammas@[j]).is_positive_pattern(),
        decreases cfg.gammas@.len() - i,
    {
        if !cfg.gammas[i].is_positive() {
            return Err(ConfigError::NonPositiveRiskAversion);
        }
        i = i + 1;
    }
    let mut i: usize = 0;
    while i < cfg.ks.len()
        invariant
            i <= cfg.ks@.len(),
            forall|j: int|
                0 <= j < cfg.gammas@.len() ==> (#[trigger] cfg.gammas@[j]).is_positive_pattern(),
            forall|j: int| 0 <= j < i ==> (#[trigger] cfg.ks@[j]).is_positive_pattern(),
        decreases cfg.ks@.len() - i,
    {
        if !cfg.ks[i].is_positive() {
            return Err(ConfigError::NonPositiveLiquidity);
        }
        i = i + 1;
    }
    if !cfg.sim_config.dt.is_positive() {
        return Err(ConfigError::NonPositiveTimeStep);
    }
    if cfg.sim_config.num_steps == 0 {
        return Err(ConfigError::NoSteps);
    }
    if cfg.sim_config.num_steps > MAX_STEP_COUNT {
        return Err(ConfigError::StepCountTooLarge);
    }
    if cfg.iterations_per_param < 2 {
        return Err(ConfigError::TooFewIterations);
    }
    Ok(())
}

} // verus!
