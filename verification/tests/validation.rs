use avellaneda_stoikov_rs::model::{ConfigError, Num, Parameters};
use avellaneda_stoikov_rs::sim::{validate_simulation, SimConfig, MAX_STEP_COUNT};

fn num(x: f64) -> Num {
    Num { bits: x.to_bits() }
}

fn good_params() -> Parameters {
    Parameters {
        gamma: num(0.1),
        sigma: num(0.2),
        t_horizon: num(1.0),
        k: num(1.5),
        a: num(140.0),
    }
}

fn good_config() -> SimConfig {
    SimConfig {
        dt: num(0.005),
        num_steps: 200,
        s_0: num(100.0),
        drift: num(0.0),
        latency_steps: 0,
    }
}

#[test]
fn valid_configuration_is_accepted() {
    assert_eq!(validate_simulation(&good_params(), &good_config()), Ok(()));
}

#[test]
fn zero_gamma_is_rejected() {
    let mut p = good_params();
    p.gamma = num(0.0);
    assert_eq!(
        validate_simulation(&p, &good_config()),
        Err(ConfigError::NonPositiveRiskAversion)
    );
}

#[test]
fn negative_gamma_is_rejected() {
    let mut p = good_params();
    p.gamma = num(-0.3);
    assert_eq!(
        validate_simulation(&p, &good_config()),
        Err(ConfigError::NonPositiveRiskAversion)
    );
}

#[test]
fn nan_gamma_is_rejected() {
    let mut p = good_params();
    p.gamma = num(f64::NAN);
    assert_eq!(
        validate_simulation(&p, &good_config()),
        Err(ConfigError::NonPositiveRiskAversion)
    );
}

#[test]
fn positive_infinity_counts_as_positive() {
    let mut p = good_params();
    p.gamma = num(f64::INFINITY);
    assert_eq!(validate_simulation(&p, &good_config()), Ok(()));
}

#[test]
fn nonpositive_liquidity_is_rejected() {
    let mut p = good_params();
    p.k = num(-1.5);
    assert_eq!(
        validate_simulation(&p, &good_config()),
        Err(ConfigError::NonPositiveLiquidity)
    );
}

#[test]
fn nonpositive_time_step_is_rejected() {
    let mut c = good_config();
    c.dt = num(0.0);
    assert_eq!(
        validate_simulation(&good_params(), &c),
        Err(ConfigError::NonPositiveTimeStep)
    );
    c.dt = num(-0.005);
    assert_eq!(
        validate_simulation(&good_params(), &c),
        Err(ConfigError::NonPositiveTimeStep)
    );
}

#[test]
fn zero_steps_are_rejected() {
    let mut c = good_config();
    c.num_steps = 0;
    assert_eq!(
        validate_simulation(&good_params(), &c),
        Err(ConfigError::NoSteps)
    );
}

#[test]
fn oversized_step_count_is_rejected() {
    let mut c = good_config();
    c.num_steps = MAX_STEP_COUNT + 1;
    assert_eq!(
        validate_simulation(&good_params(), &c),
        Err(ConfigError::StepCountTooLarge)
    );
}

#[test]
fn gamma_is_checked_before_liquidity() {
    let mut p = good_params();
    p.gamma = num(0.0);
    p.k = num(0.0);
    assert_eq!(
        validate_simulation(&p, &good_config()),
        Err(ConfigError::NonPositiveRiskAversion)
    );
}
