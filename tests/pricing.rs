use fang_oost_option::option_pricing;
use option_pricer::operation::{Operation, OptionKind, Sensitivity};
use option_pricer::plan::plan_request;
use option_pricer::series::{extend_bounds, interior_pairs};
use rayon::iter::ParallelIterator;

const SIGMA: f64 = 0.2;
const LAMBDA: f64 = 0.5;
const MU_L: f64 = -0.05;
const SIG_L: f64 = 0.1;
const SPEED: f64 = 0.3;
const V0: f64 = 0.9;
const ETA_V: f64 = 0.2;
const RHO: f64 = -0.5;
const ASSET: f64 = 50.0;
const MATURITY: f64 = 1.0;
const RATE: f64 = 0.03;

fn density_half_width() -> f64 {
    ((SIGMA.powi(2) + LAMBDA * (MU_L.powi(2) + SIG_L.powi(2))) * MATURITY).sqrt() * 5.0
}

fn max_strike() -> f64 {
    ASSET * (2.0 * density_half_width()).exp()
}

fn values(op: Operation, num_u: usize, strikes: &[f64]) -> Vec<f64> {
    let cf = cf_functions::merton::merton_time_change_cf(
        MATURITY, RATE, LAMBDA, MU_L, SIG_L, SIGMA, V0, SPEED, ETA_V, RHO,
    );
    let k = max_strike();
    let out: Vec<fang_oost::GraphElement> = match op {
        Operation::OptionSeries(OptionKind::Call, Sensitivity::Price) => {
            option_pricing::fang_oost_call_price(num_u, ASSET, strikes, k, RATE, MATURITY, &cf)
                .collect()
        }
        Operation::OptionSeries(OptionKind::Put, Sensitivity::Price) => {
            option_pricing::fang_oost_put_price(num_u, ASSET, strikes, k, RATE, MATURITY, &cf)
                .collect()
        }
        Operation::OptionSeries(OptionKind::Call, Sensitivity::Delta) => {
            option_pricing::fang_oost_call_delta(num_u, ASSET, strikes, k, RATE, MATURITY, &cf)
                .collect()
        }
        Operation::OptionSeries(OptionKind::Put, Sensitivity::Delta) => {
            option_pricing::fang_oost_put_delta(num_u, ASSET, strikes, k, RATE, MATURITY, &cf)
                .collect()
        }
        _ => panic!("not an option price or delta"),
    };
    out.iter().map(|e| e.value).collect()
}

#[test]
fn merton_scenario_call_price_is_finite() {
    let plan = plan_request(1, 8).unwrap();
    assert_eq!(plan.num_nodes, 256);
    let prices = values(plan.operation, plan.num_nodes, &[50.0]);
    assert_eq!(prices.len(), 1);
    assert!(prices[0].is_finite());
    assert!(prices[0] >= 0.0);
}

#[test]
fn put_call_parity_on_each_strike() {
    let strikes = vec![40.0, 45.0, 50.0, 55.0, 60.0];
    let calls = values(Operation::from_code(1).unwrap(), 256, &strikes);
    let puts = values(Operation::from_code(0).unwrap(), 256, &strikes);
    for i in 0..strikes.len() {
        let parity = ASSET - strikes[i] * (-RATE * MATURITY).exp();
        assert!((calls[i] - puts[i] - parity).abs() < 1e-6);
    }
}

#[test]
fn prices_and_deltas_are_monotone_and_bounded() {
    let strikes = vec![30.0, 40.0, 45.0, 50.0, 55.0, 60.0, 70.0];
    let calls = values(Operation::from_code(1).unwrap(), 256, &strikes);
    let puts = values(Operation::from_code(0).unwrap(), 256, &strikes);
    let call_deltas = values(Operation::from_code(3).unwrap(), 256, &strikes);
    let put_deltas = values(Operation::from_code(2).unwrap(), 256, &strikes);
    for i in 1..strikes.len() {
        assert!(calls[i] <= calls[i - 1] + 1e-8);
        assert!(puts[i] + 1e-8 >= puts[i - 1]);
    }
    for i in 0..strikes.len() {
        assert!(call_deltas[i] > 0.0 && call_deltas[i] < 1.0);
        assert!(put_deltas[i] > -1.0 && put_deltas[i] < 0.0);
    }
}

#[test]
fn price_converges_as_nodes_grow() {
    let strikes = vec![45.0, 50.0, 55.0];
    let reference = values(Operation::from_code(1).unwrap(), 4096, &strikes);
    let coarse = values(Operation::from_code(1).unwrap(), 256, &strikes);
    for i in 0..strikes.len() {
        assert!((coarse[i] - reference[i]).abs() < 1e-3);
    }
}

#[test]
fn displayed_call_prices_skip_boundary_strikes() {
    let requested = vec![45.0, 50.0, 55.0];
    let k = max_strike();
    let strikes = extend_bounds(ASSET * ASSET / k, &requested, k);
    let prices = values(Operation::from_code(1).unwrap(), 256, &strikes);
    let shown = interior_pairs(&strikes, &prices);
    assert_eq!(shown.len(), 3);
    for i in 0..3 {
        assert_eq!(shown[i].0, requested[i]);
        assert_eq!(shown[i].1, prices[i + 1]);
    }
}

#[test]
fn density_integrates_to_one() {
    let cf = cf_functions::merton::merton_time_change_cf(
        MATURITY, RATE, LAMBDA, MU_L, SIG_L, SIGMA, V0, SPEED, ETA_V, RHO,
    );
    let x_max = density_half_width();
    let num_x = option_pricer::nodes::DENSITY_POINTS;
    let density: Vec<fang_oost::GraphElement> =
        cf_dist_utils::get_pdf(num_x, 256, -x_max, x_max, &cf).collect();
    let mut total: f64 = 0.0;
    for i in 1..density.len() {
        let dx = density[i].x - density[i - 1].x;
        total += 0.5 * (density[i].value + density[i - 1].value) * dx;
    }
    assert!((total - 1.0).abs() < 1e-2);
}

#[test]
fn expected_shortfall_is_beyond_value_at_risk() {
    let cf = cf_functions::merton::merton_time_change_cf(
        MATURITY, RATE, LAMBDA, MU_L, SIG_L, SIGMA, V0, SPEED, ETA_V, RHO,
    );
    let x_max = density_half_width();
    for q in [0.01, 0.05, 0.1] {
        let r = cf_dist_utils::get_expected_shortfall_and_value_at_risk(
            q, 256, -x_max, x_max, 100, 0.0000001, &cf,
        )
        .unwrap();
        assert!(r.expected_shortfall >= r.value_at_risk);
    }
}

#[test]
fn cumulative_distribution_is_non_decreasing() {
    let cf = cf_functions::merton::merton_time_change_cf(
        MATURITY, RATE, LAMBDA, MU_L, SIG_L, SIGMA, V0, SPEED, ETA_V, RHO,
    );
    let x_max = density_half_width();
    let cdf: Vec<fang_oost::GraphElement> =
        cf_dist_utils::get_cdf(option_pricer::nodes::DENSITY_POINTS, 256, -x_max, x_max, &cf)
            .collect();
    for i in 1..cdf.len() {
        assert!(cdf[i].value + 1e-4 >= cdf[i - 1].value);
    }
}
