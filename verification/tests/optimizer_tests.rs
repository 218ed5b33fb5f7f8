use std::sync::atomic::{AtomicU64, Ordering};

use neural_net::activation_function::ActivationFunction;
use neural_net::cost_function::CostFunction;
use neural_net::dataset::Dataset;
use neural_net::layer::DenseLayer;
use neural_net::matrix::Matrix;
use neural_net::network::Network;
use neural_net::optimizer::{adam::ADAM, rmsprop::RMS_PROP, sgd::SGD, Optimizer};
use neural_net::scalar::ScalarOps;

/// The hardware backend: ordinary `f64` operations on the bit patterns,
/// with a fixed-seed generator so every run draws the same weights.
struct Native;

static SEED: AtomicU64 = AtomicU64::new(0x243F6A8885A308D3);

fn next_raw() -> u64 {
    let mut s = SEED.load(Ordering::Relaxed);
    s = s.wrapping_mul(6364136223846793005).wrapping_add(1442695040888963407);
    SEED.store(s, Ordering::Relaxed);
    s
}

fn next_unit() -> f64 {
    ((next_raw() >> 11) as f64) / ((1u64 << 53) as f64)
}

impl ScalarOps for Native {
    fn add(a: u64, b: u64) -> u64 {
        (f64::from_bits(a) + f64::from_bits(b)).to_bits()
    }
    fn sub(a: u64, b: u64) -> u64 {
        (f64::from_bits(a) - f64::from_bits(b)).to_bits()
    }
    fn mul(a: u64, b: u64) -> u64 {
        (f64::from_bits(a) * f64::from_bits(b)).to_bits()
    }
    fn div(a: u64, b: u64) -> u64 {
        (f64::from_bits(a) / f64::from_bits(b)).to_bits()
    }
    fn sqrt(a: u64) -> u64 {
        f64::from_bits(a).sqrt().to_bits()
    }
    fn exp(a: u64) -> u64 {
        f64::from_bits(a).exp().to_bits()
    }
    fn from_count(n: usize) -> u64 {
        (n as f64).to_bits()
    }
    fn sample_unit_normal() -> u64 {
        let u1 = next_unit().max(1e-12);
        let u2 = next_unit();
        let z = (-2.0 * u1.ln()).sqrt() * (std::f64::consts::TAU * u2).cos();
        z.to_bits()
    }
}

/// The exclusive-or truth table, handed out whole for any batch size by
/// cycling over its four rows.
struct XorData;

impl Dataset for XorData {
    fn spec_input_dim(&self) -> usize {
        2
    }
    fn spec_output_dim(&self) -> usize {
        1
    }
    fn get_batch(&self, batch_size: usize) -> (Matrix, Matrix) {
        let xs: [[f64; 3]; 4] = [[0.0, 0.0, 0.0], [0.0, 1.0, 1.0], [1.0, 0.0, 1.0], [1.0, 1.0, 0.0]];
        let mut fx: Vec<u64> = Vec::new();
        let mut fy: Vec<u64> = Vec::new();
        for k in 0..batch_size {
            let p = xs[k % 4];
            fx.push(p[0].to_bits());
            fx.push(p[1].to_bits());
            fy.push(p[2].to_bits());
        }
        (Matrix::new(batch_size, 2, fx), Matrix::new(batch_size, 1, fy))
    }
}

fn xor_net(optimizer: Optimizer) -> Network {
    let layers = vec![
        DenseLayer::new(2, ActivationFunction::Sigmoid),
        DenseLayer::new(8, ActivationFunction::Sigmoid),
        DenseLayer::new(1, ActivationFunction::Sigmoid),
    ];
    Network::new::<Native>(layers, optimizer, CostFunction::Quadratic)
}

fn final_cost(optimizer: Optimizer, epochs: i32) -> f64 {
    let mut net = xor_net(optimizer);
    let history = net.train_and_log::<Native, XorData>(&XorData, 4, 4, epochs);
    assert!(!history.is_empty());
    f64::from_bits(history.last().unwrap().1)
}

#[test]
fn test_xor_convergence_sgd() {
    let cost = final_cost(Optimizer::Sgd(SGD::new(0.5f64.to_bits(), 0.5f64.to_bits(), 0)), 8000);
    assert!(cost < 0.05, "exclusive-or cost stayed at {cost}");
}

#[test]
fn test_xor_convergence_rmsprop() {
    let cost = final_cost(
        Optimizer::RmsProp(RMS_PROP::new(
            0.02f64.to_bits(),
            0,
            1e-7f64.to_bits(),
            0.9f64.to_bits(),
        )),
        8000,
    );
    assert!(cost < 0.05, "exclusive-or cost stayed at {cost}");
}

#[test]
fn test_xor_convergence_adam() {
    let cost = final_cost(
        Optimizer::Adam(ADAM::new(
            0.02f64.to_bits(),
            0,
            1e-7f64.to_bits(),
            0.9f64.to_bits(),
            0.999f64.to_bits(),
        )),
        8000,
    );
    assert!(cost < 0.05, "exclusive-or cost stayed at {cost}");
}

fn check_alignment(net: &Network) {
    let w_dims: Vec<(usize, usize)> =
        net.layers.iter().map(|l| (l.weights.rows, l.weights.cols)).collect();
    let b_dims: Vec<(usize, usize)> =
        net.layers.iter().map(|l| (l.biases.rows, l.biases.cols)).collect();
    let dims_of = |ts: &Vec<Matrix>| -> Vec<(usize, usize)> {
        ts.iter().map(|m| (m.rows, m.cols)).collect()
    };
    match &net.optimizer {
        Optimizer::Sgd(o) => {
            assert_eq!(w_dims, dims_of(&o.weights_momentum));
            assert_eq!(b_dims, dims_of(&o.biases_momentum));
        }
        Optimizer::RmsProp(o) => {
            assert_eq!(w_dims, dims_of(&o.weights_cache));
            assert_eq!(b_dims, dims_of(&o.biases_cache));
        }
        Optimizer::Adam(o) => {
            assert_eq!(w_dims, dims_of(&o.weights_cache));
            assert_eq!(b_dims, dims_of(&o.biases_cache));
            assert_eq!(w_dims, dims_of(&o.weights_momentum));
            assert_eq!(b_dims, dims_of(&o.biases_momentum));
        }
    }
}

#[test]
fn test_optimizer_state_alignment() {
    for optimizer in [
        Optimizer::Sgd(SGD::default()),
        Optimizer::RmsProp(RMS_PROP::default()),
        Optimizer::Adam(ADAM::default()),
    ] {
        let mut net = xor_net(optimizer);
        check_alignment(&net);
        for _ in 0..5 {
            let batch = XorData.get_batch(4);
            net.train_minibatch::<Native>(&batch);
            check_alignment(&net);
        }
    }
}

#[test]
fn test_default_configurations() {
    let sgd = SGD::default();
    assert_eq!(0.1, f64::from_bits(sgd.learning_rate));
    assert_eq!(0.5, f64::from_bits(sgd.momentum));
    assert_eq!(0.0005, f64::from_bits(sgd.decay));
    assert_eq!(0, sgd.iteration);

    let rms = RMS_PROP::default();
    assert_eq!(0.001, f64::from_bits(rms.learning_rate));
    assert_eq!(1e-4, f64::from_bits(rms.decay));
    assert_eq!(1e-7, f64::from_bits(rms.epsilon));
    assert_eq!(0.9, f64::from_bits(rms.rho));

    let adam = ADAM::default();
    assert_eq!(0.002, f64::from_bits(adam.learning_rate));
    assert_eq!(1e-5, f64::from_bits(adam.decay));
    assert_eq!(1e-7, f64::from_bits(adam.epsilon));
    assert_eq!(0.9, f64::from_bits(adam.beta_1));
    assert_eq!(0.999, f64::from_bits(adam.beta_2));
}

#[test]
fn test_iteration_counts_updates() {
    let mut net = xor_net(Optimizer::Sgd(SGD::default()));
    for k in 1..=3usize {
        let batch = XorData.get_batch(4);
        net.train_minibatch::<Native>(&batch);
        let it = match &net.optimizer {
            Optimizer::Sgd(o) => o.iteration,
            Optimizer::RmsProp(o) => o.iteration,
            Optimizer::Adam(o) => o.iteration,
        };
        assert_eq!(k, it);
    }
}

#[test]
fn test_training_history_schedule() {
    let mut net = xor_net(Optimizer::Sgd(SGD::default()));
    let history = net.train_and_log::<Native, XorData>(&XorData, 4, 4, 250);
    // A stride of three: epochs 0, 3, 6, ..., 249.
    assert_eq!(84, history.len());
    for (k, entry) in history.iter().enumerate() {
        assert_eq!(3 * k as i32, entry.0);
    }
}

fn one_by_one_layer(w: f64, b: f64) -> Vec<DenseLayer> {
    vec![DenseLayer {
        input_size: 1,
        weights: Matrix::new(1, 1, vec![w.to_bits()]),
        biases: Matrix::new(1, 1, vec![b.to_bits()]),
        activation: ActivationFunction::Linear,
    }]
}

fn grads(gw: f64, gb: f64) -> (Vec<Matrix>, Vec<Matrix>) {
    (
        vec![Matrix::new(1, 1, vec![gb.to_bits()])],
        vec![Matrix::new(1, 1, vec![gw.to_bits()])],
    )
}

fn weight_of(layers: &Vec<DenseLayer>) -> f64 {
    f64::from_bits(layers[0].weights.data[0])
}

fn bias_of(layers: &Vec<DenseLayer>) -> f64 {
    f64::from_bits(layers[0].biases.data[0])
}

#[test]
fn test_sgd_update_formula() {
    let mut layers = one_by_one_layer(1.0, 0.5);
    let (nabla_bs, nabla_ws) = grads(0.2, 0.1);
    let mut opt = SGD::new(0.1f64.to_bits(), 0, 0);
    opt.initialize(&layers);
    opt.update_params::<Native>(&mut layers, &nabla_bs, &nabla_ws);
    assert_eq!(1.0 + 0.2 * -0.1, weight_of(&layers));
    assert_eq!(0.5 + 0.1 * -0.1, bias_of(&layers));
}

#[test]
fn test_sgd_momentum_formula() {
    let mut layers = one_by_one_layer(1.0, 0.5);
    let (nabla_bs, nabla_ws) = grads(0.2, 0.1);
    let mut opt = SGD::new(0.1f64.to_bits(), 0.5f64.to_bits(), 0);
    opt.initialize(&layers);
    opt.update_params::<Native>(&mut layers, &nabla_bs, &nabla_ws);
    opt.update_params::<Native>(&mut layers, &nabla_bs, &nabla_ws);
    // First step: the plain scaled gradient; second step adds half of it.
    let u1_w: f64 = 0.2 * -0.1 + 0.0 * 0.5;
    let u2_w: f64 = 0.2 * -0.1 + u1_w * 0.5;
    assert_eq!(1.0 + u1_w + u2_w, weight_of(&layers));
    let u1_b: f64 = 0.1 * -0.1 + 0.0 * 0.5;
    let u2_b: f64 = 0.1 * -0.1 + u1_b * 0.5;
    assert_eq!(0.5 + u1_b + u2_b, bias_of(&layers));
}

#[test]
fn test_rmsprop_update_formula() {
    let mut layers = one_by_one_layer(1.0, 0.5);
    let (nabla_bs, nabla_ws) = grads(0.2, 0.1);
    let mut opt = RMS_PROP::new(0.001f64.to_bits(), 0, 1e-7f64.to_bits(), 0.9f64.to_bits());
    opt.initialize(&layers);
    opt.update_params::<Native>(&mut layers, &nabla_bs, &nabla_ws);
    let cache_w: f64 = 0.0 * 0.9 + (0.2 * 0.2) * (1.0 - 0.9);
    let expected_w = 1.0 + (0.2 * -0.001) / (cache_w.sqrt() + 1e-7);
    assert_eq!(expected_w, weight_of(&layers));
    let cache_b: f64 = 0.0 * 0.9 + (0.1 * 0.1) * (1.0 - 0.9);
    let expected_b = 0.5 + (0.1 * -0.001) / (cache_b.sqrt() + 1e-7);
    assert_eq!(expected_b, bias_of(&layers));
}

#[test]
fn test_adam_update_formula() {
    let mut layers = one_by_one_layer(1.0, 0.5);
    let (nabla_bs, nabla_ws) = grads(0.2, 0.1);
    let mut opt = ADAM::new(
        0.002f64.to_bits(),
        0,
        1e-7f64.to_bits(),
        0.9f64.to_bits(),
        0.999f64.to_bits(),
    );
    opt.initialize(&layers);
    opt.update_params::<Native>(&mut layers, &nabla_bs, &nabla_ws);
    // One step from zero moments, with first-power bias corrections.
    let mom_w: f64 = 0.0 * 0.9 + 0.2 * (1.0 - 0.9);
    let cache_w: f64 = 0.0 * 0.999 + (0.2 * 0.2) * (1.0 - 0.999);
    let mom_hat_w: f64 = mom_w / (1.0 - 0.9);
    let cache_hat_w: f64 = cache_w / (1.0 - 0.999);
    let expected_w = 1.0 - (mom_hat_w * 0.002) / (cache_hat_w.sqrt() + 1e-7);
    assert_eq!(expected_w, weight_of(&layers));
    let mom_b: f64 = 0.0 * 0.9 + 0.1 * (1.0 - 0.9);
    let cache_b: f64 = 0.0 * 0.999 + (0.1 * 0.1) * (1.0 - 0.999);
    let mom_hat_b: f64 = mom_b / (1.0 - 0.9);
    let cache_hat_b: f64 = cache_b / (1.0 - 0.999);
    let expected_b = 0.5 - (mom_hat_b * 0.002) / (cache_hat_b.sqrt() + 1e-7);
    assert_eq!(expected_b, bias_of(&layers));
}

#[test]
fn test_inverse_time_decay_formula() {
    let mut opt = SGD::new(0.1f64.to_bits(), 0, 0.5f64.to_bits());
    opt.post_update();
    opt.post_update();
    opt.pre_update::<Native>();
    // Two completed updates: the rate decays by one over one plus one.
    assert_eq!(0.1 * (1.0 / (1.0 + 0.5 * 2.0)), f64::from_bits(opt.current_learning_rate));
}
