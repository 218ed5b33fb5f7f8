use std::sync::atomic::{AtomicU64, Ordering};

use neural_net::activation_function::ActivationFunction;
use neural_net::cost_function::CostFunction;
use neural_net::dataset::{get_2d_unit_square, Dataset};
use neural_net::layer::DenseLayer;
use neural_net::matrix::{matmul, Matrix};
use neural_net::network::{Network, Summary};
use neural_net::optimizer::{sgd::SGD, Optimizer};
use neural_net::scalar::ScalarOps;

/// The hardware backend: ordinary `f64` operations on the bit patterns,
/// with a fixed-seed generator so every run draws the same weights.
struct Native;

static SEED: AtomicU64 = AtomicU64::new(0x9E3779B97F4A7C15);

fn next_raw() -> u64 {
    let mut s = SEED.load(Ordering::Relaxed);
    s = s.wrapping_mul(6364136223846793005).wrapping_add(1442695040888963407);
    SEED.store(s, Ordering::Relaxed);
    s
}

fn next_unit() -> f64 {
    ((next_raw() >> 11) as f64) / ((1u64 << 53) as f64)
}

impl ScalarOps for Native {
    fn add(a: u64, b: u64) -> u64 {
        (f64::from_bits(a) + f64::from_bits(b)).to_bits()
    }
    fn sub(a: u64, b: u64) -> u64 {
        (f64::from_bits(a) - f64::from_bits(b)).to_bits()
    }
    fn mul(a: u64, b: u64) -> u64 {
        (f64::from_bits(a) * f64::from_bits(b)).to_bits()
    }
    fn div(a: u64, b: u64) -> u64 {
        (f64::from_bits(a) / f64::from_bits(b)).to_bits()
    }
    fn sqrt(a: u64) -> u64 {
        f64::from_bits(a).sqrt().to_bits()
    }
    fn exp(a: u64) -> u64 {
        f64::from_bits(a).exp().to_bits()
    }
    fn from_count(n: usize) -> u64 {
        (n as f64).to_bits()
    }
    fn sample_unit_normal() -> u64 {
        // Box-Muller transform over the fixed-seed generator.
        let u1 = next_unit().max(1e-12);
        let u2 = next_unit();
        let z = (-2.0 * u1.ln()).sqrt() * (std::f64::consts::TAU * u2).cos();
        z.to_bits()
    }
}

fn matrix_from(rows: usize, cols: usize, vals: &[f64]) -> Matrix {
    assert_eq!(rows * cols, vals.len());
    let data: Vec<u64> = vals.iter().map(|v| v.to_bits()).collect();
    Matrix::new(rows, cols, data)
}

fn matrix_values(m: &Matrix) -> Vec<f64> {
    m.data.iter().map(|b| f64::from_bits(*b)).collect()
}

fn sigmoid_net(shape: &[usize]) -> Network {
    let layers: Vec<DenseLayer> = shape
        .iter()
        .map(|w| DenseLayer::new(*w, ActivationFunction::Sigmoid))
        .collect();
    Network::new::<Native>(
        layers,
        Optimizer::Sgd(SGD::default()),
        CostFunction::Quadratic,
    )
}

#[test]
fn test_forward_shape_invariant() {
    for shape in [vec![2, 3, 1], vec![4, 8, 8, 2], vec![1, 5, 1]] {
        let net = sigmoid_net(&shape);
        for batch in [1usize, 3, 7] {
            let vals: Vec<f64> = (0..batch * shape[0]).map(|k| (k as f64) * 0.1).collect();
            let x = matrix_from(batch, shape[0], &vals);
            let out = net.predict::<Native>(&x);
            assert_eq!(batch, out.rows);
            assert_eq!(*shape.last().unwrap(), out.cols);
            assert_eq!(out.rows * out.cols, out.data.len());
        }
    }
}

#[test]
fn test_gradient_check() {
    let mut net = sigmoid_net(&[2, 3, 1]);
    let x = matrix_from(4, 2, &[0.0, 0.0, 0.0, 1.0, 1.0, 0.0, 1.0, 1.0]);
    let y = matrix_from(4, 1, &[0.0, 1.0, 1.0, 0.0]);

    let (_nabla_bs, nabla_ws) = net.backprop::<Native>(&x, &y);

    let cost_of = |net: &Network| -> f64 {
        let pred = net.predict::<Native>(&x);
        f64::from_bits(net.cost_function.cost::<Native>(&pred, &y))
    };

    let h = 1e-6;
    for li in 0..net.layers.len() {
        for k in 0..net.layers[li].weights.data.len() {
            let orig = f64::from_bits(net.layers[li].weights.data[k]);

            net.layers[li].weights.data[k] = (orig + h).to_bits();
            let up = cost_of(&net);
            net.layers[li].weights.data[k] = (orig - h).to_bits();
            let down = cost_of(&net);
            net.layers[li].weights.data[k] = orig.to_bits();

            let numeric = (up - down) / (2.0 * h);
            let analytic = f64::from_bits(nabla_ws[li].data[k]);
            let scale = numeric.abs().max(analytic.abs()).max(1e-8);
            assert!(
                (numeric - analytic).abs() / scale < 1e-4,
                "layer {li} weight {k}: numeric {numeric} vs analytic {analytic}"
            );
        }
    }
}

#[test]
fn test_predict_idempotent() {
    let net = sigmoid_net(&[2, 4, 2]);
    let x = matrix_from(3, 2, &[0.1, 0.9, 0.5, 0.5, 0.8, 0.2]);
    let first = net.predict::<Native>(&x);
    let second = net.predict::<Native>(&x);
    assert_eq!(first.data, second.data);
    assert_eq!(first.rows, second.rows);
    assert_eq!(first.cols, second.cols);
}

/// The full deterministic grid of the four corner points, handed out for
/// any requested batch size by cycling.
struct CornersData;

impl Dataset for CornersData {
    fn spec_input_dim(&self) -> usize {
        2
    }
    fn spec_output_dim(&self) -> usize {
        1
    }
    fn get_batch(&self, batch_size: usize) -> (Matrix, Matrix) {
        let xs: [[f64; 2]; 4] = [[0.0, 0.0], [0.0, 1.0], [1.0, 0.0], [1.0, 1.0]];
        let mut fx: Vec<u64> = Vec::new();
        let mut fy: Vec<u64> = Vec::new();
        for k in 0..batch_size {
            let p = xs[k % 4];
            fx.push(p[0].to_bits());
            fx.push(p[1].to_bits());
            let label = if p[0] != p[1] { 1.0f64 } else { 0.0f64 };
            fy.push(label.to_bits());
        }
        (Matrix::new(batch_size, 2, fx), Matrix::new(batch_size, 1, fy))
    }
}

#[test]
fn test_eval_idempotent() {
    let net = sigmoid_net(&[2, 4, 1]);
    let a = net.eval::<Native, CornersData>(&CornersData, 4);
    let b = net.eval::<Native, CornersData>(&CornersData, 4);
    assert_eq!(a, b);
}

#[test]
fn test_unit_square_grid() {
    let grid = get_2d_unit_square::<Native>(3);
    assert_eq!(9, grid.rows);
    assert_eq!(2, grid.cols);
    let vals = matrix_values(&grid);
    let lin = [0.0, 0.5, 1.0];
    for i in 0..3 {
        for j in 0..3 {
            let p = (i * 3 + j) * 2;
            assert_eq!(lin[j], vals[p], "first coordinate at row {i} column {j}");
            assert_eq!(lin[i], vals[p + 1], "second coordinate at row {i} column {j}");
        }
    }
}

#[test]
fn test_predict_unit_square() {
    let net = sigmoid_net(&[2, 3, 3]);
    let (dims, rows) = net.predict_unit_square::<Native>(4);
    assert_eq!((4, 4), dims);
    assert_eq!(16, rows.len());
    for row in rows.iter() {
        assert_eq!(3, row.len());
        for v in row.iter() {
            assert!(f64::from_bits(*v).is_finite());
        }
    }
}

#[test]
fn test_summerize() {
    let net = sigmoid_net(&[2, 8, 1]);
    assert_eq!("SGD_2_8", net.summerize());
}

#[test]
fn test_matmul_exact() {
    let a = matrix_from(2, 2, &[1.0, 2.0, 3.0, 4.0]);
    let b = matrix_from(2, 2, &[5.0, 6.0, 7.0, 8.0]);
    let c = matmul::<Native>(&a, &b);
    assert_eq!(vec![19.0, 22.0, 43.0, 50.0], matrix_values(&c));
}

#[test]
fn test_transpose_exact() {
    let a = matrix_from(2, 3, &[1.0, 2.0, 3.0, 4.0, 5.0, 6.0]);
    let t = a.transpose();
    assert_eq!(3, t.rows);
    assert_eq!(2, t.cols);
    assert_eq!(vec![1.0, 4.0, 2.0, 5.0, 3.0, 6.0], matrix_values(&t));
}

#[test]
fn test_layer_forward_exact() {
    let layer = DenseLayer {
        input_size: 2,
        weights: matrix_from(2, 2, &[1.0, 2.0, 3.0, 4.0]),
        biases: matrix_from(1, 2, &[0.5, -0.5]),
        activation: ActivationFunction::Linear,
    };
    let input = matrix_from(1, 2, &[1.0, 1.0]);
    let z = layer.forward::<Native>(&input);
    // Inner products accumulate left to right from zero, then the bias
    // row is added.
    let first: f64 = ((0.0 + 1.0 * 1.0) + 1.0 * 3.0) + 0.5;
    let second: f64 = ((0.0 + 1.0 * 2.0) + 1.0 * 4.0) + -0.5;
    assert_eq!(vec![first, second], matrix_values(&z));
    // With the identity activation the layer output equals the affine
    // transform.
    let p = layer.predict::<Native>(&input);
    assert_eq!(matrix_values(&z), matrix_values(&p));
}
