use ndarray::{arr2, Array2, Axis};
use neural_network::activation_function::{ActivationFunction, ForwardStep, LayerActivation};
use neural_network::binary64::NEGATIVE_INFINITY;
use neural_network::layer::Layer;
use neural_network::matrix::Matrix;

fn patterns(values: &Array2<f64>) -> Matrix {
    let rows: Vec<Vec<u64>> =
        values.outer_iter().map(|row| row.iter().map(|x| x.to_bits()).collect()).collect();
    Matrix::from_rows(values.ncols(), rows).expect("an array is rectangular")
}

fn numbers(table: &Matrix) -> Array2<f64> {
    Array2::from_shape_fn(table.dim(), |(row, col)| f64::from_bits(table.get(row, col)))
}

fn finished(step: ForwardStep) -> Matrix {
    match step {
        ForwardStep::Finished(outputs) => outputs,
        ForwardStep::Exponentiate { .. } => panic!("a ReLU is complete after one step"),
    }
}

fn softmax_of(values: &Array2<f64>) -> (f64, Array2<f64>) {
    let activation = ActivationFunction::new(LayerActivation::Softmax);
    match activation.forward(patterns(values)) {
        ForwardStep::Finished(_) => panic!("a softmax is not complete after one step"),
        ForwardStep::Exponentiate { inputs, shift } => {
            assert_eq!(inputs.clone().into_rows(), patterns(values).into_rows());
            let max = f64::from_bits(shift);
            let exps = numbers(&inputs).mapv(|x| (x - max).exp());
            let sums = exps.sum_axis(Axis(1));
            (max, exps / &sums.insert_axis(Axis(1)))
        }
    }
}

#[test]
fn new_binds_the_activation() {
    assert_eq!(
        ActivationFunction::new(LayerActivation::ReLU).activation(),
        LayerActivation::ReLU
    );
    assert_eq!(
        ActivationFunction::new(LayerActivation::Softmax).activation(),
        LayerActivation::Softmax
    );
}

#[test]
fn relu_is_max_with_zero_entry_by_entry() {
    let inputs = arr2(&[[1.5, -2.0, 0.0], [-0.0, 1e-300, -1e300], [f64::INFINITY, -7.25, 42.0]]);
    let activation = ActivationFunction::new(LayerActivation::ReLU);
    let outputs = numbers(&finished(activation.forward(patterns(&inputs))));
    assert_eq!(outputs.dim(), (3, 3));
    assert_eq!(outputs, inputs.mapv(|x| x.max(0.0)));
    assert_eq!(
        outputs,
        arr2(&[[1.5, 0.0, 0.0], [0.0, 1e-300, 0.0], [f64::INFINITY, 0.0, 42.0]])
    );
}

#[test]
fn relu_twice_is_relu_once() {
    let inputs = arr2(&[[1.5, -2.0], [0.0, -0.0], [3.0, -1e-9]]);
    let activation = ActivationFunction::new(LayerActivation::ReLU);
    let once = finished(activation.forward(patterns(&inputs)));
    let twice = finished(activation.forward(once.clone()));
    assert_eq!(twice.into_rows(), once.into_rows());
}

#[test]
fn relu_keeps_the_shape_of_an_empty_table() {
    let activation = ActivationFunction::new(LayerActivation::ReLU);
    let outputs = finished(activation.forward(Matrix::from_rows(5, Vec::new()).unwrap()));
    assert_eq!(outputs.dim(), (0, 5));
}

#[test]
fn softmax_shift_is_the_largest_entry_of_the_whole_table() {
    let inputs = arr2(&[[1.0, 2.0, 3.0], [4.0, 5.0, 6.0], [7.0, 8.0, 9.0]]);
    let (max, _) = softmax_of(&inputs);
    assert_eq!(max, 9.0);

    let inputs = arr2(&[[-1.0, -2.0], [-0.5, -8.0]]);
    let (max, _) = softmax_of(&inputs);
    assert_eq!(max, -0.5);

    let inputs = arr2(&[[3.0, f64::NAN], [f64::NAN, 2.0]]);
    let (max, _) = softmax_of(&inputs);
    assert_eq!(max, 3.0);
}

#[test]
fn softmax_shift_of_a_table_without_entries_is_negative_infinity() {
    let activation = ActivationFunction::new(LayerActivation::Softmax);
    match activation.forward(Matrix::from_rows(3, Vec::new()).unwrap()) {
        ForwardStep::Exponentiate { inputs, shift } => {
            assert_eq!(shift, NEGATIVE_INFINITY);
            assert_eq!(inputs.dim(), (0, 3));
        }
        ForwardStep::Finished(_) => panic!("a softmax is not complete after one step"),
    }
}

#[test]
fn softmax_rows_sum_to_one() {
    let inputs = arr2(&[[1.0, 2.0, 3.0], [4.0, 5.0, 6.0], [7.0, 8.0, 9.0]]);
    let (_, outputs) = softmax_of(&inputs);
    assert_eq!(outputs.dim(), (3, 3));
    for row in outputs.outer_iter() {
        assert!((row.sum() - 1.0).abs() < 1e-9);
        assert!(row.iter().all(|p| (0.0..=1.0).contains(p)));
    }
    // each row holds the same differences, so each row gets the same shares
    let e1 = 1.0f64.exp();
    let e2 = 2.0f64.exp();
    let total = 1.0 + e1 + e2;
    for row in outputs.outer_iter() {
        assert!((row[0] - 1.0 / total).abs() < 1e-12);
        assert!((row[1] - e1 / total).abs() < 1e-12);
        assert!((row[2] - e2 / total).abs() < 1e-12);
    }
}

#[test]
fn softmax_is_stable_for_large_magnitudes() {
    let inputs = arr2(&[[1e300, 1e300, 1e300, 1e300], [1e300, 1e300, 1e300, 1e300]]);
    let (max, outputs) = softmax_of(&inputs);
    assert_eq!(max, 1e300);
    assert_eq!(outputs, arr2(&[[0.25, 0.25, 0.25, 0.25], [0.25, 0.25, 0.25, 0.25]]));

    let inputs = arr2(&[[1000.0, 1001.0, 999.0], [1001.0, 1000.0, 998.0], [-1e3, 1e3, 0.0]]);
    let (max, outputs) = softmax_of(&inputs);
    assert_eq!(max, 1001.0);
    for row in outputs.outer_iter() {
        assert!((row.sum() - 1.0).abs() < 1e-9);
        assert!(row.iter().all(|p| p.is_finite() && (0.0..=1.0).contains(p)));
    }
}

#[test]
fn softmax() {
    let test_inputs = arr2(&[[1., 2., 3.], [4., 5., 6.], [7., 8., 9.]]);

    let first = Matrix::from_rows(3, vec![vec![0; 3], vec![0; 3]]).unwrap();
    let layer = Layer::<3, 2>::new(LayerActivation::Softmax, first);
    match layer.activation().forward(patterns(&test_inputs)) {
        ForwardStep::Exponentiate { inputs, shift } => {
            assert_eq!(numbers(&inputs), test_inputs);
            assert_eq!(f64::from_bits(shift), 9.0);
        }
        ForwardStep::Finished(_) => panic!("a softmax is not complete after one step"),
    }
}
