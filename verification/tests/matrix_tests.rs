use neural_network::decimal::append_decimal;
use neural_network::matrix::Matrix;

fn table_of(rows: &[&[u64]], cols: usize) -> Matrix {
    let rows: Vec<Vec<u64>> = rows.iter().map(|row| row.to_vec()).collect();
    Matrix::from_rows(cols, rows).expect("rows of one width")
}

#[test]
fn from_rows_accepts_rows_of_the_given_width() {
    let table = table_of(&[&[1, 2, 3], &[4, 5, 6]], 3);
    assert_eq!(table.dim(), (2, 3));
    assert_eq!(table.get(0, 0), 1);
    assert_eq!(table.get(0, 2), 3);
    assert_eq!(table.get(1, 1), 5);
}

#[test]
fn from_rows_refuses_a_row_of_another_width() {
    assert!(Matrix::from_rows(3, vec![vec![1, 2, 3], vec![4, 5]]).is_none());
    assert!(Matrix::from_rows(2, vec![vec![1, 2, 3]]).is_none());
    assert!(Matrix::from_rows(0, vec![vec![1]]).is_none());
}

#[test]
fn a_table_without_rows_keeps_its_width() {
    let table = Matrix::from_rows(4, Vec::new()).expect("no row to refuse");
    assert_eq!(table.dim(), (0, 4));
    assert_eq!(table.transposed().dim(), (4, 0));
}

#[test]
fn into_rows_gives_the_rows_back() {
    let rows = vec![vec![9u64, 8], vec![7, 6], vec![5, 4]];
    let table = Matrix::from_rows(2, rows.clone()).unwrap();
    assert_eq!(table.into_rows(), rows);
}

#[test]
fn first_rows_keeps_the_rows_from_the_top() {
    let table = table_of(&[&[1, 2], &[3, 4], &[5, 6]], 2);
    assert_eq!(table.clone().first_rows(2).into_rows(), vec![vec![1, 2], vec![3, 4]]);
    assert_eq!(table.clone().first_rows(3).into_rows(), table.clone().into_rows());
    assert_eq!(table.clone().first_rows(9).into_rows(), table.clone().into_rows());
    let none = table.first_rows(0);
    assert_eq!(none.dim(), (0, 2));
}

#[test]
fn transposed_exchanges_rows_and_columns() {
    let table = table_of(&[&[1, 2, 3], &[4, 5, 6]], 3);
    let turned = table.transposed();
    assert_eq!(turned.dim(), (3, 2));
    assert_eq!(turned.into_rows(), vec![vec![1, 4], vec![2, 5], vec![3, 6]]);
}

#[test]
fn transposed_twice_is_the_table() {
    let table = table_of(&[&[1, 2], &[3, 4], &[5, 6]], 2);
    assert_eq!(table.transposed().transposed().into_rows(), table.into_rows());
}

#[test]
fn mapv_applies_the_function_to_every_entry() {
    let table = table_of(&[&[1, 2, 3], &[4, 5, 6]], 3);
    let mapped = table.mapv(|x| x * 10 + 1);
    assert_eq!(mapped.dim(), (2, 3));
    assert_eq!(mapped.into_rows(), vec![vec![11, 21, 31], vec![41, 51, 61]]);
}

#[test]
fn clone_copies_shape_and_entries() {
    let table = table_of(&[&[1, 2], &[3, 4]], 2);
    let copy = table.clone();
    assert_eq!(copy.dim(), (2, 2));
    assert_eq!(copy.into_rows(), table.into_rows());
}

#[test]
fn decimal_numerals() {
    let cases: [(usize, &str); 8] = [
        (0, "0"),
        (7, "7"),
        (9, "9"),
        (10, "10"),
        (11, "11"),
        (100, "100"),
        (12345, "12345"),
        (9876543210, "9876543210"),
    ];
    for (n, expected) in cases {
        let mut text = String::new();
        append_decimal(&mut text, n);
        assert_eq!(text, expected);
    }
    let mut text = String::from("n = ");
    append_decimal(&mut text, usize::MAX);
    assert_eq!(text, format!("n = {}", usize::MAX));
}
