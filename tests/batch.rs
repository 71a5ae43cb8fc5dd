use datafusion_statrs::batch::{evaluate_rows, invoke2, invoke3, invoke4, zip2, zip3, zip4};

fn halve(t: i64) -> Result<i64, String> {
    if t % 2 == 0 {
        Ok(t / 2)
    } else {
        Err(format!("odd: {}", t))
    }
}

#[test]
fn rows_are_evaluated_in_order() {
    let rows = vec![Some(4), Some(10), Some(-6)];
    assert_eq!(evaluate_rows(&rows, -1, halve), Ok(vec![2, 5, -3]));
}

#[test]
fn empty_batch_gives_empty_output() {
    let rows: Vec<Option<i64>> = vec![];
    assert_eq!(evaluate_rows(&rows, -1, halve), Ok(vec![]));
}

#[test]
fn missing_row_gives_missing_value_and_spares_siblings() {
    let rows = vec![Some(4), None, Some(8)];
    assert_eq!(evaluate_rows(&rows, 99, halve), Ok(vec![2, 99, 4]));
    let all_missing: Vec<Option<i64>> = vec![None, None];
    assert_eq!(evaluate_rows(&all_missing, 99, halve), Ok(vec![99, 99]));
}

#[test]
fn missing_row_is_not_evaluated() {
    // An odd value would fail; a missing one is never handed to the evaluator.
    let rows = vec![Some(2), None];
    assert_eq!(evaluate_rows(&rows, 0, halve), Ok(vec![1, 0]));
}

#[test]
fn one_failing_row_fails_the_batch_with_the_first_error() {
    let rows = vec![Some(2), Some(3), None, Some(5)];
    assert_eq!(evaluate_rows(&rows, 0, halve), Err("odd: 3".to_string()));
}

#[test]
fn shuffled_rows_give_shuffled_output() {
    let rows = vec![Some(2), None, Some(8), Some(6)];
    let shuffled = vec![rows[3], rows[0], rows[2], rows[1]];
    let out = evaluate_rows(&rows, 0, halve).unwrap();
    let out2 = evaluate_rows(&shuffled, 0, halve).unwrap();
    assert_eq!(out2, vec![out[3], out[0], out[2], out[1]]);
}

#[test]
fn evaluating_twice_gives_the_same_output() {
    let rows = vec![Some(2), None, Some(12)];
    assert_eq!(evaluate_rows(&rows, 0, halve), evaluate_rows(&rows, 0, halve));
    let bad = vec![Some(1)];
    assert_eq!(evaluate_rows(&bad, 0, halve), evaluate_rows(&bad, 0, halve));
}

#[test]
fn zip_marks_rows_with_any_missing_value() {
    let xs = vec![Some(1u64), None, Some(3)];
    let ys = vec![Some(0.5f64), Some(1.5), None];
    assert_eq!(zip2(&xs, &ys), vec![Some((1, 0.5)), None, None]);
    let zs = vec![Some(true), Some(false), Some(true)];
    assert_eq!(zip3(&xs, &xs, &zs), vec![Some((1, 1, true)), None, Some((3, 3, true))]);
    let ws = vec![None, Some(2u8), Some(3)];
    assert_eq!(zip4(&xs, &xs, &xs, &ws), vec![None, None, Some((3, 3, 3, 3))]);
}

#[test]
fn invoke_over_columns() {
    let xs = vec![Some(1i64), Some(2), None];
    let ys = vec![Some(10i64), None, Some(30)];
    let zs = vec![Some(100i64), Some(200), Some(300)];
    let ws = vec![Some(1000i64), Some(2000), Some(3000)];
    let add2 = |(a, b): (i64, i64)| -> Result<i64, ()> { Ok(a + b) };
    let add3 = |(a, b, c): (i64, i64, i64)| -> Result<i64, ()> { Ok(a + b + c) };
    let add4 = |(a, b, c, d): (i64, i64, i64, i64)| -> Result<i64, ()> { Ok(a + b + c + d) };
    assert_eq!(invoke2(&xs, &ys, -1, add2), Ok(vec![11, -1, -1]));
    assert_eq!(invoke3(&xs, &zs, &ws, -1, add3), Ok(vec![1101, 2202, -1]));
    assert_eq!(invoke4(&xs, &ys, &zs, &ws, -1, add4), Ok(vec![1111, -1, -1]));
}

#[test]
fn invoke_fails_on_a_present_row_only() {
    let xs = vec![Some(1i64), None];
    let ys = vec![Some(2i64), Some(-1)];
    let checked = |(a, b): (i64, i64)| -> Result<i64, &'static str> {
        if b < 0 {
            Err("negative")
        } else {
            Ok(a * b)
        }
    };
    assert_eq!(invoke2(&xs, &ys, 0, checked), Ok(vec![2, 0]));
    let ys_bad = vec![Some(-2i64), Some(1)];
    assert_eq!(invoke2(&xs, &ys_bad, 0, checked), Err("negative"));
}

#[test]
fn not_a_number_stands_for_missing_rows() {
    let xs = vec![Some(1.0f64), None];
    let ys = vec![Some(2.0f64), Some(3.0)];
    let out = invoke2(&xs, &ys, f64::NAN, |(a, b): (f64, f64)| -> Result<f64, ()> { Ok(a * b) })
        .unwrap();
    assert_eq!(out[0], 2.0);
    assert!(out[1].is_nan());
}
