use random_org::validations::{
    generate_gaussians, generate_integer_sequences, generate_integers, generate_strings,
    generate_uuids,
};
use random_org::{RequestError, ReportValue, SeqBound, Violation};

fn fields(e: RequestError) -> Vec<(String, String, i128, i128)> {
    match e {
        RequestError::Invalid(err) => err
            .violations
            .iter()
            .map(|v| match v {
                Violation::Field { code, name, actual: ReportValue::Int(a), expected: ReportValue::Int(x) } => {
                    (code.clone(), name.clone(), *a, *x)
                }
                other => panic!("unexpected violation {:?}", other),
            })
            .collect(),
        RequestError::MismatchedVariants => panic!("unexpected shape mismatch"),
    }
}

#[test]
fn uuids_count_in_range_passes_unchanged() {
    for n in [1u16, 2, 500, 999, 1000] {
        assert_eq!(generate_uuids(n).unwrap(), n);
    }
}

#[test]
fn uuids_count_out_of_range_names_n() {
    let v = fields(generate_uuids(0).unwrap_err());
    assert_eq!(v, vec![("invalid-bound-closed-min".to_string(), "n".to_string(), 0, 1)]);
    let v = fields(generate_uuids(1001).unwrap_err());
    assert_eq!(v, vec![("invalid-bound-closed-max".to_string(), "n".to_string(), 1001, 1000)]);
}

#[test]
fn integers_in_range_pass() {
    assert_eq!(generate_integers(10, -1_000_000_000, 1_000_000_000).unwrap(), (10, -1_000_000_000, 1_000_000_000));
    assert_eq!(generate_integers(1000, 0, 0).unwrap(), (1000, 0, 0));
}

#[test]
fn integers_min_below_range_names_min() {
    let v = fields(generate_integers(10, -1_000_000_001, 5).unwrap_err());
    assert_eq!(v, vec![("invalid-bound-closed-min".to_string(), "min".to_string(), -1_000_000_001, -1_000_000_000)]);
}

#[test]
fn integers_collect_every_violation_in_order() {
    let v = fields(generate_integers(0, 1_000_000_001, -1_000_000_001).unwrap_err());
    let names: Vec<&str> = v.iter().map(|t| t.1.as_str()).collect();
    assert_eq!(names, vec!["n", "min", "max"]);
}

#[test]
fn strings_bounds() {
    assert_eq!(generate_strings(10_000, 32).unwrap(), (10_000, 32));
    let v = fields(generate_strings(10_001, 0).unwrap_err());
    assert_eq!(
        v,
        vec![
            ("invalid-bound-closed-max".to_string(), "n".to_string(), 10_001, 10_000),
            ("invalid-bound-closed-min".to_string(), "length".to_string(), 0, 1),
        ]
    );
}

#[test]
fn gaussians_bounds() {
    assert_eq!(generate_gaussians(1, -1_000_000, 1_000_000, 14).unwrap(), (1, -1_000_000, 1_000_000, 14));
    let v = fields(generate_gaussians(5, 0, 1_000_001, 1).unwrap_err());
    assert_eq!(
        v,
        vec![
            ("invalid-bound-closed-max".to_string(), "std_dev".to_string(), 1_000_001, 1_000_000),
            ("invalid-bound-closed-min".to_string(), "sig_digits".to_string(), 1, 2),
        ]
    );
}

#[test]
fn multiform_sequences_matching_n_pass() {
    let (n, length, min, max) = generate_integer_sequences(
        2,
        SeqBound::Multiform(vec![5, 20]),
        SeqBound::Multiform(vec![0, 0]),
        SeqBound::Multiform(vec![100, 100]),
    )
    .unwrap();
    assert_eq!(n, 2);
    assert!(matches!(length, SeqBound::Multiform(v) if v == vec![5, 20]));
    assert!(matches!(min, SeqBound::Multiform(v) if v == vec![0, 0]));
    assert!(matches!(max, SeqBound::Multiform(v) if v == vec![100, 100]));
}

#[test]
fn multiform_sequences_wrong_length_cite_expected_and_actual() {
    let e = generate_integer_sequences(
        3,
        SeqBound::Multiform(vec![5, 20]),
        SeqBound::Multiform(vec![0, 0]),
        SeqBound::Multiform(vec![100, 100]),
    )
    .unwrap_err();
    let v = fields(e);
    assert_eq!(v, vec![("invalid-length-exact".to_string(), "length".to_string(), 2, 3)]);
}

#[test]
fn multiform_sequences_element_out_of_bound() {
    let e = generate_integer_sequences(
        2,
        SeqBound::Multiform(vec![5, 20]),
        SeqBound::Multiform(vec![0, 0]),
        SeqBound::Multiform(vec![100, 1_000_000_001]),
    )
    .unwrap_err();
    let v = fields(e);
    assert_eq!(v, vec![("invalid-bound-closed-max".to_string(), "max[1]".to_string(), 1_000_000_001, 1_000_000_000)]);
}

#[test]
fn multiform_sequences_bad_n_stops_early() {
    let e = generate_integer_sequences(
        0,
        SeqBound::Multiform(vec![5, 20]),
        SeqBound::Multiform(vec![0]),
        SeqBound::Multiform(vec![]),
    )
    .unwrap_err();
    let v = fields(e);
    assert_eq!(v, vec![("invalid-bound-closed-min".to_string(), "n".to_string(), 0, 1)]);
}

#[test]
fn mixed_shapes_are_refused_before_bounds() {
    let e = generate_integer_sequences(
        0,
        SeqBound::Multiform(vec![5, 20]),
        SeqBound::Uniform(-2_000_000_000),
        SeqBound::Multiform(vec![100, 100]),
    )
    .unwrap_err();
    assert!(matches!(e, RequestError::MismatchedVariants));
}

#[test]
fn uniform_sequences_collect_all_violations() {
    let (n, l, lo, hi) = generate_integer_sequences(4, SeqBound::Uniform(10), SeqBound::Uniform(-3), SeqBound::Uniform(7)).unwrap();
    assert_eq!(n, 4);
    assert!(matches!(l, SeqBound::Uniform(10)));
    assert!(matches!(lo, SeqBound::Uniform(-3)));
    assert!(matches!(hi, SeqBound::Uniform(7)));
    let e = generate_integer_sequences(1001, SeqBound::Uniform(0), SeqBound::Uniform(0), SeqBound::Uniform(1_000_000_001)).unwrap_err();
    let names: Vec<String> = fields(e).into_iter().map(|t| t.1).collect();
    assert_eq!(names, vec!["n", "length", "max"]);
}
