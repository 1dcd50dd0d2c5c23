use random_org::{
    Bound, EveryElement, HasIter, HasSameVariant, Length, RandomStringCharSet, ReportValue, SameVariant,
    SeqBound, Violation,
};

fn field_of(v: &Violation) -> (String, String, i128, i128) {
    match v {
        Violation::Field { code, name, actual: ReportValue::Int(a), expected: ReportValue::Int(e) } => {
            (code.clone(), name.clone(), *a, *e)
        }
        other => panic!("not an integer field violation: {:?}", other),
    }
}

#[test]
fn test_same_variant() {
    let uniform1 = SeqBound::Uniform(10);
    let uniform2 = SeqBound::Uniform(20);
    let multiform1 = SeqBound::Multiform(vec![1, 2]);

    let res1 = uniform1.same_variant(&uniform2);
    assert!(res1);

    let res2 = uniform1.same_variant(&multiform1);
    assert_eq!(res2, false);
}

#[test]
fn test_same_variant_validate() {
    let uniform1 = SeqBound::Uniform(10);
    let uniform2 = SeqBound::Uniform(20);

    let uniform3 = SeqBound::Uniform(30);
    let multiform1 = SeqBound::Multiform(vec![1, 2, 3]);

    let res1 = SameVariant.validate((uniform1, uniform2), "min", "max");
    println!("res: {:?}", res1);
    assert!(res1.is_ok());

    let res2 = SameVariant.validate((uniform3, multiform1), "min", "max");
    println!("res: {:?}", res2);
    assert!(res2.is_err());
}

#[test]
fn test_every_element_validate() {
    let bound = Bound::ClosedRange(1, 10);
    let every_element = EveryElement(bound.clone());

    let vs1 = vec![1, 4, 10];
    let out1 = every_element.validate(vs1, "vs1");
    assert!(out1.is_ok());

    let vs2 = vec![1, 11];
    let every2 = EveryElement(bound);
    let out2 = every2.validate(vs2, "vs2");
    assert!(out2.is_err());
}

#[test]
fn same_variant_reports_both_fields_and_shapes() {
    let res = SameVariant.validate((SeqBound::Uniform(30), SeqBound::Multiform(vec![1, 2, 3])), "min", "max");
    let err = res.unwrap_err();
    assert_eq!(err.violations.len(), 1);
    match &err.violations[0] {
        Violation::Relation { code, name1, value1, name2, value2 } => {
            assert_eq!(code, "invalid-same-variant");
            assert_eq!(name1, "min");
            assert_eq!(name2, "max");
            assert!(matches!(value1, ReportValue::Text(t) if t == "Uniform"));
            assert!(matches!(value2, ReportValue::Text(t) if t == "Multiform"));
        }
        other => panic!("unexpected violation {:?}", other),
    }
}

#[test]
fn same_variant_keeps_the_pair() {
    let (a, b) = SameVariant
        .validate((SeqBound::Multiform(vec![4, 5]), SeqBound::Multiform(vec![6])), "a", "b")
        .unwrap();
    assert!(matches!(a, SeqBound::Multiform(v) if v == vec![4, 5]));
    assert!(matches!(b, SeqBound::Multiform(v) if v == vec![6]));
}

#[test]
fn every_element_reports_first_failing_index() {
    let every = EveryElement(Bound::ClosedRange(1, 10));
    let err = every.validate(vec![1, 11], "vs2").unwrap_err();
    assert_eq!(err.violations.len(), 1);
    let (code, name, actual, expected) = field_of(&err.violations[0]);
    assert_eq!(code, "invalid-bound-closed-max");
    assert_eq!(name, "vs2[1]");
    assert_eq!(actual, 11);
    assert_eq!(expected, 10);
}

#[test]
fn every_element_stops_at_first_failure() {
    let every = EveryElement(Bound::ClosedRange(0, 5));
    let values: Vec<i32> = (0..12).map(|i| if i >= 10 { -3 } else { i % 6 }).collect();
    let err = every.validate(values, "xs").unwrap_err();
    assert_eq!(err.violations.len(), 1);
    let (code, name, actual, expected) = field_of(&err.violations[0]);
    assert_eq!(code, "invalid-bound-closed-min");
    assert_eq!(name, "xs[10]");
    assert_eq!(actual, -3);
    assert_eq!(expected, 0);
}

#[test]
fn every_element_accepts_empty() {
    let every = EveryElement(Bound::ClosedRange(0, 1));
    assert_eq!(every.validate(Vec::new(), "xs").unwrap(), Vec::<i32>::new());
}

#[test]
fn bound_is_inclusive_at_both_ends() {
    let b = Bound::ClosedRange(-5, 5);
    assert_eq!(b.validate(-5, "x").unwrap(), -5);
    assert_eq!(b.validate(5, "x").unwrap(), 5);
    let (code, name, actual, expected) = field_of(&b.validate(-6, "x").unwrap_err().violations[0]);
    assert_eq!((code.as_str(), name.as_str(), actual, expected), ("invalid-bound-closed-min", "x", -6, -5));
    let (code, _, actual, expected) = field_of(&b.validate(6, "x").unwrap_err().violations[0]);
    assert_eq!((code.as_str(), actual, expected), ("invalid-bound-closed-max", 6, 5));
}

#[test]
fn length_reports_expected_and_actual() {
    assert!(Length::Exact(2).check(&vec![1, 2], "length").is_none());
    let v = Length::Exact(3).check(&vec![1, 2], "length").unwrap();
    let (code, name, actual, expected) = field_of(&v);
    assert_eq!(code, "invalid-length-exact");
    assert_eq!(name, "length");
    assert_eq!(actual, 2);
    assert_eq!(expected, 3);
}

#[test]
fn describe_names_the_shape() {
    assert!(matches!(SeqBound::Uniform(3).describe(), ReportValue::Text(t) if t == "Uniform"));
    assert!(matches!(SeqBound::Multiform(vec![]).describe(), ReportValue::Text(t) if t == "Multiform"));
}

#[test]
fn char_sets_and_their_sum() {
    assert_eq!(RandomStringCharSet::Number.to_str(), "0123456789");
    assert_eq!(RandomStringCharSet::LowerAlphabet.to_str(), "abcdefghijklmnopqrstuvwxyz");
    assert_eq!(RandomStringCharSet::UpperAlphabet.to_str(), "ABCDEFGHIJKLMNOPQRSTUVWXYZ");
    let sum = RandomStringCharSet::Number.add(RandomStringCharSet::Custom("xy".to_string()));
    assert!(matches!(&sum, RandomStringCharSet::Custom(_)));
    assert_eq!(sum.to_str(), "0123456789xy");
}

#[test]
fn slice_iterator_walks_every_element() {
    let xs: &[i32] = &[3, 1, 4];
    let seen: Vec<i32> = xs.iterator().copied().collect();
    assert_eq!(seen, vec![3, 1, 4]);
}
