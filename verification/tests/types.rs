use cbqn::decide::{check_callable, check_type, classify, element_scan_needed, require, settle};
use cbqn::error::lift;
use cbqn::eval::is_failure;
use cbqn::typecheck::{bqneltype_is_char, bqneltype_is_numeric, bqneltype_is_unknown};
use cbqn::{BQNType, Error, Fault};

const ALL: [BQNType; 7] = [
    BQNType::Array,
    BQNType::Number,
    BQNType::Character,
    BQNType::Function,
    BQNType::Mod1,
    BQNType::Mod2,
    BQNType::Namespace,
];

#[test]
fn type_tags_are_classified() {
    for (tag, ty) in ALL.into_iter().enumerate() {
        assert_eq!(BQNType::try_from(tag as i32), Ok(ty));
        assert_eq!(ty.to_tag(), tag as i32);
    }
    for tag in [-1, 7, 8, 100, i32::MIN, i32::MAX] {
        assert_eq!(BQNType::try_from(tag), Err("Invalid type"));
    }
}

#[test]
fn element_types_are_classified() {
    let numeric: Vec<bool> = (0..10).map(bqneltype_is_numeric).collect();
    let chars: Vec<bool> = (0..10).map(bqneltype_is_char).collect();
    let unknown: Vec<bool> = (0..10).map(bqneltype_is_unknown).collect();
    let (t, f) = (true, false);
    assert_eq!(unknown, [t, f, f, f, f, f, f, f, f, f]);
    assert_eq!(numeric, [f, t, t, t, t, f, f, f, f, f]);
    assert_eq!(chars, [f, f, f, f, f, t, t, t, f, f]);
    assert!(!bqneltype_is_numeric(u32::MAX));
    assert!(!bqneltype_is_char(u32::MAX));
}

#[test]
fn a_look_at_the_elements_is_needed_unless_the_element_type_settles_it() {
    for eltype in 0..10 {
        assert_eq!(element_scan_needed(eltype, true), !(1..=4).contains(&eltype));
        assert_eq!(element_scan_needed(eltype, false), !(5..=7).contains(&eltype));
    }
}

#[test]
fn errors_are_rendered_with_their_kind() {
    let e = Error::engine("Error: boom".to_string());
    assert!(matches!(&e, Error::CBQN(m) if m == "Error: boom"));
    assert_eq!(e.to_string(), "CBQN error: Error: boom");
    assert_eq!(e.message(), "Error: boom");

    let e = Error::invalid_type("value isn't a number");
    assert!(matches!(&e, Error::InvalidType(m) if m == "value isn't a number"));
    assert_eq!(e.to_string(), "Invalid type: value isn't a number");
    assert_eq!(e.message(), "value isn't a number");

    let e = Error::not_supported("no callbacks");
    assert!(matches!(&e, Error::NotSupported(m) if m == "no callbacks"));
    assert_eq!(e.to_string(), "no callbacks");
    assert_eq!(e.message(), "no callbacks");

    assert_eq!(Error::engine(String::new()).to_string(), "CBQN error: ");
}

#[test]
fn faults_are_reported_as_errors() {
    let e = Error::from_fault(Fault::Failed("segfault".to_string()));
    assert!(matches!(e, Error::CBQN(m) if m == "segfault"));
    let e = Error::from_fault(Fault::Failed(String::new()));
    assert!(matches!(e, Error::CBQN(m) if m == "the interpreter failed"));
    let e = Error::from_fault(Fault::NotSupported("no".to_string()));
    assert!(matches!(e, Error::NotSupported(m) if m == "no"));

    assert!(matches!(lift(Ok::<u8, Fault>(3)), Ok(3)));
    assert!(matches!(lift::<u8>(Err(Fault::Failed("x".to_string()))), Err(Error::CBQN(m)) if m == "x"));
}

#[test]
fn a_tag_is_classified_or_rejected() {
    assert!(matches!(classify(2), Ok(BQNType::Character)));
    assert!(matches!(classify(7), Err(Error::InvalidType(m)) if m == "Invalid type"));
}

#[test]
fn an_operation_requires_its_type() {
    for actual in ALL {
        for wanted in ALL {
            match require(actual, wanted, "wrong") {
                Ok(()) => assert_eq!(actual, wanted),
                Err(Error::InvalidType(m)) => {
                    assert_ne!(actual, wanted);
                    assert_eq!(m, "wrong");
                }
                Err(e) => panic!("{:?}", e),
            }
        }
    }
}

#[test]
fn the_answer_to_a_type_query_is_checked() {
    assert!(check_type(Ok(1), BQNType::Number, "value isn't a number").is_ok());
    assert!(matches!(
        check_type(Ok(2), BQNType::Number, "value isn't a number"),
        Err(Error::InvalidType(m)) if m == "value isn't a number"
    ));
    assert!(matches!(
        check_type(Ok(-3), BQNType::Number, "value isn't a number"),
        Err(Error::InvalidType(m)) if m == "Invalid type"
    ));
    assert!(matches!(
        check_type(Err(Fault::Failed("trap".to_string())), BQNType::Number, "value isn't a number"),
        Err(Error::CBQN(m)) if m == "trap"
    ));
    assert!(matches!(
        check_type(Err(Fault::NotSupported("no".to_string())), BQNType::Number, "n"),
        Err(Error::NotSupported(m)) if m == "no"
    ));
}

#[test]
fn functions_and_modifiers_can_be_called() {
    for (tag, ty) in ALL.into_iter().enumerate() {
        let callable = matches!(ty, BQNType::Function | BQNType::Mod1 | BQNType::Mod2);
        match check_callable(Ok(tag as i32)) {
            Ok(()) => assert!(callable, "{:?}", ty),
            Err(Error::InvalidType(m)) => {
                assert!(!callable, "{:?}", ty);
                assert_eq!(m, "value isn't a function");
            }
            Err(e) => panic!("{:?}", e),
        }
    }
    assert!(matches!(check_callable(Ok(7)), Err(Error::InvalidType(m)) if m == "Invalid type"));
    assert!(matches!(
        check_callable(Err(Fault::Failed("trap".to_string()))),
        Err(Error::CBQN(m)) if m == "trap"
    ));
}

#[test]
fn the_first_failure_wins() {
    assert_eq!(settle(Ok::<u8, &str>(1), Ok(())), Ok(1));
    assert_eq!(settle(Ok::<u8, &str>(1), Err("release")), Err("release"));
    assert_eq!(settle(Err::<u8, &str>("read"), Ok(())), Err("read"));
    assert_eq!(settle(Err::<u8, &str>("read"), Err("release")), Err("read"));
}

#[test]
fn any_flag_but_zero_says_failure() {
    assert!(!is_failure(0f64.to_bits()));
    assert!(is_failure(1f64.to_bits()));
    assert!(is_failure((-0f64).to_bits()));
    assert!(is_failure(u64::MAX));
}
