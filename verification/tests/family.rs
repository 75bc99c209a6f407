use same_code_different_performance::make_family;
use same_code_different_performance::run_member;
use same_code_different_performance::ConfigError;

const PADDING: u64 = 38;

#[test]
fn check_equavalent() {
    // Sanechecking that all the factorial functions are producing the same results
    let family = make_family(10, false).unwrap();
    for i in 1u64..10 {
        assert_eq!(
            run_member(&family[0], PADDING, i),
            run_member(&family[9], PADDING, i)
        );
    }
}

#[test]
fn family_has_requested_shape() {
    let family = make_family(10, true).unwrap();
    assert_eq!(family.len(), 10);
    for (i, member) in family.iter().enumerate() {
        assert_eq!(member.id, i as u64 + 1);
        assert_eq!(member.align, 32);
    }
    let control = make_family(2, false).unwrap();
    assert_eq!(control.len(), 2);
    assert_eq!(control[0].align, 16);
}

#[test]
fn family_of_one_is_rejected() {
    assert_eq!(make_family(1, false), Err(ConfigError::FamilyTooSmall));
    assert_eq!(make_family(0, true), Err(ConfigError::FamilyTooSmall));
}

#[test]
fn exact_small_values() {
    let family = make_family(2, false).unwrap();
    let m = &family[0];
    assert_eq!(run_member(m, PADDING, 0), 1);
    assert_eq!(run_member(m, PADDING, 1), 1);
    assert_eq!(run_member(m, PADDING, 5), 120);
    assert_eq!(run_member(m, PADDING, 20), 2432902008176640000);
}

#[test]
fn large_inputs_saturate() {
    let family = make_family(2, false).unwrap();
    assert_eq!(run_member(&family[0], PADDING, 21), u64::MAX);
    assert_eq!(run_member(&family[1], PADDING, 100), u64::MAX);
}

#[test]
fn repeated_runs_are_deterministic() {
    let family = make_family(3, false).unwrap();
    let first = run_member(&family[2], PADDING, 12);
    let second = run_member(&family[2], PADDING, 12);
    assert_eq!(first, second);
}

#[test]
fn padding_count_never_changes_the_value() {
    let family = make_family(4, false).unwrap();
    for n in [0u64, 1, 7, 20, 60] {
        let with_none = run_member(&family[1], 0, n);
        let with_some = run_member(&family[1], PADDING, n);
        let with_many = run_member(&family[1], 200, n);
        assert_eq!(with_none, with_some);
        assert_eq!(with_some, with_many);
    }
}
