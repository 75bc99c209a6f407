use same_code_different_performance::aggregate;
use same_code_different_performance::fold_min;
use same_code_different_performance::make_family;
use same_code_different_performance::measure;
use same_code_different_performance::random_order;
use same_code_different_performance::run_member;
use same_code_different_performance::ConfigError;
use same_code_different_performance::HarnessConfig;
use same_code_different_performance::Measurement;

#[test]
fn zero_samples_fail_fast() {
    let cfg = HarnessConfig {
        samples: 0,
        sample_size: 100,
    };
    assert_eq!(measure(|x: u64| x, 100, &cfg), Err(ConfigError::ZeroSamples));
}

#[test]
fn zero_sample_size_fails_fast() {
    let cfg = HarnessConfig {
        samples: 100,
        sample_size: 0,
    };
    assert_eq!(
        measure(|x: u64| x, 100, &cfg),
        Err(ConfigError::ZeroSampleSize)
    );
}

#[test]
fn valid_configuration_measures() {
    let cfg = HarnessConfig {
        samples: 50,
        sample_size: 10,
    };
    let r = measure(|x: u64| x.wrapping_mul(3), 100, &cfg);
    assert!(r.is_ok());
}

#[test]
fn fold_min_exact() {
    assert_eq!(fold_min(&vec![5, 3, 9]), 3);
    assert_eq!(fold_min(&vec![42]), 42);
    assert_eq!(fold_min(&vec![7, 7, 7]), 7);
    assert_eq!(fold_min(&Vec::new()), u64::MAX);
}

#[test]
fn aggregate_exact() {
    let results = vec![
        Measurement {
            id: 1,
            min_latency: 10,
        },
        Measurement {
            id: 2,
            min_latency: 25,
        },
        Measurement {
            id: 3,
            min_latency: 15,
        },
    ];
    let report = aggregate(&results);
    assert_eq!(report.min, 10);
    assert_eq!(report.max, 25);
    assert_eq!(report.spread, 15);
}

#[test]
fn aggregate_of_equal_latencies_has_zero_spread() {
    let results = vec![
        Measurement {
            id: 1,
            min_latency: 9,
        },
        Measurement {
            id: 2,
            min_latency: 9,
        },
    ];
    let report = aggregate(&results);
    assert_eq!(report.min, 9);
    assert_eq!(report.max, 9);
    assert_eq!(report.spread, 0);
}

// End-to-end scenario: ten members, a fixed padding count, argument 100.
// Every member returns the identical saturated value, the run yields one
// measurement per member, and the summary spread is max - min, never
// negative.
#[test]
fn end_to_end_scenario() {
    let padding: u64 = 38;
    let family = make_family(10, false).unwrap();
    let values: Vec<u64> = family
        .iter()
        .map(|m| run_member(m, padding, 100))
        .collect();
    for v in &values {
        assert_eq!(*v, values[0]);
        assert_eq!(*v, u64::MAX);
    }

    let cfg = HarnessConfig {
        samples: 40,
        sample_size: 5,
    };
    let order = random_order(family.len());
    let mut results: Vec<Measurement> = Vec::new();
    for idx in order {
        let member = family[idx];
        let latency = measure(move |x: u64| run_member(&member, padding, x), 100, &cfg).unwrap();
        results.push(Measurement {
            id: member.id,
            min_latency: latency,
        });
    }
    assert_eq!(results.len(), 10);

    let mut seen: Vec<u64> = results.iter().map(|r| r.id).collect();
    seen.sort();
    assert_eq!(seen, (1u64..=10).collect::<Vec<u64>>());

    let report = aggregate(&results);
    assert!(report.min <= report.max);
    assert_eq!(report.spread, report.max - report.min);
}
