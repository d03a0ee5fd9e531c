use yish::config::{effective_config, effective_subtractions, GenConfig, GenType, ProblemConfig, Scale};

#[test]
fn policy_codes() {
    assert_eq!(GenType::from_code(0), GenType::AdditionOnly);
    assert_eq!(GenType::from_code(1), GenType::ConfiguredMix);
    assert_eq!(GenType::from_code(2), GenType::Alternating);
    assert_eq!(GenType::from_code(3), GenType::ConfiguredMix);
    assert_eq!(GenType::from_code(u32::MAX), GenType::ConfiguredMix);
}

#[test]
fn policy_code_round_trip() {
    for policy in [GenType::AdditionOnly, GenType::ConfiguredMix, GenType::Alternating] {
        assert_eq!(GenType::from_code(policy.code()), policy);
    }
}

#[test]
fn request_policy_follows_its_code() {
    let request = GenConfig {
        count_problems: 1,
        gen_type: 2,
        speed_scale: Scale { bits: 1.0f64.to_bits() },
        output_path: String::from("out"),
    };
    assert_eq!(request.policy(), GenType::Alternating);
}

#[test]
fn addition_only_disables_subtraction_everywhere() {
    for configured in [0u32, 1, 5, u32::MAX] {
        for index in [0u32, 1, 2, 3, 1000, u32::MAX] {
            assert_eq!(effective_subtractions(GenType::AdditionOnly, configured, index), 0);
        }
    }
}

#[test]
fn configured_mix_keeps_the_setting() {
    for configured in [0u32, 1, 5, u32::MAX] {
        for index in [0u32, 1, 2, 3, 1000, u32::MAX] {
            assert_eq!(
                effective_subtractions(GenType::ConfiguredMix, configured, index),
                configured
            );
        }
    }
}

#[test]
fn alternating_disables_subtraction_at_even_positions() {
    for index in 0..50u32 {
        let effective = effective_subtractions(GenType::Alternating, 1, index);
        assert_eq!(effective == 0, index % 2 == 0);
    }
    assert_eq!(effective_subtractions(GenType::Alternating, 7, u32::MAX), 7);
    assert_eq!(effective_subtractions(GenType::Alternating, 7, u32::MAX - 1), 0);
}

#[test]
fn alternating_without_subtraction_never_enables_it() {
    for index in 0..10u32 {
        assert_eq!(effective_subtractions(GenType::Alternating, 0, index), 0);
    }
}

#[test]
fn effective_config_changes_the_subtraction_setting_only() {
    let config = ProblemConfig { min_digit: 2, max_digit: 4, length: 10, subtractions: 3 };
    let even = effective_config(GenType::Alternating, config, 4);
    assert_eq!(even, ProblemConfig { subtractions: 0, ..config });
    let odd = effective_config(GenType::Alternating, config, 5);
    assert_eq!(odd, config);
    assert_eq!(effective_config(GenType::ConfiguredMix, config, 0), config);
    assert_eq!(
        effective_config(GenType::AdditionOnly, config, 1),
        ProblemConfig { subtractions: 0, ..config }
    );
}
