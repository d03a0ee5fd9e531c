use yish::config::ProblemConfig;
use yish::naming::{default_folder, get_dir_name, get_file_name, new_dir_name, problem_type_label};
use yish::text::decimal;

#[test]
fn decimal_of_zero_is_one_digit() {
    assert_eq!(decimal(0), "0");
}

#[test]
fn decimal_of_single_digits() {
    for n in 0..10u32 {
        assert_eq!(decimal(n), n.to_string());
    }
}

#[test]
fn decimal_keeps_inner_zeros() {
    assert_eq!(decimal(10), "10");
    assert_eq!(decimal(1005), "1005");
    assert_eq!(decimal(907_000), "907000");
}

#[test]
fn decimal_of_the_largest_number() {
    assert_eq!(decimal(u32::MAX), "4294967295");
}

#[test]
fn decimal_agrees_with_the_standard_rendering() {
    let mut n: u32 = 1;
    for _ in 0..40 {
        assert_eq!(decimal(n), n.to_string());
        n = n.wrapping_mul(7).wrapping_add(13);
    }
}

#[test]
fn label_of_an_addition_problem() {
    assert_eq!(problem_type_label(0), "加算");
}

#[test]
fn label_of_a_mixed_problem() {
    assert_eq!(problem_type_label(1), "加減算");
    assert_eq!(problem_type_label(u32::MAX), "加減算");
}

#[test]
fn file_name_of_an_addition_problem() {
    assert_eq!(get_file_name(0, 1), "1-加算.wav");
}

#[test]
fn file_name_of_a_mixed_problem() {
    assert_eq!(get_file_name(3, 120), "120-加減算.wav");
}

#[test]
fn file_name_of_the_largest_ordinal() {
    assert_eq!(get_file_name(1, u32::MAX), "4294967295-加減算.wav");
}

#[test]
fn dir_name_joins_the_settings_and_the_stamp() {
    let config = ProblemConfig { min_digit: 2, max_digit: 10, length: 15, subtractions: 1 };
    assert_eq!(get_dir_name(&config, "20240131235959"), "2-10-15-20240131235959");
}

#[test]
fn dir_name_does_not_depend_on_the_subtraction_setting() {
    let with = ProblemConfig { min_digit: 1, max_digit: 3, length: 5, subtractions: 4 };
    let without = ProblemConfig { subtractions: 0, ..with };
    assert_eq!(get_dir_name(&with, "x"), get_dir_name(&without, "x"));
    assert_eq!(get_dir_name(&with, "x"), "1-3-5-x");
}

#[test]
fn dir_name_with_an_empty_stamp_is_the_prefix() {
    let config = ProblemConfig { min_digit: 0, max_digit: 0, length: 0, subtractions: 0 };
    assert_eq!(get_dir_name(&config, ""), "0-0-0-");
}

#[test]
fn new_dir_name_ends_with_a_stamp_of_the_clock() {
    let config = ProblemConfig { min_digit: 3, max_digit: 4, length: 10, subtractions: 0 };
    let name = new_dir_name(&config);
    let stamp = name.strip_prefix("3-4-10-").expect("the settings come first");
    assert_eq!(stamp.len(), 14);
    assert!(stamp.chars().all(|c| c.is_ascii_digit()));
    assert!(stamp >= "20240101000000");
    let month: u32 = stamp[4..6].parse().unwrap();
    let day: u32 = stamp[6..8].parse().unwrap();
    let hour: u32 = stamp[8..10].parse().unwrap();
    assert!((1..=12).contains(&month));
    assert!((1..=31).contains(&day));
    assert!(hour < 24);
}

#[test]
fn default_folder_is_the_program_name() {
    assert_eq!(default_folder(), "yish");
}
