use agentype::errors::ErrorKind;
use agentype::temp::{allocate, join_path, temp_file_name};

#[test]
fn name_has_prefix_suffix_and_extension() {
    let name = temp_file_name("agentype-ocr", 1730000000000, "png");
    assert_eq!(name, "agentype-ocr-1730000000000.png");
}

#[test]
fn name_of_zero_millis() {
    let name = temp_file_name("x", 0, "png");
    assert_eq!(name, "x-0.png");
}

#[test]
fn name_of_single_digit_millis() {
    let name = temp_file_name("agentype-ocr", 7, "swift");
    assert_eq!(name, "agentype-ocr-7.swift");
}

#[test]
fn names_differ_across_distinct_millis() {
    let a = temp_file_name("agentype-ocr", 1730000000000, "png");
    let b = temp_file_name("agentype-ocr", 1730000000001, "png");
    assert_ne!(a, b);
}

#[test]
fn names_differ_for_image_and_script_of_one_request() {
    let a = temp_file_name("agentype-ocr", 42, "png");
    let b = temp_file_name("agentype-ocr", 42, "swift");
    assert_ne!(a, b);
}

#[test]
fn join_path_places_name_under_dir() {
    let p = join_path("/tmp", "agentype-ocr-42.png");
    assert_eq!(p, "/tmp/agentype-ocr-42.png");
}

#[test]
fn allocate_builds_the_full_path() {
    let r = allocate("/tmp", "agentype-ocr", Some(42), "png");
    assert_eq!(r, Ok(String::from("/tmp/agentype-ocr-42.png")));
}

#[test]
fn allocate_fails_only_on_an_unusable_clock() {
    let r = allocate("/tmp", "agentype-ocr", None, "png");
    assert_eq!(r, Err(ErrorKind::TimeError));
}

#[test]
fn largest_millis_renders_in_full() {
    let name = temp_file_name("p", u64::MAX, "png");
    assert_eq!(name, "p-18446744073709551615.png");
}
