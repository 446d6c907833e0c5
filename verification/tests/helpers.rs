use particle_sim::texture::{is_power_of_2, texture_sampling, TextureSampling};
use particle_sim::webgl_helpers::{compile_shader, link_program, BuildReport};

#[test]
fn powers_of_two_are_recognised() {
    for exponent in 0..32 {
        assert!(is_power_of_2(1u32 << exponent));
    }
}

#[test]
fn other_numbers_are_no_powers_of_two() {
    for n in [0u32, 3, 5, 6, 7, 9, 12, 100, 255, 257, 0x8000_0001, u32::MAX] {
        assert!(!is_power_of_2(n));
    }
}

#[test]
fn mipmaps_need_both_sides_to_be_powers_of_two() {
    assert_eq!(texture_sampling(256, 256), TextureSampling::Mipmapped);
    assert_eq!(texture_sampling(1, 1), TextureSampling::Mipmapped);
    assert_eq!(texture_sampling(64, 2), TextureSampling::Mipmapped);
    assert_eq!(texture_sampling(256, 100), TextureSampling::ClampedLinear);
    assert_eq!(texture_sampling(100, 256), TextureSampling::ClampedLinear);
    assert_eq!(texture_sampling(300, 200), TextureSampling::ClampedLinear);
    assert_eq!(texture_sampling(0, 4), TextureSampling::ClampedLinear);
}

#[test]
fn a_compiled_shader_is_accepted() {
    let report = BuildReport { created: true, status: Some(true), info_log: None };
    assert_eq!(compile_shader(report), Ok(()));
    let report =
        BuildReport { created: true, status: Some(true), info_log: Some(String::from("warning")) };
    assert_eq!(compile_shader(report), Ok(()));
}

#[test]
fn a_shader_that_was_not_created_is_an_error() {
    let report = BuildReport { created: false, status: Some(true), info_log: None };
    assert_eq!(compile_shader(report), Err(String::from("Unable to create shader object")));
}

#[test]
fn a_failed_compile_carries_the_diagnostic() {
    let report = BuildReport {
        created: true,
        status: Some(false),
        info_log: Some(String::from("ERROR: 0:3: syntax error")),
    };
    assert_eq!(compile_shader(report), Err(String::from("ERROR: 0:3: syntax error")));
}

#[test]
fn a_failed_compile_without_diagnostic_has_a_fixed_text() {
    let report = BuildReport { created: true, status: Some(false), info_log: None };
    assert_eq!(compile_shader(report), Err(String::from("Unknown error creating shader")));
    let report = BuildReport { created: true, status: None, info_log: None };
    assert_eq!(compile_shader(report), Err(String::from("Unknown error creating shader")));
}

#[test]
fn a_linked_program_is_accepted() {
    let report = BuildReport { created: true, status: Some(true), info_log: None };
    assert_eq!(link_program(report), Ok(()));
}

#[test]
fn a_failed_link_carries_the_diagnostic() {
    let report = BuildReport {
        created: true,
        status: Some(false),
        info_log: Some(String::from("varying mismatch")),
    };
    assert_eq!(link_program(report), Err(String::from("varying mismatch")));
    let report = BuildReport { created: true, status: None, info_log: None };
    assert_eq!(link_program(report), Err(String::from("Unknown error creating program object")));
    let report = BuildReport { created: false, status: None, info_log: None };
    assert_eq!(link_program(report), Err(String::from("Unable to create shader object")));
}
