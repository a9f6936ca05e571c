use texture_ops::noise::{TextureNoiseSettings, TextureOpNoise};
use texture_ops::param::{ParamBundle, ParamName, ParamOrder, ParamValue};
use texture_ops::scalar::{Scalar, Vec4};

fn num(x: f32) -> Scalar {
    Scalar::from_bits(x.to_bits())
}

fn name(s: &str) -> ParamName {
    ParamName(s.to_string())
}

fn settings(strength: f32, b: f32, c: f32, seed: f32) -> TextureNoiseSettings {
    TextureNoiseSettings { strength: num(strength), b: num(b), c: num(c), seed: num(seed) }
}

fn apply(start: TextureNoiseSettings, list: &[(ParamName, ParamValue)]) -> TextureNoiseSettings {
    let mut uniform = start;
    let refs: Vec<(&ParamName, &ParamValue)> = list.iter().map(|(n, v)| (n, v)).collect();
    TextureOpNoise::update_uniform(&mut uniform, &refs);
    uniform
}

#[test]
fn noise_has_no_input_and_one_output() {
    assert_eq!(TextureOpNoise::INPUTS, 0);
    assert_eq!(TextureOpNoise::OUTPUTS, 1);
    assert_eq!(TextureOpNoise::SHADER, "shaders/texture/noise.wgsl");
}

#[test]
fn default_noise_settings_are_zero() {
    let s = TextureNoiseSettings::default();
    assert_eq!(f32::from_bits(s.strength.to_bits()), 0.0);
    assert_eq!(f32::from_bits(s.b.to_bits()), 0.0);
    assert_eq!(f32::from_bits(s.c.to_bits()), 0.0);
    assert_eq!(f32::from_bits(s.seed.to_bits()), 0.0);
    assert_eq!(s, settings(0.0, 0.0, 0.0, 0.0));
}

#[test]
fn params_are_four_tens_in_order() {
    let params = TextureOpNoise::params();
    let names: Vec<&str> = params.iter().map(|p| p.name.as_str()).collect();
    assert_eq!(names, vec!["Strength", "B", "C", "Seed"]);
    for p in &params {
        assert_eq!(p.value, ParamValue::F32(num(10.0)));
        assert_eq!(p.order, ParamOrder(0));
    }
}

#[test]
fn scalar_param_keeps_what_it_was_given() {
    let p = ParamBundle::scalar("Gain", num(2.5), 7);
    assert_eq!(p.name.as_str(), "Gain");
    assert_eq!(p.value, ParamValue::F32(num(2.5)));
    assert_eq!(p.order, ParamOrder(7));
}

#[test]
fn default_params_fill_every_field() {
    let params = TextureOpNoise::params();
    let refs: Vec<(&ParamName, &ParamValue)> = params.iter().map(|p| (&p.name, &p.value)).collect();
    let mut uniform = TextureNoiseSettings::default();
    TextureOpNoise::update_uniform(&mut uniform, &refs);
    assert_eq!(uniform, settings(10.0, 10.0, 10.0, 10.0));
}

#[test]
fn each_name_reaches_its_own_field() {
    let start = settings(1.0, 2.0, 3.0, 4.0);
    assert_eq!(
        apply(start, &[(name("Strength"), ParamValue::F32(num(9.0)))]),
        settings(9.0, 2.0, 3.0, 4.0)
    );
    assert_eq!(
        apply(start, &[(name("B"), ParamValue::F32(num(9.0)))]),
        settings(1.0, 9.0, 3.0, 4.0)
    );
    assert_eq!(
        apply(start, &[(name("C"), ParamValue::F32(num(9.0)))]),
        settings(1.0, 2.0, 9.0, 4.0)
    );
    assert_eq!(
        apply(start, &[(name("Seed"), ParamValue::F32(num(9.0)))]),
        settings(1.0, 2.0, 3.0, 9.0)
    );
}

#[test]
fn empty_list_changes_nothing() {
    let start = settings(1.0, 2.0, 3.0, 4.0);
    assert_eq!(apply(start, &[]), start);
}

#[test]
fn unknown_names_are_passed_over() {
    let start = settings(1.0, 2.0, 3.0, 4.0);
    let list = [
        (name("strength"), ParamValue::F32(num(9.0))),
        (name("Strength "), ParamValue::F32(num(9.0))),
        (name(""), ParamValue::F32(num(9.0))),
        (name("D"), ParamValue::F32(num(9.0))),
    ];
    assert_eq!(apply(start, &list), start);
}

#[test]
fn values_of_another_kind_are_passed_over() {
    let start = settings(1.0, 2.0, 3.0, 4.0);
    let four = Vec4::new(num(9.0), num(9.0), num(9.0), num(9.0));
    let list = [
        (name("Strength"), ParamValue::U32(9)),
        (name("B"), ParamValue::Vec4(four)),
        (name("C"), ParamValue::U32(0x4110_0000)),
        (name("Seed"), ParamValue::U32(0)),
    ];
    assert_eq!(apply(start, &list), start);
}

#[test]
fn last_number_under_a_name_wins() {
    let start = settings(1.0, 2.0, 3.0, 4.0);
    let list = [
        (name("Seed"), ParamValue::F32(num(5.0))),
        (name("B"), ParamValue::F32(num(6.0))),
        (name("Seed"), ParamValue::F32(num(7.0))),
        (name("Seed"), ParamValue::U32(8)),
    ];
    assert_eq!(apply(start, &list), settings(1.0, 6.0, 3.0, 7.0));
}

#[test]
fn bit_patterns_are_copied_exactly() {
    let start = settings(0.0, 0.0, 0.0, 0.0);
    let nan = Scalar::from_bits(0x7FC0_1234);
    let minus_zero = Scalar::from_bits(0x8000_0000);
    let list = [(name("Strength"), ParamValue::F32(nan)), (name("C"), ParamValue::F32(minus_zero))];
    let out = apply(start, &list);
    assert_eq!(out.strength.to_bits(), 0x7FC0_1234);
    assert_eq!(out.c.to_bits(), 0x8000_0000);
    assert_eq!(out.b.to_bits(), 0);
}

#[test]
fn updating_again_with_the_same_list_changes_nothing() {
    let start = settings(1.0, 2.0, 3.0, 4.0);
    let list = [
        (name("Strength"), ParamValue::F32(num(0.5))),
        (name("C"), ParamValue::U32(1)),
        (name("Seed"), ParamValue::F32(num(-3.0))),
    ];
    let once = apply(start, &list);
    assert_eq!(once, settings(0.5, 2.0, 3.0, -3.0));
    assert_eq!(apply(once, &list), once);
}

#[test]
fn two_updates_equal_one_with_the_joined_list() {
    let start = settings(1.0, 2.0, 3.0, 4.0);
    let first = vec![
        (name("Strength"), ParamValue::F32(num(5.0))),
        (name("B"), ParamValue::F32(num(6.0))),
    ];
    let second = vec![
        (name("B"), ParamValue::F32(num(7.0))),
        (name("C"), ParamValue::F32(num(8.0))),
    ];
    let mut joined = first.clone();
    joined.extend(second.clone());
    let stepwise = apply(apply(start, &first), &second);
    assert_eq!(stepwise, apply(start, &joined));
    assert_eq!(stepwise, settings(5.0, 7.0, 8.0, 4.0));
}
