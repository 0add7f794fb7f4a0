use shading::dielectric::{
    after_discriminant, after_roulette, orient, GlassSample, GlassStep, Lobe, RelativeIndex,
    Weight, WorkingNormal,
};
use shading::kind::{BasisAxis, DirectionSampler, EvalForm, MaterialKind, PdfForm};
use shading::phong::{clamp_lobe_cosine, eval_case, LobeCosine, PhongValue};

fn dot(a: [f64; 3], b: [f64; 3]) -> f64 {
    a[0] * b[0] + a[1] * b[1] + a[2] * b[2]
}

#[test]
fn only_lightsource_refuses_shading() {
    assert!(MaterialKind::LambertianSimple.scatters());
    assert!(MaterialKind::Lambertian.scatters());
    assert!(MaterialKind::Phong.scatters());
    assert!(MaterialKind::Glass.scatters());
    assert!(!MaterialKind::Lightsource.scatters());
}

#[test]
fn emission_and_reflectance_per_variant() {
    assert!(MaterialKind::Lightsource.emits());
    assert!(!MaterialKind::Lightsource.reflects());
    assert!(!MaterialKind::Glass.emits());
    assert!(MaterialKind::Phong.reflects());
}

#[test]
fn diffuse_eval_is_reflectance_over_pi() {
    assert_eq!(MaterialKind::LambertianSimple.eval_form(), EvalForm::ReflectanceOverPi);
    assert_eq!(MaterialKind::Lambertian.eval_form(), EvalForm::ReflectanceOverPi);
    assert_eq!(MaterialKind::Phong.eval_form(), EvalForm::NormalizedPhongLobe);
    assert_eq!(MaterialKind::Glass.eval_form(), EvalForm::ReflectanceOverCosine);
}

#[test]
fn sampling_plans() {
    let p = MaterialKind::LambertianSimple.sampling_plan();
    assert_eq!(p.sampler, DirectionSampler::UniformHemisphere);
    assert_eq!(p.basis, BasisAxis::Normal);
    assert_eq!(p.pdf, PdfForm::InverseTwoPi);
    let p = MaterialKind::Lambertian.sampling_plan();
    assert_eq!(p.sampler, DirectionSampler::CosineHemisphere);
    assert_eq!(p.pdf, PdfForm::CosineOverPi);
    let p = MaterialKind::Phong.sampling_plan();
    assert_eq!(p.sampler, DirectionSampler::PhongLobe);
    assert_eq!(p.basis, BasisAxis::MirrorDirection);
    assert_eq!(p.pdf, PdfForm::PhongLobe);
    let p = MaterialKind::Glass.sampling_plan();
    assert_eq!(p.sampler, DirectionSampler::DielectricRoulette);
    assert_eq!(p.basis, BasisAxis::Unused);
    assert_eq!(p.pdf, PdfForm::Delta);
}

#[test]
fn phong_zero_below_horizon() {
    assert_eq!(eval_case(true, false), PhongValue::Zero);
    assert_eq!(eval_case(true, true), PhongValue::Zero);
}

#[test]
fn phong_lobe_cosine_clamped() {
    assert_eq!(eval_case(false, true), PhongValue::Lobe(LobeCosine::Zero));
    assert_eq!(eval_case(false, false), PhongValue::Lobe(LobeCosine::AsComputed));
    assert_eq!(clamp_lobe_cosine(true), LobeCosine::Zero);
    assert_eq!(clamp_lobe_cosine(false), LobeCosine::AsComputed);
}

#[test]
fn phong_output_along_normal_takes_full_lobe() {
    // reflection of input about normal is the normal itself, output == normal
    let normal = [0.0, 0.0, 1.0];
    let output = normal;
    let reflection = normal;
    let v = eval_case(dot(normal, output) < 0.0, dot(reflection, output) < 0.0);
    assert_eq!(v, PhongValue::Lobe(LobeCosine::AsComputed));
}

#[test]
fn glass_orientation_outside_and_inside() {
    let o = orient(true);
    assert_eq!(o.working_normal, WorkingNormal::AsGiven);
    assert!(o.into);
    assert_eq!(o.index, RelativeIndex::VacuumOverMedium);
    let o = orient(false);
    assert_eq!(o.working_normal, WorkingNormal::Negated);
    assert!(!o.into);
    assert_eq!(o.index, RelativeIndex::MediumOverVacuum);
}

#[test]
fn glass_total_internal_reflection_is_mirror_delta() {
    // leaving glass of ior 1.5 at a grazing angle: cos2t < 0
    let ior: f64 = 1.5;
    let normal = [0.0, 0.0, 1.0];
    let input = [0.0, 0.995, 0.0998749];
    let o = orient(dot(normal, input) < 0.0);
    assert!(!o.into);
    let n = ior;
    let cos_i = -dot(input, normal);
    let cos2t = 1.0 - n * n * (1.0 - cos_i * cos_i);
    let step = after_discriminant(cos2t < 0.0);
    assert_eq!(
        step,
        GlassStep::Finished(GlassSample {
            direction: Lobe::Mirror,
            pdf_weight: Weight::One,
            brdf_weight: Weight::One,
            brdf_lobe: Lobe::Mirror,
        })
    );
}

#[test]
fn glass_normal_incidence_draws_roulette() {
    let ior: f64 = 1.5;
    let normal = [0.0, 0.0, 1.0];
    let input = [0.0, 0.0, -1.0];
    let o = orient(dot(normal, input) < 0.0);
    assert!(o.into);
    let n = 1.0 / ior;
    let cos_i = dot(input, normal);
    let cos2t = 1.0 - n * n * (1.0 - cos_i * cos_i);
    assert_eq!(after_discriminant(cos2t < 0.0), GlassStep::DrawRoulette);
    // at normal incidence the Fresnel reflectance is ((ior - 1) / (ior + 1))^2 = 0.04
    let fr = ((ior - 1.0) / (ior + 1.0)).powi(2);
    assert!((fr - 0.04).abs() < 1e-12);
    assert_eq!(after_roulette(0.01 < fr).direction, Lobe::Mirror);
    assert_eq!(after_roulette(0.5 < fr).direction, Lobe::Refracted);
}

#[test]
fn glass_roulette_branches() {
    let r = after_roulette(true);
    assert_eq!(r.direction, Lobe::Mirror);
    assert_eq!(r.pdf_weight, Weight::Fresnel);
    assert_eq!(r.brdf_weight, Weight::Fresnel);
    assert_eq!(r.brdf_lobe, Lobe::Mirror);
    let t = after_roulette(false);
    assert_eq!(t.direction, Lobe::Refracted);
    assert_eq!(t.pdf_weight, Weight::OneMinusFresnel);
    assert_eq!(t.brdf_weight, Weight::Transmittance);
    assert_eq!(t.brdf_lobe, Lobe::Mirror);
}
