//! The material variants and what each one does when it is shaded.
//!
//! Every variant has an emission and a reflectance; every variant but the
//! emissive one evaluates a BRDF and samples a continuation direction. The
//! emissive variant only injects light: shading it is a contract violation,
//! which the `requires` of the functions below rule out.
use vstd::prelude::*;

verus! {

/// The five material variants.
#[derive(PartialEq, Eq, Structural, Clone, Copy, Debug)]
pub enum MaterialKind {
    /// Perfect diffuse reflector, sampled uniformly over the hemisphere.
    LambertianSimple,
    /// Perfect diffuse reflector, sampled with cosine weighting.
    Lambertian,
    /// Normalized Phong glossy lobe around the mirror direction.
    Phong,
    /// Ideal dielectric: delta reflection and refraction.
    Glass,
    /// Pure emitter.
    Lightsource,
}

/// The formula `eval(input, normal, output)` follows.
#[derive(PartialEq, Eq, Structural, Clone, Copy, Debug)]
pub enum EvalForm {
    /// `reflectance / pi`, whatever the directions.
    ReflectanceOverPi,
    /// Zero below the horizon, else
    /// `reflectance * (n + 2) / (2 pi) * max(0, dot(reflect(input, normal), output))^n`.
    NormalizedPhongLobe,
    /// `reflectance * DELTA / dot(normal, output)`: the cosine that the delta
    /// distribution cancels against.
    ReflectanceOverCosine,
}

/// The distribution a continuation direction is drawn from.
#[derive(PartialEq, Eq, Structural, Clone, Copy, Debug)]
pub enum DirectionSampler {
    /// Uniform over the hemisphere around the normal.
    UniformHemisphere,
    /// Cosine-weighted over the hemisphere around the normal.
    CosineHemisphere,
    /// `theta = acos(u2^(1/(n+1)))`, `phi = 2 pi u1` around the mirror direction.
    PhongLobe,
    /// Mirror or refraction, chosen by Fresnel-weighted Russian roulette.
    DielectricRoulette,
}

/// The axis of the orthonormal basis a sampler builds.
#[derive(PartialEq, Eq, Structural, Clone, Copy, Debug)]
pub enum BasisAxis {
    /// The surface normal.
    Normal,
    /// `reflect(input, normal)`.
    MirrorDirection,
    /// No basis is built.
    Unused,
}

/// The pdf a sample reports.
#[derive(PartialEq, Eq, Structural, Clone, Copy, Debug)]
pub enum PdfForm {
    /// `1 / (2 pi)`.
    InverseTwoPi,
    /// `dot(normal, output) / pi`, as computed, not clamped.
    CosineOverPi,
    /// `(n + 1) / (2 pi) * max(0, dot(reflect(input, normal), output))^n`.
    PhongLobe,
    /// The delta constant times a branch weight.
    Delta,
}

/// How a variant samples.
#[derive(PartialEq, Eq, Structural, Clone, Copy, Debug)]
pub struct SamplingPlan {
    pub sampler: DirectionSampler,
    pub basis: BasisAxis,
    pub pdf: PdfForm,
}

impl MaterialKind {
    /// The variant may be evaluated and sampled.
    pub open spec fn scatters_spec(self) -> bool {
        self != MaterialKind::Lightsource
    }

    /// The variant's emission may be non-zero.
    pub open spec fn emits_spec(self) -> bool {
        self == MaterialKind::Lightsource
    }

    /// The variant's reflectance may be non-zero.
    pub open spec fn reflects_spec(self) -> bool {
        self != MaterialKind::Lightsource
    }

    pub open spec fn eval_form_spec(self) -> EvalForm
        recommends
            self.scatters_spec(),
    {
        match self {
            MaterialKind::Phong => EvalForm::NormalizedPhongLobe,
            MaterialKind::Glass => EvalForm::ReflectanceOverCosine,
            _ => EvalForm::ReflectanceOverPi,
        }
    }

    pub open spec fn sampling_plan_spec(self) -> SamplingPlan
        recommends
            self.scatters_spec(),
    {
        match self {
            MaterialKind::LambertianSimple => SamplingPlan {
                sampler: DirectionSampler::UniformHemisphere,
                basis: BasisAxis::Normal,
                pdf: PdfForm::InverseTwoPi,
            },
            MaterialKind::Lambertian => SamplingPlan {
                sampler: DirectionSampler::CosineHemisphere,
                basis: BasisAxis::Normal,
                pdf: PdfForm::CosineOverPi,
            },
            MaterialKind::Phong => SamplingPlan {
                sampler: DirectionSampler::PhongLobe,
                basis: BasisAxis::MirrorDirection,
                pdf: PdfForm::PhongLobe,
            },
            _ => SamplingPlan {
                sampler: DirectionSampler::DielectricRoulette,
                basis: BasisAxis::Unused,
                pdf: PdfForm::Delta,
            },
        }
    }

    /// Whether `eval` and `sample` are legal on this variant.
    pub fn scatters(&self) -> (r: bool)
        ensures
            r == self.scatters_spec(),
    {
        match self {
            MaterialKind::Lightsource => false,
            _ => true,
        }
    }

    /// Whether the constructor of this variant takes the emission (the
    /// others hold a zero emission).
    pub fn emits(&self) -> (r: bool)
        ensures
            r == self.emits_spec(),
    {
        match self {
            MaterialKind::Lightsource => true,
            _ => false,
        }
    }

    /// Whether the constructor of this variant takes the reflectance (the
    /// emissive one holds a zero reflectance).
    pub fn reflects(&self) -> (r: bool)
        ensures
            r == self.reflects_spec(),
    {
        match self {
            MaterialKind::Lightsource => false,
            _ => true,
        }
    }

    /// The formula of `eval` for this variant.
    pub fn eval_form(&self) -> (r: EvalForm)
        requires
            self.scatters_spec(),
        ensures
            r == self.eval_form_spec(),
    {
        match self {
            MaterialKind::Phong => EvalForm::NormalizedPhongLobe,
            MaterialKind::Glass => EvalForm::ReflectanceOverCosine,
            _ => EvalForm::ReflectanceOverPi,
        }
    }

    /// How `sample` draws its direction and which pdf it reports.
    pub fn sampling_plan(&self) -> (r: SamplingPlan)
        requires
            self.scatters_spec(),
        ensures
            r == self.sampling_plan_spec(),
    {
        match self {
            MaterialKind::LambertianSimple => SamplingPlan {
                sampler: DirectionSampler::UniformHemisphere,
                basis: BasisAxis::Normal,
                pdf: PdfForm::InverseTwoPi,
            },
            MaterialKind::Lambertian => SamplingPlan {
                sampler: DirectionSampler::CosineHemisphere,
                basis: BasisAxis::Normal,
                pdf: PdfForm::CosineOverPi,
            },
            MaterialKind::Phong => SamplingPlan {
                sampler: DirectionSampler::PhongLobe,
                basis: BasisAxis::MirrorDirection,
                pdf: PdfForm::PhongLobe,
            },
            _ => SamplingPlan {
                sampler: DirectionSampler::DielectricRoulette,
                basis: BasisAxis::Unused,
                pdf: PdfForm::Delta,
            },
        }
    }
}

/// Both diffuse variants evaluate by the direction-free formula
/// `reflectance / pi`, whatever `input`, `normal` and `output` are.
pub proof fn lemma_diffuse_eval_ignores_directions(k: MaterialKind)
    requires
        k == MaterialKind::LambertianSimple || k == MaterialKind::Lambertian,
    ensures
        k.scatters_spec(),
        k.eval_form_spec() == EvalForm::ReflectanceOverPi,
{
}

/// The simple diffuse variant samples uniformly over the hemisphere around
/// the normal and reports the constant pdf `1 / (2 pi)` on every call.
pub proof fn lemma_uniform_diffuse_pdf_is_constant()
    ensures
        MaterialKind::LambertianSimple.sampling_plan_spec() == (SamplingPlan {
            sampler: DirectionSampler::UniformHemisphere,
            basis: BasisAxis::Normal,
            pdf: PdfForm::InverseTwoPi,
        }),
{
}

/// The cosine-weighted diffuse variant reports as pdf
/// `dot(normal, result) / pi` of the direction it drew.
pub proof fn lemma_cosine_diffuse_pdf()
    ensures
        MaterialKind::Lambertian.sampling_plan_spec() == (SamplingPlan {
            sampler: DirectionSampler::CosineHemisphere,
            basis: BasisAxis::Normal,
            pdf: PdfForm::CosineOverPi,
        }),
{
}

/// Exactly the emissive variant may not be shaded; it is also the only one
/// that emits, and the only one without reflectance.
pub proof fn lemma_only_emitters_refuse_shading(k: MaterialKind)
    ensures
        !k.scatters_spec() <==> k.emits_spec(),
        k.reflects_spec() <==> k.scatters_spec(),
{
}

} // verus!
