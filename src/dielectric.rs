//! Decisions of the ideal dielectric (glass) sampler.
//!
//! The sampler alternates arithmetic on directions with decisions. The
//! arithmetic (dot products, Snell's law, Fresnel coefficients) is done by the
//! caller; each decision here takes the sign tests it needs as booleans and
//! says, exactly, which quantity the caller has to use next.
use vstd::prelude::*;

verus! {

/// Which side of the surface the working normal lies on.
#[derive(PartialEq, Eq, Structural, Clone, Copy, Debug)]
pub enum WorkingNormal {
    /// The geometric normal as given.
    AsGiven,
    /// The negated geometric normal.
    Negated,
}

/// The relative index of refraction `n` used in Snell's law, and squared as
/// the radiance factor of the transmitted ray.
#[derive(PartialEq, Eq, Structural, Clone, Copy, Debug)]
pub enum RelativeIndex {
    /// `1 / ior`: the ray enters the medium from vacuum.
    VacuumOverMedium,
    /// `ior / 1`: the ray leaves the medium into vacuum.
    MediumOverVacuum,
}

/// How the sampler orients itself at the hit point.
#[derive(PartialEq, Eq, Structural, Clone, Copy, Debug)]
pub struct Orientation {
    pub working_normal: WorkingNormal,
    /// The ray travels from outside into the object.
    pub into: bool,
    /// The ratio used both for Snell's law and for the radiance factor.
    pub index: RelativeIndex,
}

/// The direction a glass sample leaves along.
#[derive(PartialEq, Eq, Structural, Clone, Copy, Debug)]
pub enum Lobe {
    /// `reflect(input, N)` for the working normal `N`.
    Mirror,
    /// The Snell refraction of `input` through the working normal.
    Refracted,
}

/// A factor with which the delta bookkeeping constant, or the value of
/// `eval`, is multiplied.
#[derive(PartialEq, Eq, Structural, Clone, Copy, Debug)]
pub enum Weight {
    /// The factor one.
    One,
    /// The Fresnel reflectance `Fr`.
    Fresnel,
    /// `1 - Fr`.
    OneMinusFresnel,
    /// The transmittance `Ft = (1 - Fr) * n^2`.
    Transmittance,
}

/// What a glass sample reports: the direction it leaves along, its pdf as
/// `DELTA * pdf_weight`, and its BRDF value as
/// `brdf_weight * eval(input, normal, d)` where `d` is the direction of lobe
/// `brdf_lobe`.
#[derive(PartialEq, Eq, Structural, Clone, Copy, Debug)]
pub struct GlassSample {
    pub direction: Lobe,
    pub pdf_weight: Weight,
    pub brdf_weight: Weight,
    pub brdf_lobe: Lobe,
}

/// Where the sampler stands once the Snell discriminant `cos2t` is known.
#[derive(PartialEq, Eq, Structural, Clone, Copy, Debug)]
pub enum GlassStep {
    /// The sample is complete; no random number is drawn.
    Finished(GlassSample),
    /// One uniform number in `[0, 1)` must be drawn and compared with `Fr`.
    DrawRoulette,
}

/// The sample of total internal reflection: a deterministic mirror bounce
/// whose pdf is the bare delta constant.
pub open spec fn total_internal_sample() -> GlassSample {
    GlassSample {
        direction: Lobe::Mirror,
        pdf_weight: Weight::One,
        brdf_weight: Weight::One,
        brdf_lobe: Lobe::Mirror,
    }
}

/// The sample taken when the roulette picks reflection.
pub open spec fn fresnel_reflection_sample() -> GlassSample {
    GlassSample {
        direction: Lobe::Mirror,
        pdf_weight: Weight::Fresnel,
        brdf_weight: Weight::Fresnel,
        brdf_lobe: Lobe::Mirror,
    }
}

/// The sample taken when the roulette picks refraction. Its BRDF value is
/// evaluated at the mirror direction: `eval` of glass only supplies the
/// cosine that the delta cancels against, and that cosine is taken there.
pub open spec fn fresnel_refraction_sample() -> GlassSample {
    GlassSample {
        direction: Lobe::Refracted,
        pdf_weight: Weight::OneMinusFresnel,
        brdf_weight: Weight::Transmittance,
        brdf_lobe: Lobe::Mirror,
    }
}

/// The probability with which the roulette picks a lobe.
pub open spec fn roulette_probability(lobe: Lobe) -> Weight {
    match lobe {
        Lobe::Mirror => Weight::Fresnel,
        Lobe::Refracted => Weight::OneMinusFresnel,
    }
}

/// Orients the sampler. `input_below_normal` is `dot(normal, input) < 0`:
/// the incoming direction lies against the geometric normal, so the ray hits
/// the outside of the surface.
pub fn orient(input_below_normal: bool) -> (r: Orientation)
    ensures
        r.working_normal == (if input_below_normal {
            WorkingNormal::AsGiven
        } else {
            WorkingNormal::Negated
        }),
        r.into == input_below_normal,
        r.index == (if input_below_normal {
            RelativeIndex::VacuumOverMedium
        } else {
            RelativeIndex::MediumOverVacuum
        }),
{
    if input_below_normal {
        Orientation {
            working_normal: WorkingNormal::AsGiven,
            into: true,
            index: RelativeIndex::VacuumOverMedium,
        }
    } else {
        Orientation {
            working_normal: WorkingNormal::Negated,
            into: false,
            index: RelativeIndex::MediumOverVacuum,
        }
    }
}

/// The step after Snell's law. `discriminant_negative` is `cos2t < 0`, where
/// `cos2t = 1 - n^2 (1 - cos_i^2)`: then no refracted ray exists and the
/// light is reflected whole.
pub fn after_discriminant(discriminant_negative: bool) -> (r: GlassStep)
    ensures
        discriminant_negative ==> r == GlassStep::Finished(total_internal_sample()),
        !discriminant_negative ==> r == GlassStep::DrawRoulette,
{
    if discriminant_negative {
        GlassStep::Finished(
            GlassSample {
                direction: Lobe::Mirror,
                pdf_weight: Weight::One,
                brdf_weight: Weight::One,
                brdf_lobe: Lobe::Mirror,
            },
        )
    } else {
        GlassStep::DrawRoulette
    }
}

/// The Russian roulette between reflection and refraction.
/// `draw_below_fresnel` is `u < Fr` for the drawn uniform number `u`.
pub fn after_roulette(draw_below_fresnel: bool) -> (r: GlassSample)
    ensures
        draw_below_fresnel ==> r == fresnel_reflection_sample(),
        !draw_below_fresnel ==> r == fresnel_refraction_sample(),
{
    if draw_below_fresnel {
        GlassSample {
            direction: Lobe::Mirror,
            pdf_weight: Weight::Fresnel,
            brdf_weight: Weight::Fresnel,
            brdf_lobe: Lobe::Mirror,
        }
    } else {
        GlassSample {
            direction: Lobe::Refracted,
            pdf_weight: Weight::OneMinusFresnel,
            brdf_weight: Weight::Transmittance,
            brdf_lobe: Lobe::Mirror,
        }
    }
}

/// Each branch of the roulette reports as pdf weight the probability with
/// which that branch is picked: `Fr` for the mirror, `1 - Fr` for the
/// refraction.
pub proof fn lemma_roulette_pdf_is_branch_probability(draw_below_fresnel: bool)
    ensures
        ({
            let s = if draw_below_fresnel {
                fresnel_reflection_sample()
            } else {
                fresnel_refraction_sample()
            };
            s.pdf_weight == roulette_probability(s.direction)
        }),
{
}

/// Whatever the roulette picks, the BRDF value is evaluated at the mirror
/// direction, and total internal reflection leaves along the mirror
/// direction with the bare delta as pdf.
pub proof fn lemma_brdf_always_at_mirror(draw_below_fresnel: bool)
    ensures
        total_internal_sample().direction == Lobe::Mirror,
        total_internal_sample().pdf_weight == Weight::One,
        total_internal_sample().brdf_lobe == Lobe::Mirror,
        (if draw_below_fresnel {
            fresnel_reflection_sample()
        } else {
            fresnel_refraction_sample()
        }).brdf_lobe == Lobe::Mirror,
{
}

} // verus!
