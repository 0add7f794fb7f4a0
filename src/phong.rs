//! Case analysis of the normalized Phong lobe.
use vstd::prelude::*;

verus! {

/// Which value of `cos_alpha = dot(reflect(input, normal), output)` enters
/// the lobe `cos_alpha^n`.
#[derive(PartialEq, Eq, Structural, Clone, Copy, Debug)]
pub enum LobeCosine {
    /// The cosine as computed.
    AsComputed,
    /// Zero, in place of a negative cosine.
    Zero,
}

/// What `eval` of the Phong material returns.
#[derive(PartialEq, Eq, Structural, Clone, Copy, Debug)]
pub enum PhongValue {
    /// The zero color: the continuation points below the surface.
    Zero,
    /// `reflectance * (n + 2) / (2 pi) * c^n`, with `c` as given.
    Lobe(LobeCosine),
}

/// The cosine clamped at zero: `max(0, cos_alpha)`. `cos_alpha_negative` is
/// `cos_alpha < 0`. The sampler's pdf `(n + 1) / (2 pi) * c^n` uses it too.
pub fn clamp_lobe_cosine(cos_alpha_negative: bool) -> (r: LobeCosine)
    ensures
        r == (if cos_alpha_negative {
            LobeCosine::Zero
        } else {
            LobeCosine::AsComputed
        }),
{
    if cos_alpha_negative {
        LobeCosine::Zero
    } else {
        LobeCosine::AsComputed
    }
}

/// The case of `eval`. `output_below_horizon` is `dot(normal, output) < 0`:
/// a hard cutoff to zero, not a falloff.
pub fn eval_case(output_below_horizon: bool, cos_alpha_negative: bool) -> (r: PhongValue)
    ensures
        output_below_horizon ==> r == PhongValue::Zero,
        !output_below_horizon ==> r == PhongValue::Lobe(
            if cos_alpha_negative {
                LobeCosine::Zero
            } else {
                LobeCosine::AsComputed
            },
        ),
{
    if output_below_horizon {
        PhongValue::Zero
    } else {
        PhongValue::Lobe(clamp_lobe_cosine(cos_alpha_negative))
    }
}

} // verus!
