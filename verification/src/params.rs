//! The parameters of one render of the double-pendulum chaos map, and the
//! rule that decides whether a set of them can be worked with.
use vstd::prelude::*;
use crate::binary64::{lemma_value_of_zero_bits, lemma_zero_magnitude, Binary64};

verus! {

/// Why a set of parameters was turned down.
#[derive(Clone, Copy, Debug, PartialEq, Eq, Structural)]
pub enum ConfigError {
    /// The initial separation of the two trajectories is not a number above
    /// zero, so no separation could be measured against it.
    NonPositivePerturbation,
    /// The number of steps between two renormalisations is zero.
    ZeroRenormInterval,
    /// No integration step is allowed at all.
    ZeroSteps,
}

impl ConfigError {
    /// The sentence that `describe` returns for this error.
    pub open spec fn text(self) -> Seq<char> {
        match self {
            ConfigError::NonPositivePerturbation => "delta0 must be a number greater than zero"@,
            ConfigError::ZeroRenormInterval => "renorm_every must be at least one step"@,
            ConfigError::ZeroSteps => "max_steps must be at least one step"@,
        }
    }

    /// A sentence for the user that names the offending parameter.
    pub fn describe(&self) -> (s: &'static str)
        ensures
            s@ == self.text(),
    {
        match self {
            ConfigError::NonPositivePerturbation => "delta0 must be a number greater than zero",
            ConfigError::ZeroRenormInterval => "renorm_every must be at least one step",
            ConfigError::ZeroSteps => "max_steps must be at least one step",
        }
    }
}

/// The parameters of the double-pendulum chaos map. They are fixed for a
/// render and read by every pixel's evaluation.
#[derive(Clone, Copy, Debug, PartialEq, Eq, Structural)]
pub struct DoublePendulum {
    /// The largest number of integration steps taken for one pixel.
    pub max_steps: usize,
    /// The timestep of one integration step.
    pub dt: Binary64,
    /// The number of steps between two renormalisations of the separation.
    pub renorm_every: usize,
    /// The separation that the perturbed trajectory starts with and is
    /// brought back to at each renormalisation.
    pub delta0: Binary64,
    /// The gravitational acceleration.
    pub g: Binary64,
    /// The exponent that maps to the top of the colour gradient.
    pub lyap_scale: Binary64,
}

impl DoublePendulum {
    /// The parameters can be worked with: the initial separation is a number
    /// above zero, and both step counts are at least one.
    pub open spec fn valid(self) -> bool {
        &&& Binary64 { bits: 0 }.below(self.delta0)
        &&& self.renorm_every > 0
        &&& self.max_steps > 0
    }

    /// The verdict on the parameters. Of several faults the one reported is
    /// that of the separation, before that of the interval, before that of
    /// the step count.
    pub open spec fn verdict(self) -> Result<(), ConfigError> {
        if !(Binary64 { bits: 0 }.below(self.delta0)) {
            Err(ConfigError::NonPositivePerturbation)
        } else if self.renorm_every == 0 {
            Err(ConfigError::ZeroRenormInterval)
        } else if self.max_steps == 0 {
            Err(ConfigError::ZeroSteps)
        } else {
            Ok(())
        }
    }

    /// The step with index `index`, counted from 0, is followed by a
    /// measurement of the separation: the index is a multiple of the interval
    /// and not the first step.
    pub open spec fn measured_after(self, index: nat) -> bool
        recommends
            self.renorm_every > 0,
    {
        index > 0 && index % (self.renorm_every as nat) == 0
    }

    /// Checks the parameters and says which of them is at fault.
    pub fn validate(&self) -> (r: Result<(), ConfigError>)
        ensures
            r == self.verdict(),
            r.is_ok() == self.valid(),
    {
        if !self.delta0.gt(Binary64::zero()) {
            Err(ConfigError::NonPositivePerturbation)
        } else if self.renorm_every == 0 {
            Err(ConfigError::ZeroRenormInterval)
        } else if self.max_steps == 0 {
            Err(ConfigError::ZeroSteps)
        } else {
            Ok(())
        }
    }
}

/// Parameters whose initial separation is zero are turned down for that
/// reason, whatever the other parameters are, and so each time they are
/// checked.
pub proof fn lemma_zero_perturbation_rejected(params: DoublePendulum)
    requires
        !params.delta0.nan(),
        params.delta0.value() == 0,
    ensures
        params.verdict() == Err::<(), ConfigError>(ConfigError::NonPositivePerturbation),
        !params.valid(),
{
    lemma_value_of_zero_bits(Binary64 { bits: 0 });
}

/// The verdict depends on the three checked parameters alone: two sets that
/// agree in them get the same verdict.
pub proof fn lemma_verdict_repeats(a: DoublePendulum, b: DoublePendulum)
    requires
        a.delta0 == b.delta0,
        a.renorm_every == b.renorm_every,
        a.max_steps == b.max_steps,
    ensures
        a.verdict() == b.verdict(),
{
}

impl Default for DoublePendulum {
    /// 900 steps of 0.005 s, a renormalisation every 50 steps, an initial
    /// separation of 1e-8, standard gravity 9.81, and a gradient that ends
    /// at an exponent of 1.5.
    fn default() -> (p: DoublePendulum)
        ensures
            p.max_steps == 900,
            p.dt.bits == 0x3f74_7ae1_47ae_147b,
            p.renorm_every == 50,
            p.delta0.bits == 0x3e45_798e_e230_8c3a,
            p.g.bits == 0x4023_9eb8_51eb_851f,
            p.lyap_scale.bits == 0x3ff8_0000_0000_0000,
            p.valid(),
    {
        let p = DoublePendulum {
            max_steps: 900,
            dt: Binary64 { bits: 0x3f74_7ae1_47ae_147b },
            renorm_every: 50,
            delta0: Binary64 { bits: 0x3e45_798e_e230_8c3a },
            g: Binary64 { bits: 0x4023_9eb8_51eb_851f },
            lyap_scale: Binary64 { bits: 0x3ff8_0000_0000_0000 },
        };
        proof {
            lemma_zero_magnitude(p.delta0);
            lemma_value_of_zero_bits(Binary64 { bits: 0 });
        }
        p
    }
}

} // verus!
