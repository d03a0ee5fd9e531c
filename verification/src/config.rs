//! What a batch is asked to produce, and the rule that derives, problem by
//! problem, whether subtraction is allowed.

use vstd::prelude::*;

verus! {

/// How a batch chooses between addition-only problems and problems that mix
/// addition and subtraction.
#[derive(Clone, Copy, Debug, PartialEq, Eq, Structural)]
pub enum GenType {
    /// Every problem is addition only.
    AdditionOnly,
    /// Every problem follows the configured subtraction setting.
    ConfiguredMix,
    /// Problems at even positions are addition only, the others follow the
    /// configured subtraction setting.
    Alternating,
}

impl GenType {
    /// The policy that a numeric code selects: 0 is addition only, 2 is
    /// alternating, every other code follows the configuration.
    pub open spec fn of_code(code: u32) -> GenType {
        if code == 0 {
            GenType::AdditionOnly
        } else if code == 2 {
            GenType::Alternating
        } else {
            GenType::ConfiguredMix
        }
    }

    /// Decodes the numeric code of a policy.
    pub fn from_code(code: u32) -> (policy: GenType)
        ensures
            policy == GenType::of_code(code),
    {
        if code == 0 {
            GenType::AdditionOnly
        } else if code == 2 {
            GenType::Alternating
        } else {
            GenType::ConfiguredMix
        }
    }

    /// The canonical numeric code of a policy.
    pub fn code(self) -> (code: u32)
        ensures
            GenType::of_code(code) == self,
            code <= 2,
    {
        match self {
            GenType::AdditionOnly => 0,
            GenType::ConfiguredMix => 1,
            GenType::Alternating => 2,
        }
    }
}

/// The settings handed to the problem generator.
///
/// `subtractions` is zero when subtraction is disabled; any other value
/// enables it.
#[derive(Clone, Copy, Debug, PartialEq, Eq, Structural)]
pub struct ProblemConfig {
    pub min_digit: u32,
    pub max_digit: u32,
    pub length: u32,
    pub subtractions: u32,
}

/// An engine parameter, carried as the bit pattern of the 64-bit IEEE 754
/// number that the speech engine takes. The library never computes with it.
#[derive(Clone, Copy, Debug, PartialEq, Eq, Structural)]
pub struct Scale {
    pub bits: u64,
}

/// The batch part of a generation request.
#[derive(Clone, Debug)]
pub struct GenConfig {
    /// How many problems, and so how many files, the batch produces.
    pub count_problems: u32,
    /// Numeric code of the generation policy, see [`GenType::of_code`].
    pub gen_type: u32,
    /// Speaking speed of the problem statement.
    pub speed_scale: Scale,
    /// Directory under which the batch directory is created.
    pub output_path: String,
}

impl GenConfig {
    /// The generation policy of the request.
    pub fn policy(&self) -> (policy: GenType)
        ensures
            policy == GenType::of_code(self.gen_type),
    {
        GenType::from_code(self.gen_type)
    }
}

/// Whether a subtraction setting enables subtraction.
pub open spec fn subtraction_enabled(subtractions: u32) -> bool {
    subtractions != 0
}

/// The subtraction setting in force for the problem at position `index`
/// (counted from zero) of a batch.
pub open spec fn effective_subtractions_of(policy: GenType, configured: u32, index: u32) -> u32 {
    match policy {
        GenType::AdditionOnly => 0,
        GenType::ConfiguredMix => configured,
        GenType::Alternating => if index % 2 == 0 {
            0
        } else {
            configured
        },
    }
}

/// The generator settings in force for the problem at position `index`:
/// the configured ones, with the subtraction setting replaced by the
/// effective one.
pub open spec fn effective_config_of(policy: GenType, config: ProblemConfig, index: u32)
    -> ProblemConfig {
    ProblemConfig {
        subtractions: effective_subtractions_of(policy, config.subtractions, index),
        ..config
    }
}

/// Computes the subtraction setting for the problem at position `index`.
pub fn effective_subtractions(policy: GenType, configured: u32, index: u32) -> (effective: u32)
    ensures
        effective == effective_subtractions_of(policy, configured, index),
{
    match policy {
        GenType::AdditionOnly => 0,
        GenType::ConfiguredMix => configured,
        GenType::Alternating => if index % 2 == 0 {
            0
        } else {
            configured
        },
    }
}

/// Computes the generator settings for the problem at position `index`.
pub fn effective_config(policy: GenType, config: ProblemConfig, index: u32) -> (effective:
    ProblemConfig)
    ensures
        effective == effective_config_of(policy, config, index),
{
    ProblemConfig {
        min_digit: config.min_digit,
        max_digit: config.max_digit,
        length: config.length,
        subtractions: effective_subtractions(policy, config.subtractions, index),
    }
}

/// Under the addition-only policy subtraction is disabled for every problem,
/// whatever the configuration says.
pub proof fn law_addition_only_disables(configured: u32, index: u32)
    ensures
        !subtraction_enabled(effective_subtractions_of(GenType::AdditionOnly, configured, index)),
{
}

/// Under the configured-mix policy the effective setting is the configured
/// one, for every problem.
pub proof fn law_configured_mix_follows(configured: u32, index: u32)
    ensures
        effective_subtractions_of(GenType::ConfiguredMix, configured, index) == configured,
        subtraction_enabled(effective_subtractions_of(GenType::ConfiguredMix, configured, index))
            == subtraction_enabled(configured),
{
}

/// Under the alternating policy, with subtraction configured, subtraction is
/// disabled exactly for the problems at even positions.
pub proof fn law_alternating_parity(configured: u32, index: u32)
    requires
        subtraction_enabled(configured),
    ensures
        !subtraction_enabled(effective_subtractions_of(GenType::Alternating, configured, index))
            <==> index % 2 == 0,
{
}

/// Under the alternating policy even positions are addition only and odd
/// positions follow the configuration, whatever it says.
pub proof fn law_alternating_positions(configured: u32, index: u32)
    ensures
        index % 2 == 0 ==> effective_subtractions_of(GenType::Alternating, configured, index)
            == 0,
        index % 2 == 1 ==> effective_subtractions_of(GenType::Alternating, configured, index)
            == configured,
{
}

} // verus!
