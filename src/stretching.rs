use vstd::prelude::*;
use crate::error::Error;
use vstd::string::StringExecFns;

verus! {

#[verifier::external_type_specification]
#[verifier::external_body]
pub struct ExArgon2<'key>(argon2::Argon2<'key>);

/// How hard the client stretches its password-derived secret.
#[derive(Debug, Clone, Copy, PartialEq, Eq, Structural)]
pub enum KeyStretchingFunctionConfig {
    /// Argon2id at one pass over 2^21 - 1 KiB on four lanes.
    Recommended,
    /// Argon2id at three passes over 64 MiB on four lanes.
    MemoryConstrained,
    /// Argon2id at the given passes, KiB of memory and lanes.
    Custom { iterations: u32, memory: u32, parallelism: u32 },
}

pub const RECOMMENDED_ITERATIONS: u32 = 1;
pub const RECOMMENDED_MEMORY: u32 = 2097151;
pub const RECOMMENDED_PARALLELISM: u32 = 4;
pub const CONSTRAINED_ITERATIONS: u32 = 3;
pub const CONSTRAINED_MEMORY: u32 = 65536;
pub const CONSTRAINED_PARALLELISM: u32 = 4;

/// Argon2 costs: passes, KiB of memory, lanes.
#[derive(Debug, Clone, Copy, PartialEq, Eq, Structural)]
pub struct StretchCosts {
    pub iterations: u32,
    pub memory: u32,
    pub parallelism: u32,
}

/// The costs that a configuration stands for; no configuration means the
/// recommended one.
pub open spec fn costs_of(config: Option<KeyStretchingFunctionConfig>) -> StretchCosts {
    match config {
        None | Some(KeyStretchingFunctionConfig::Recommended) => StretchCosts {
            iterations: RECOMMENDED_ITERATIONS,
            memory: RECOMMENDED_MEMORY,
            parallelism: RECOMMENDED_PARALLELISM,
        },
        Some(KeyStretchingFunctionConfig::MemoryConstrained) => StretchCosts {
            iterations: CONSTRAINED_ITERATIONS,
            memory: CONSTRAINED_MEMORY,
            parallelism: CONSTRAINED_PARALLELISM,
        },
        Some(KeyStretchingFunctionConfig::Custom { iterations, memory, parallelism }) => StretchCosts {
            iterations,
            memory,
            parallelism,
        },
    }
}

/// The combinations that Argon2 runs with: at least one pass, one to 2^24 - 1
/// lanes, and at least eight KiB of memory, eight per lane.
pub open spec fn argon2_accepts(c: StretchCosts) -> bool {
    &&& c.iterations >= 1
    &&& 1 <= c.parallelism <= 0xFFFFFF
    &&& c.memory >= 8
    &&& c.memory >= 8 * c.parallelism
}

/// The configuration can be used.
pub open spec fn config_valid(config: Option<KeyStretchingFunctionConfig>) -> bool {
    argon2_accepts(costs_of(config))
}

/// Relies on argon2's `Params::new` (what `ParamsBuilder::build` calls with no
/// output length): `Ok` exactly for the combinations above. Its check
/// `m_cost < p_cost * 8` overflows on more lanes, so those are left out.
#[verifier::external_body]
fn argon2_check(m_cost: u32, t_cost: u32, p_cost: u32) -> (r: Result<(), String>)
    requires
        p_cost <= 0x1FFF_FFFF,
    ensures
        r is Ok <==> argon2_accepts(StretchCosts { iterations: t_cost, memory: m_cost, parallelism: p_cost }),
{
    match argon2::Params::new(m_cost, t_cost, p_cost, None) {
        Ok(_) => Ok(()),
        Err(e) => Err(e.to_string()),
    }
}

impl KeyStretchingFunctionConfig {
    pub fn costs(config: Option<KeyStretchingFunctionConfig>) -> (r: StretchCosts)
        ensures
            r == costs_of(config),
    {
        match config {
            None | Some(KeyStretchingFunctionConfig::Recommended) => StretchCosts {
                iterations: RECOMMENDED_ITERATIONS,
                memory: RECOMMENDED_MEMORY,
                parallelism: RECOMMENDED_PARALLELISM,
            },
            Some(KeyStretchingFunctionConfig::MemoryConstrained) => StretchCosts {
                iterations: CONSTRAINED_ITERATIONS,
                memory: CONSTRAINED_MEMORY,
                parallelism: CONSTRAINED_PARALLELISM,
            },
            Some(KeyStretchingFunctionConfig::Custom { iterations, memory, parallelism }) => {
                StretchCosts { iterations, memory, parallelism }
            },
        }
    }
}

/// Costs below Argon2's minimum (no pass, no lane, too many lanes, or under
/// eight KiB of memory per lane) are never a usable configuration.
pub proof fn lemma_weak_costs_rejected(iterations: u32, memory: u32, parallelism: u32)
    requires
        iterations < 1 || parallelism < 1 || parallelism > 0xFFFFFF || memory < 8 || memory < 8 * parallelism,
    ensures
        !config_valid(Some(KeyStretchingFunctionConfig::Custom { iterations, memory, parallelism })),
{
}

/// An absent configuration stands for the recommended one.
pub proof fn lemma_absent_config_is_recommended()
    ensures
        costs_of(None) == costs_of(Some(KeyStretchingFunctionConfig::Recommended)),
        config_valid(None) && config_valid(Some(KeyStretchingFunctionConfig::Recommended)),
{
}

/// The context of every refused combination.
pub open spec fn refused_costs(e: Error) -> bool {
    e is Configuration && e.context_view() == "Invalid keyStretching (argon2id) combination"@
}

/// Checks the costs against Argon2id's limits and gives back exactly the costs
/// asked for, which the engine then hashes with; a configuration error where
/// Argon2 refuses them.
pub fn build_argon2_ksf(t_cost: u32, m_cost: u32, parallelism: u32) -> (r: Result<StretchCosts, Error>)
    ensures
        ({
            let c = StretchCosts { iterations: t_cost, memory: m_cost, parallelism };
            match r {
                Ok(k) => argon2_accepts(c) && k == c,
                Err(e) => !argon2_accepts(c) && refused_costs(e),
            }
        }),
{
    if parallelism > 0xFFFFFF {
        return Err(Error::Configuration {
            context: "Invalid keyStretching (argon2id) combination",
            detail: String::from_str("too many lanes for argon2id"),
        });
    }
    match argon2_check(m_cost, t_cost, parallelism) {
        Ok(()) => Ok(StretchCosts { iterations: t_cost, memory: m_cost, parallelism }),
        Err(detail) => Err(Error::Configuration { context: "Invalid keyStretching (argon2id) combination", detail }),
    }
}

/// The outcome of resolving a configuration: its costs, checked before any
/// protocol work, or the configuration error.
pub open spec fn stretch_outcome(config: Option<KeyStretchingFunctionConfig>, r: Result<StretchCosts, Error>) -> bool {
    match r {
        Ok(k) => config_valid(config) && k == costs_of(config),
        Err(e) => !config_valid(config) && refused_costs(e),
    }
}

/// The costs of a configuration, checked at the point of use; no
/// configuration means the recommended one.
pub fn get_custom_ksf(ksf_config: Option<KeyStretchingFunctionConfig>) -> (r: Result<StretchCosts, Error>)
    ensures
        stretch_outcome(ksf_config, r),
{
    let c = KeyStretchingFunctionConfig::costs(ksf_config);
    build_argon2_ksf(c.iterations, c.memory, c.parallelism)
}

} // verus!
