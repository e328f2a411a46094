//! Engine configuration and its validation.
//!
//! The external actor supplies the configuration as plain fields; the two
//! string-valued options are validated here. An unknown option value fails
//! bootstrap with a descriptive error rather than silently falling back;
//! the one documented fallback is that an unspecified compilation strategy
//! means automatic selection, and an unspecified optimization level means
//! no optimization.

use vstd::prelude::*;
use crate::errors::Error;

verus! {

/// The engine configuration, as the external actor hands it over.
#[derive(Debug)]
pub struct Config {
    pub debug_info: bool,
    pub interruptable: bool,
    pub max_wasm_stack: usize,
    pub strategy: String,
    pub cranelift_opt_level: String,
}

/// The compilation strategy a configuration can name.
#[derive(Clone, Copy, Debug, PartialEq, Eq, Structural)]
pub enum StrategyChoice {
    Auto,
    Cranelift,
}

/// The optimization level a configuration can name.
#[derive(Clone, Copy, Debug, PartialEq, Eq, Structural)]
pub enum OptLevelChoice {
    NoOpt,
    Speed,
    SpeedAndSize,
}

/// Relies on str's `PartialEq`: two string slices are equal exactly when
/// their characters are.
#[verifier::external_body]
pub(crate) fn str_eq(a: &str, b: &str) -> (r: bool)
    ensures
        r == (a@ == b@),
{
    a == b
}

/// Whether a strategy string is one this layer accepts.
pub open spec fn strategy_ok(s: Seq<char>) -> bool {
    s == ""@ || s == "auto"@ || s == "cranelift"@
}

/// The strategy a valid strategy string names.
pub open spec fn spec_strategy(s: Seq<char>) -> StrategyChoice {
    if s == "cranelift"@ {
        StrategyChoice::Cranelift
    } else {
        StrategyChoice::Auto
    }
}

/// Validate the strategy option. The empty string and `auto` select
/// automatic strategy choice; `cranelift` selects Cranelift; anything
/// else is rejected.
pub fn parse_strategy(s: &String) -> (r: Result<StrategyChoice, Error>)
    ensures
        strategy_ok(s@) <==> (r matches Ok(c) && c == spec_strategy(s@)),
        !strategy_ok(s@) <==> r == Err::<StrategyChoice, Error>(Error::InvalidConfig(*s)),
{
    if str_eq(s.as_str(), "cranelift") {
        Ok(StrategyChoice::Cranelift)
    } else if str_eq(s.as_str(), "") || str_eq(s.as_str(), "auto") {
        Ok(StrategyChoice::Auto)
    } else {
        Err(Error::InvalidConfig(s.clone()))
    }
}

/// Whether an optimization-level string is one this layer accepts.
pub open spec fn opt_level_ok(s: Seq<char>) -> bool {
    s == ""@ || s == "none"@ || s == "speed"@ || s == "speed_and_size"@
}

/// The optimization level a valid string names.
pub open spec fn spec_opt_level(s: Seq<char>) -> OptLevelChoice {
    if s == "speed"@ {
        OptLevelChoice::Speed
    } else if s == "speed_and_size"@ {
        OptLevelChoice::SpeedAndSize
    } else {
        OptLevelChoice::NoOpt
    }
}

/// Validate the optimization-level option. The empty string and `none`
/// select no optimization; `speed` and `speed_and_size` select the two
/// optimizing levels; anything else is rejected.
pub fn parse_opt_level(s: &String) -> (r: Result<OptLevelChoice, Error>)
    ensures
        opt_level_ok(s@) <==> (r matches Ok(c) && c == spec_opt_level(s@)),
        !opt_level_ok(s@) <==> r == Err::<OptLevelChoice, Error>(Error::InvalidConfig(*s)),
{
    if str_eq(s.as_str(), "speed") {
        Ok(OptLevelChoice::Speed)
    } else if str_eq(s.as_str(), "speed_and_size") {
        Ok(OptLevelChoice::SpeedAndSize)
    } else if str_eq(s.as_str(), "") || str_eq(s.as_str(), "none") {
        Ok(OptLevelChoice::NoOpt)
    } else {
        Err(Error::InvalidConfig(s.clone()))
    }
}

/// Whether a whole configuration is valid.
pub open spec fn config_ok(c: Config) -> bool {
    strategy_ok(c.strategy@) && opt_level_ok(c.cranelift_opt_level@)
}

/// Validate a configuration and record it on a fresh engine
/// configuration. The two string options are checked here; limits such as
/// the stack size are validated by the engine itself when it is created.
pub fn gen_config(config: &Config) -> (r: Result<wasmtime::Config, Error>)
    ensures
        config_ok(*config) <==> r is Ok,
        !strategy_ok(config.strategy@) ==> r == Err::<wasmtime::Config, Error>(
            Error::InvalidConfig(config.strategy),
        ),
        strategy_ok(config.strategy@) && !opt_level_ok(config.cranelift_opt_level@) ==> r == Err::<
            wasmtime::Config,
            Error,
        >(Error::InvalidConfig(config.cranelift_opt_level)),
{
    let strategy = match parse_strategy(&config.strategy) {
        Ok(v) => v,
        Err(e) => {
            return Err(e);
        },
    };
    let opt = match parse_opt_level(&config.cranelift_opt_level) {
        Ok(v) => v,
        Err(e) => {
            return Err(e);
        },
    };
    Ok(
        crate::engine::new_engine_config(
            config.debug_info,
            config.interruptable,
            config.max_wasm_stack,
            strategy,
            opt,
        ),
    )
}

} // verus!
