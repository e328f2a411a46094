use wasmtime_ex::config::{
    gen_config, parse_opt_level, parse_strategy, Config, OptLevelChoice, StrategyChoice,
};
use wasmtime_ex::errors::Error;

fn base_config() -> Config {
    Config {
        debug_info: false,
        interruptable: false,
        max_wasm_stack: 512 * 1024,
        strategy: String::new(),
        cranelift_opt_level: String::new(),
    }
}

#[test]
fn strategy_accepts_documented_values() {
    assert_eq!(parse_strategy(&String::new()), Ok(StrategyChoice::Auto));
    assert_eq!(parse_strategy(&"auto".to_string()), Ok(StrategyChoice::Auto));
    assert_eq!(parse_strategy(&"cranelift".to_string()), Ok(StrategyChoice::Cranelift));
}

#[test]
fn strategy_rejects_unknown_values() {
    assert_eq!(
        parse_strategy(&"lightbeam".to_string()),
        Err(Error::InvalidConfig("lightbeam".to_string()))
    );
}

#[test]
fn opt_level_accepts_documented_values() {
    assert_eq!(parse_opt_level(&String::new()), Ok(OptLevelChoice::NoOpt));
    assert_eq!(parse_opt_level(&"none".to_string()), Ok(OptLevelChoice::NoOpt));
    assert_eq!(parse_opt_level(&"speed".to_string()), Ok(OptLevelChoice::Speed));
    assert_eq!(
        parse_opt_level(&"speed_and_size".to_string()),
        Ok(OptLevelChoice::SpeedAndSize)
    );
}

#[test]
fn opt_level_rejects_unknown_values() {
    assert_eq!(
        parse_opt_level(&"fastest".to_string()),
        Err(Error::InvalidConfig("fastest".to_string()))
    );
}

#[test]
fn gen_config_accepts_a_valid_configuration() {
    assert!(gen_config(&base_config()).is_ok());
    let mut c = base_config();
    c.strategy = "cranelift".to_string();
    c.cranelift_opt_level = "speed".to_string();
    c.debug_info = true;
    assert!(gen_config(&c).is_ok());
}

#[test]
fn gen_config_rejects_an_unknown_strategy() {
    let mut c = base_config();
    c.strategy = "interpreter".to_string();
    match gen_config(&c) {
        Err(Error::InvalidConfig(s)) => assert_eq!(s, "interpreter"),
        other => panic!("expected InvalidConfig, got {:?}", other.map(|_| ())),
    }
}

#[test]
fn gen_config_rejects_an_unknown_opt_level() {
    let mut c = base_config();
    c.cranelift_opt_level = "ludicrous".to_string();
    match gen_config(&c) {
        Err(Error::InvalidConfig(s)) => assert_eq!(s, "ludicrous"),
        other => panic!("expected InvalidConfig, got {:?}", other.map(|_| ())),
    }
}
