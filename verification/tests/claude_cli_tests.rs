use std::time::Duration;
use tirds::agents::{ClaudeCliConfig, ClaudeSpecialist, ScenarioMockSpecialist};

#[test]
fn default_config() {
    let config = ClaudeCliConfig::default();
    assert_eq!(config.model, "reasoner-small-latest");
    assert_eq!(config.timeout, Duration::from_secs(45));
}

#[test]
fn claude_specialist_keeps_its_identity() {
    let s = ClaudeSpecialist::new(
        "technical".to_string(),
        "technical".to_string(),
        "reasoner-small-latest".to_string(),
        Duration::from_secs(45),
    );
    assert_eq!(s.name, "technical");
    assert_eq!(s.domain, "technical");
    assert_eq!(s.cli_config.model, "reasoner-small-latest");
}

#[test]
fn scenario_mock_constructors() {
    let t = ScenarioMockSpecialist::technical();
    assert_eq!(t.name, "technical_analyst");
    assert_eq!(t.domain, "technical");
    let m = ScenarioMockSpecialist::macro_analyst();
    assert_eq!(m.domain, "macro");
    let s = ScenarioMockSpecialist::sentiment();
    assert_eq!(s.domain, "sentiment");
    let x = ScenarioMockSpecialist::sector();
    assert_eq!(x.domain, "sector");
}
