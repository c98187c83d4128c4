use tirds::prompts::{
    get_specialist_prompt, macro_system_prompt, sector_system_prompt, sentiment_system_prompt,
    synthesizer_system_prompt, technical_system_prompt,
};

#[test]
fn all_specialist_prompts_contain_schema() {
    let domains = ["technical", "macro", "sentiment", "sector"];
    for domain in &domains {
        let prompt = get_specialist_prompt(domain).unwrap();
        assert!(
            prompt.contains("request_id"),
            "Missing request_id in {domain}"
        );
        assert!(
            prompt.contains("confidence"),
            "Missing confidence in {domain}"
        );
        assert!(
            prompt.contains("data_sources_consulted"),
            "Missing data_sources_consulted in {domain}"
        );
    }
}

#[test]
fn unknown_domain_returns_none() {
    assert!(get_specialist_prompt("unknown").is_none());
}

#[test]
fn synthesizer_prompt_contains_all_output_fields() {
    let prompt = synthesizer_system_prompt();
    assert!(prompt.contains("overall_confidence"));
    assert!(prompt.contains("leg_assessments"));
    assert!(prompt.contains("information_relevance"));
    assert!(prompt.contains("confidence_decay"));
    assert!(prompt.contains("price_target_decay"));
    assert!(prompt.contains("trade_intelligence"));
    assert!(prompt.contains("timeline"));
    assert!(prompt.contains("smartness_score"));
}

#[test]
fn technical_prompt_contains_signal_rules() {
    let prompt = technical_system_prompt();
    assert!(prompt.contains("RSI < 30"));
    assert!(prompt.contains("RSI > 70"));
    assert!(prompt.contains("Golden Cross"));
    assert!(prompt.contains("Death Cross"));
    assert!(prompt.contains("MACD"));
    assert!(prompt.contains("Bollinger"));
    assert!(prompt.contains("ATR"));
    assert!(prompt.contains("Stochastic"));
    assert!(prompt.contains("OBV"));
    assert!(prompt.contains("WARNING"));
}

#[test]
fn macro_prompt_contains_vix_rules() {
    let prompt = macro_system_prompt();
    assert!(prompt.contains("VIX < 15"));
    assert!(prompt.contains("VIX > 35"));
    assert!(prompt.contains("SPY"));
    assert!(prompt.contains("WARNING"));
}

#[test]
fn sentiment_prompt_contains_score_rules() {
    let prompt = sentiment_system_prompt();
    assert!(prompt.contains("Score > 0.5"));
    assert!(prompt.contains("Score < -0.5"));
    assert!(prompt.contains("Recency"));
    assert!(prompt.contains("Weight 1.0x"));
}

#[test]
fn sector_prompt_contains_rotation_rules() {
    let prompt = sector_system_prompt();
    assert!(prompt.contains("XLK"));
    assert!(prompt.contains("XLF"));
    assert!(prompt.contains("Relative Performance"));
    assert!(prompt.contains("rotation"));
}

#[test]
fn all_prompts_contain_data_format_section() {
    let domains = ["technical", "macro", "sentiment", "sector"];
    for domain in &domains {
        let prompt = get_specialist_prompt(domain).unwrap();
        assert!(
            prompt.contains("DATA FORMAT"),
            "Missing DATA FORMAT in {domain}"
        );
        assert!(
            prompt.contains("INTERPRETATION RULES"),
            "Missing INTERPRETATION RULES in {domain}"
        );
    }
}
