use loom::approval::intersect;
use loom::model::risk::{RiskBand, RiskConsequence, RiskDimensions};

#[test]
fn intersect_keeps_the_common_values_in_left_order() {
    let left = vec!["/a".to_string(), "/b".to_string(), "/c".to_string()];
    let right = vec!["/c".to_string(), "/a".to_string()];
    assert_eq!(intersect(&left, &right), vec!["/a".to_string(), "/c".to_string()]);
    assert!(intersect(&left, &Vec::new()).is_empty());
}

#[test]
fn overall_band_is_the_highest_dimension() {
    let d = RiskDimensions {
        write_impact: RiskBand::Low,
        external_side_effect: RiskBand::High,
        secret_exposure: RiskBand::Medium,
        irreversibility: RiskBand::Low,
        budget_burn: RiskBand::Low,
        uncertainty: RiskBand::Medium,
    };
    assert_eq!(d.max_band(), RiskBand::High);
    let c = RiskDimensions { budget_burn: RiskBand::Critical, ..d };
    assert_eq!(c.max_band(), RiskBand::Critical);
    let _ = RiskConsequence::StopSilentExecution;
}
