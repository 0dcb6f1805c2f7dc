use metrics::Unit;
use raft::mem_metrics::{MetricsBasic, MetricsType};

#[test]
fn metrics_basic_equality_ignores_the_description() {
    assert_eq!(
        MetricsBasic::new(MetricsType::Counter, Some(Unit::Count), Some("number of requests processed")),
        MetricsBasic::new(MetricsType::Counter, Some(Unit::Count), None)
    );
    assert_eq!(
        MetricsBasic::from_type_and_unit(MetricsType::Histogram, Unit::Seconds),
        MetricsBasic::new(MetricsType::Histogram, Some(Unit::Seconds), Some("latency"))
    );
    assert_ne!(MetricsBasic::from_type(MetricsType::Gauge), MetricsBasic::from_type(MetricsType::Counter));
    assert_ne!(
        MetricsBasic::from_type(MetricsType::Gauge),
        MetricsBasic::from_type_and_unit(MetricsType::Gauge, Unit::Bytes)
    );
    assert_ne!(
        MetricsBasic::from_type_and_unit(MetricsType::Gauge, Unit::Bytes),
        MetricsBasic::from_type_and_unit(MetricsType::Gauge, Unit::Seconds)
    );
}
