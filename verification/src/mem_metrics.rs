use vstd::prelude::*;
use metrics::Unit;

verus! {

/// The unit a metric is measured in.
#[verifier::external_type_specification]
#[verifier::external_body]
pub struct ExUnit(metrics::Unit);

/// `<Unit as PartialEq>::eq`: `Unit` is an enum without fields whose equality
/// is derived, so two units are equal when they are the same unit.
#[verifier::external_body]
fn same_unit(a: &Unit, b: &Unit) -> (r: bool)
    ensures
        r == (*a == *b),
{
    a == b
}

/// `MetricsType` represents the type of metric
#[derive(Debug, Copy, Clone, Eq, PartialEq, Structural)]
pub enum MetricsType {
    Counter,
    Gauge,
    Histogram,
}

/// `MetricsBasic` stores the basic information for each metric
#[derive(Debug)]
pub struct MetricsBasic {
    pub typ: MetricsType,
    pub unit: Option<Unit>,
    pub description: Option<&'static str>,
}

/// Two metrics are described alike: same type and same unit; the description
/// does not count.
pub open spec fn same_metric(a: MetricsBasic, b: MetricsBasic) -> bool {
    a.typ == b.typ && a.unit == b.unit
}

impl PartialEq for MetricsBasic {
    fn eq(&self, other: &Self) -> (r: bool) {
        if self.typ != other.typ {
            return false;
        }
        match &self.unit {
            None => other.unit.is_none(),
            Some(unit) => match &other.unit {
                None => false,
                Some(ou) => same_unit(ou, unit),
            },
        }
    }
}

impl vstd::std_specs::cmp::PartialEqSpecImpl for MetricsBasic {
    open spec fn obeys_eq_spec() -> bool {
        true
    }

    open spec fn eq_spec(&self, other: &Self) -> bool {
        same_metric(*self, *other)
    }
}

impl Eq for MetricsBasic {}

impl MetricsBasic {
    pub fn new(typ: MetricsType, unit: Option<Unit>, description: Option<&'static str>) -> (r: Self)
        ensures
            r == (Self { typ, unit, description }),
    {
        Self { typ, unit, description }
    }

    /// A metric of type `typ`, without unit or description.
    pub fn from_type(typ: MetricsType) -> (r: Self)
        ensures
            r == (Self { typ, unit: None, description: None }),
    {
        Self { typ, unit: None, description: None }
    }

    /// A metric of type `typ` measured in `unit`, without description.
    pub fn from_type_and_unit(typ: MetricsType, unit: Unit) -> (r: Self)
        ensures
            r == (Self { typ, unit: Some(unit), description: None }),
    {
        Self { typ, unit: Some(unit), description: None }
    }
}

} // verus!
