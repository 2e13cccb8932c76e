use vstd::prelude::*;

use crate::ids::{AspectId, PointId};
use crate::units::Angle;

verus! {

/// A saved query over charts.
#[derive(Debug, PartialEq, Eq)]
pub struct QueryDefinition {
    pub expression: QueryExpr,
    pub description: Option<String>,
}

/// Boolean structure of a query.
#[derive(Debug, PartialEq, Eq)]
pub enum QueryExpr {
    Predicate(Predicate),
    And(Vec<QueryExpr>),
    Or(Vec<QueryExpr>),
    Not(Box<QueryExpr>),
}

/// An atomic query condition.
#[derive(Clone, Debug, PartialEq, Eq)]
pub enum Predicate {
    InSign { point: PointId, sign_index: u8 },
    Aspect { lhs: PointId, rhs: PointId, aspect: AspectId, orb_override: Option<Angle> },
    Longitude { point: PointId, comparison: NumericComparison, value: Angle },
    ChartField { field: String, comparison: TextComparison, value: String },
}

/// Numeric comparison operator.
#[derive(Clone, Copy, Debug, PartialEq, Eq, Structural)]
pub enum NumericComparison {
    LessThan,
    LessThanOrEqual,
    Equal,
    GreaterThanOrEqual,
    GreaterThan,
}

/// Text comparison operator.
#[derive(Clone, Copy, Debug, PartialEq, Eq, Structural)]
pub enum TextComparison {
    Equal,
    Contains,
    StartsWith,
}

} // verus!
