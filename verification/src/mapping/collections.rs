//! Collection options: the resource's settings as the driver's.

use crate::driver;
use crate::resource::{Granularity, TimeSeries, TimeSeriesView, ValidationAction, ValidationLevel};
use crate::text::copy_text;
use vstd::prelude::*;

verus! {

pub open spec fn granularity_model(g: Granularity) -> driver::TimeseriesGranularity {
    match g {
        Granularity::Hours => driver::TimeseriesGranularity::Hours,
        Granularity::Minutes => driver::TimeseriesGranularity::Minutes,
        Granularity::Seconds => driver::TimeseriesGranularity::Seconds,
    }
}

pub open spec fn validation_action_model(a: ValidationAction) -> driver::ValidationAction {
    match a {
        ValidationAction::Error => driver::ValidationAction::Error,
        ValidationAction::Warn => driver::ValidationAction::Warn,
    }
}

pub open spec fn validation_level_model(l: ValidationLevel) -> driver::ValidationLevel {
    match l {
        ValidationLevel::Moderate => driver::ValidationLevel::Moderate,
        ValidationLevel::Off => driver::ValidationLevel::Off,
        ValidationLevel::Strict => driver::ValidationLevel::Strict,
    }
}

pub fn time_series_granularity(g: Granularity) -> (r: driver::TimeseriesGranularity)
    ensures
        r == granularity_model(g),
{
    match g {
        Granularity::Hours => driver::TimeseriesGranularity::Hours,
        Granularity::Minutes => driver::TimeseriesGranularity::Minutes,
        Granularity::Seconds => driver::TimeseriesGranularity::Seconds,
    }
}

pub fn validation_action(a: ValidationAction) -> (r: driver::ValidationAction)
    ensures
        r == validation_action_model(a),
{
    match a {
        ValidationAction::Error => driver::ValidationAction::Error,
        ValidationAction::Warn => driver::ValidationAction::Warn,
    }
}

pub fn validation_level(l: ValidationLevel) -> (r: driver::ValidationLevel)
    ensures
        r == validation_level_model(l),
{
    match l {
        ValidationLevel::Moderate => driver::ValidationLevel::Moderate,
        ValidationLevel::Off => driver::ValidationLevel::Off,
        ValidationLevel::Strict => driver::ValidationLevel::Strict,
    }
}

/// The driver's time-series options for those of the resource.
pub open spec fn time_series_model(t: TimeSeriesView) -> driver::TimeseriesOptionsView {
    driver::TimeseriesOptionsView {
        time_field: t.time_field,
        meta_field: t.meta_field,
        granularity: match t.granularity {
            Some(g) => Some(granularity_model(g)),
            None => None,
        },
        bucket_max_span: t.bucket_max_span_seconds,
        bucket_rounding: t.bucket_rounding_seconds,
    }
}

/// The driver's time-series options for those of the resource.
pub fn time_series(t: &TimeSeries) -> (r: driver::TimeseriesOptions)
    ensures
        r@ == time_series_model(t@),
{
    driver::TimeseriesOptions {
        bucket_max_span: t.bucket_max_span_seconds,
        bucket_rounding: t.bucket_rounding_seconds,
        granularity: match t.granularity {
            Some(g) => Some(time_series_granularity(g)),
            None => None,
        },
        meta_field: copy_text(&t.meta_field),
        time_field: t.time_field.clone(),
    }
}

} // verus!
