//! The props-synchronization core of a candlestick chart inspector: a
//! validated time-range descriptor (`Props`) built from editable date, time
//! and interval fields, a controller that keeps those fields in step with
//! other panels over channels, and the aggregation that turns raw samples
//! into volume bars with their axis bound and timestamp labels.

pub mod bounds;
pub mod channel;
pub mod interval;
pub mod props;
pub mod time_range_chooser;
pub mod times;
pub mod volume;
