//! Markers of the device's conversion mode.
use vstd::prelude::*;

verus! {

/// Continuous conversion mode: the device converts at its conversion rate.
#[derive(Debug)]
pub struct Continuous;

/// One-shot conversion mode: the device sleeps and converts once when triggered.
#[derive(Debug)]
pub struct OneShot;

} // verus!
