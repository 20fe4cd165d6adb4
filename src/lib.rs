//! Client-side state core of a terminal cryptocurrency tracker: the view
//! pipeline, chart downsampling, price alerts, the chart cache and the input
//! state machine, all over fixed-point market data.
use vstd::prelude::*;

pub mod alerts;
pub mod app;
pub mod chart;
pub mod display;
pub mod endpoint;
pub mod input;
pub mod number;
pub mod portfolio;
pub mod text;
pub mod types;
pub mod view;

verus! {

} // verus!
