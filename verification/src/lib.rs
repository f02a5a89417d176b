#![allow(non_snake_case)]

pub mod arith;
pub mod capture;
pub mod collect;
pub mod deploy;
pub mod driver;
pub mod flamegraph;
pub mod metrics;
pub mod model;
pub mod runs;
pub mod text;
pub mod transport;
pub mod tuning;
