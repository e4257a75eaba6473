//! Cache trace simulation toolkit: deterministic synthetic key streams,
//! trace replay against a pluggable cache model, and benchmark metrics.
use vstd::prelude::*;

pub mod event;
pub mod model;
pub mod source;
pub mod text;
pub mod key_only;
pub mod lirs;
pub mod arc;
pub mod csv;
pub mod cachelib;
pub mod jsonl;
pub mod adapter;
pub mod registry;
pub mod measure;
pub mod report;
pub mod workload;
pub mod laws;
pub mod metrics;
pub mod json_results;
pub mod simulator;

pub use event::{Event, Op};
pub use model::CacheModel;
pub use source::{EventList, EventSource};
pub use simulator::{simulate, simulate_explicit};
pub use workload::{BoundedGenerator, Workload, WorkloadGenerator, WorkloadSpec};
