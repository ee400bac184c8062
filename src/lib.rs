//! Cluster connection pool for a time-series database reached over HTTP:
//! round-robin choice of a backend instance, demotion of instances whose
//! transport fails, and their re-admission after a cooldown.

pub mod address;
pub mod cluster;
pub mod instance;
pub mod pool;
pub mod schema;
pub mod status;

pub use cluster::{Cluster, Readmission, RequestError, Response, Target, TransportOutcome};
pub use instance::{Instance, Scheme};
pub use pool::Pool;
pub use schema::{DataPoint, ShardSpace};
pub use status::RequestStatus;
