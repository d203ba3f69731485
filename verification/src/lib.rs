//! Usage metrics of Kubernetes nodes, pods and volumes, and the resolution of
//! the workloads that own a pod.
//!
//! The crate decides; it never talks to a cluster. Whoever embeds it performs
//! the cluster reads that the resolver asks for and hands the answers back.
//!
//! - `identity`, `discovery`: the names of resources and of their types.
//! - `resolver`: the owner cache, the discovery cache and the traversal from
//!   a resource to its top-level owners, one step at a time.
//! - `guarantees`, `top_level`, `termination`: what is proved of every
//!   traversal.
//! - `metrics`, `stats`, `pods`, `batch`: the usage records.

pub mod batch;
pub mod discovery;
pub mod guarantees;
pub mod identity;
pub mod metrics;
pub mod pods;
pub mod resolver;
pub mod stats;
pub mod termination;
pub mod top_level;
