//! Keeps a remote reverse proxy's configuration in step with the ports of a
//! cluster ingress service and the cluster's public address.
//!
//! The library holds the logic: the canonical order of ports, rendering,
//! drift detection and the reconciliation state machine. The program around
//! it performs the cluster queries and the remote file transfers.
pub mod desired;
pub mod drift;
pub mod error;
pub mod laws;
pub mod ports;
pub mod reconcile;
pub mod render;
pub mod settings;

pub use desired::DesiredState;
pub use drift::has_drifted;
pub use error::ReconcileError;
pub use ports::canonical_ports;
pub use reconcile::{Action, Event, Note, Phase, Reconciler};
pub use render::{render, RenderedConfig, CONFIG_TEMPLATE};
pub use settings::{ProxySettings, RemoteCredential};
