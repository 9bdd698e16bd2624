//! A minimal HTTP greeting service, verified.
//!
//! The library holds the whole request-handling logic of the service: a
//! shared, read-only application configuration and an exact-match router
//! over two fixed paths. The surrounding binary only moves bytes between
//! the network and these functions.

mod router;
mod state;

pub use router::handle;
pub use router::handle_all;
pub use router::hello_body;
pub use router::lemma_app_route_reads_config;
pub use router::lemma_config_never_changes;
pub use router::lemma_routing_exact;
pub use router::spec_body;
pub use router::spec_handle;
pub use router::spec_status;
pub use router::Method;
pub use router::Request;
pub use router::Response;
pub use state::default_app_name;
pub use state::AppState;
