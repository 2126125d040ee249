//! A lease-renewal ("heartbeat") library.
//!
//! A long-lived resource (a cluster workload pod) is scheduled for deletion
//! at a fixed expiry timestamp unless its lease is renewed in time.  This
//! crate holds the renewal core: the envelope data model exchanged with the
//! control plane, the single-exchange lease client logic, the renewal-loop
//! state machine that alternates between awaiting a lease and sleeping while
//! racing a one-shot cancellation signal, and the lifecycle state that
//! guarantees teardown is signalled exactly once.

pub mod client;
pub mod envelope;
pub mod lifecycle;
pub mod machine;

pub use envelope::Error;
pub use envelope::Image;
pub use envelope::KeepAliveTicket;
pub use envelope::Payload;
pub use envelope::PodTicket;
pub use envelope::Response;
pub use envelope::Ticket;
