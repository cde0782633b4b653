//! Subscription and completion core of a multiplexed readiness-and-timeout
//! wait primitive: wait interests on handle readiness and on monotonic-clock
//! deadlines, capability-gated at construction, resolved through
//! single-assignment completion into a uniform tagged result.

pub mod clock;
pub mod error;
pub mod subscription;
pub mod table;
