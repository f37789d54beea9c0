//! Push-style sequence traversal with lazy, allocation-free adaptors.
//!
//! A producer pushes each of its elements into a consumer; the consumer
//! answers every element with a boolean stop flag, and the producer ends
//! traversal the first time that flag is true. Adaptors wrap a producer
//! and transform, suppress or limit the elements and the stop signal on
//! their way through, without buffering any of them.

pub mod boundary;
pub mod capability;
pub mod chain;
pub mod enumerate;
pub mod ext;
pub mod filter;
pub mod filter_map;
pub mod flat_map;
pub mod inspect;
pub mod laws;
pub mod mapped;
pub mod skip;
pub mod skip_while;
pub mod take;
pub mod take_while;
pub mod traversal;
