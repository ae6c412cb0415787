//! Plugin-side gameplay binding library.
//!
//! The host game engine owns every gameplay object (notes, walls, arcs,
//! sabers, colors) and the persistent key/value store; the plugin only holds
//! opaque handles and forwards calls. What can be reasoned about locally is
//! collected here: the typed transient scratch map, the check-then-read
//! discipline of the persistent store, the allocate/free discipline for
//! buffers crossing the module boundary, and the severity-tagged log line
//! format.

pub mod blocks;
pub mod logline;
pub mod persist;
pub mod scratch;
