//! Pairwise comparison engine for ranking the items of a list: picks the next
//! two items to compare, keeps round queues fair, and sequences a comparison
//! session against an outside item store.
pub mod item;
pub mod compare;
pub mod queue;
pub mod session;
pub mod source;
pub mod table;
mod shuffle;
pub mod text;
