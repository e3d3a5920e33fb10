//! Decision core of a short-link redirect service: a request's short key is
//! looked up in a key-value store and answered with a permanent redirect to
//! the stored destination, or to the fallback stored under `"default"`.
pub mod decision;
pub mod lookup;
pub mod memory;
pub mod policy;
pub mod resolver;

pub use decision::{Decision, Outcome};
pub use lookup::{Event, Fetched, Lookup, Signal};
pub use memory::{resolve, MemoryStore};
pub use resolver::{short_key, Action, Resolver, Stage, Step};
