//! Shared access to a single generator instance without threading a handle
//! through every call site: a synchronized slot holds at most one bound
//! generator, a scoped bind/release protocol keeps the binding from
//! outliving the bound object, and interchangeable backend strategies cover
//! hosted multi-threaded processes, single-core interrupt-driven targets,
//! and a direct passthrough to the platform entropy source.

mod critical;
pub mod global;
mod os_entropy;
pub mod rng;
pub mod splitmix;

pub use global::GlobalRng;
pub use global::RngGuard;
pub use global::Strategy;
pub use rng::CryptoRng;
pub use rng::Rng;
pub use rng::RngError;
pub use splitmix::SplitMix64;
