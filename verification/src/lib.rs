//! A content-addressed, on-disk cache for compiled modules.
//!
//! Compiling a module is slow and always gives the same result for the same module, the
//! same target and the same compiler. The cache keeps that result in a file whose place
//! is made of the three, and gives it back instead of compiling again.
//!
//! - [`conf`]: the configuration, set at most once and fixed at its first use.
//! - [`key`]: the key of a module, a digest of all in it that the compiler reads.
//! - [`path`]: the place of an entry under the cache directory.
//! - [`stamp`]: the stamp that parts one development build of the compiler from the next.
//! - [`payload`]: what is cached, and its form on disk.
//! - [`entry`]: one module's entry, what loading it gives and how its file is written.
//! - [`ascending`]: sorting, for the key.
//!
//! The library never touches the disk. Its caller reads and writes, and hands over what
//! it read and how each write ended.

pub mod ascending;
pub mod conf;
pub mod entry;
pub mod key;
pub mod path;
pub mod payload;
pub mod stamp;

pub use entry::ModuleCacheEntry;
pub use payload::ModuleCacheData;
