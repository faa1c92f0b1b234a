//! A memoising store for text-shaping plans.
//!
//! A shape plan is expensive to build and depends only on a font and on the
//! direction, script and language of a text run. This crate derives a 64-bit
//! fingerprint from exactly those inputs and keeps one plan per fingerprint.
//!
//! * [`variation`]: variation axes and the canonical form of their values.
//! * [`run`]: what of a text run takes part in shaping.
//! * [`font`]: a font as the cache sees it.
//! * [`key`]: the fingerprint and the write sequence it is a digest of.
//! * [`stream`]: the key's writes as one run of bytes.
//! * [`engine`]: the shaping engine that builds plans.
//! * [`store`]: the hash table that owns the plans.
//! * [`cache`]: the cache itself.
//! * [`history`]: what holds of a cache over a whole sequence of lookups.

pub mod cache;
pub mod engine;
pub mod font;
pub mod history;
pub mod key;
pub mod run;
pub mod store;
pub mod stream;
pub mod variation;

pub use cache::ShapePlanCache;
pub use font::Font;
pub use key::ShapePlanKey;
pub use run::{Direction, TextRun};
pub use variation::Variation;
