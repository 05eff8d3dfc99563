//! The reactive value core: generation-versioned cells, their locking and
//! notification rules, handle accounting, invalidation batching and the
//! decisions behind derived values.
pub mod generation;
pub mod mutable;
pub mod error;
pub mod state;
pub mod handles;
pub mod lock;
pub mod notify;
pub mod invalidation;
pub mod validation;
pub mod linked;
pub mod debounce;
pub mod theme;
pub mod checkbox;
pub mod callbacks;
