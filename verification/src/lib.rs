//! Verified decision and bookkeeping core of the real-time scalp trading system.
//!
//! The floating-point scoring engines and the asynchronous pipeline live in the
//! application crate; this library holds the integer, enum and string logic that
//! they rely on, each function with a contract proved by Verus.
pub mod types;
pub mod window;
pub mod accounting;
pub mod text;
pub mod execution_external;
pub mod adaptive_engine;
pub mod clock;
pub mod execution_controller;
pub mod execution_smart;
pub mod meta_engine;
pub mod tape;
pub mod execution_truth;
pub mod config;
pub mod model_weights;
pub mod risk;
pub mod reversal_engine;
pub mod learning;
