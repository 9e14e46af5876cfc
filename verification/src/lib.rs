//! Instrumentation of React-style function components and custom hooks with
//! timing probes.
//!
//! The pass takes the syntax tree of one module and hands back a tree in
//! which every component and every exported hook utility binds a scope
//! handle of the runtime, every call of a custom hook inside them stands
//! between a start probe and an end probe, and every value that they return
//! goes through the render wrapper. The module imports the runtime's
//! initializer where the pass instrumented a declaration.
//!
//! - `ast`: the tree that the pass works on, and `layout`: how it is laid out;
//! - `config`: the options of a run and their defaults;
//! - `exclude`: the file paths that are left out;
//! - `naming`: what counts as a component and as a hook;
//! - `analyze`: which declarations are worth instrumenting;
//! - `site_id`: the identifiers of instrumentation sites;
//! - `synth`: the code that the pass creates;
//! - `rules`: what the pass does to a tree, as mathematical functions;
//! - `transform`: the walk that does it, and `pass`: the ways into it;
//! - `laws` and `preserve`: what holds of every run;
//! - `mock_detection`: the test for a mocked hook;
//! - `text`: helpers for strings.
pub mod analyze;
pub mod ast;
pub mod config;
pub mod exclude;
pub mod laws;
pub mod layout;
pub mod mock_detection;
pub mod naming;
pub mod pass;
pub mod preserve;
pub mod rules;
pub mod site_id;
pub mod synth;
pub mod text;
pub mod transform;

pub use crate::ast::{Kind, Location, Module, Node};
pub use crate::config::{Config, Options};
pub use crate::mock_detection::build_is_mocked_expr;
pub use crate::pass::{create_pass, jitter_pass, process_transform, react_jitter, Fold, Pass};
pub use crate::site_id::compute_id;
pub use crate::transform::JitterTransform;
