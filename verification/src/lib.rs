//! A small data-access backend around an embedded SQL database: it accepts
//! free-text statements, classifies each as row-producing or mutating,
//! executes it, and marshals the result into a uniform, schema-agnostic
//! shape. A secondary path derives the on-disk locations used for the
//! database file and for persisted binary blobs.

pub mod classify;
pub mod value;
pub mod paths;
pub mod sqlite;
pub mod facade;
