//! Schema/value mapping engine for business data tables.
//!
//! A business data table stores its rows in a fixed, generic wide layout
//! (numbered slots `NUM1..NUM10`, `TEXT1..TEXT5`, `CDF1_ID..CDF15_ID`, plus
//! `VALID_FROM`/`VALID_TO`) while the meaning of each slot comes from a
//! per-table column schema. This crate holds the engine that classifies a
//! column's semantic type from its slot reference code and projects a generic
//! wide row into a sparse named row and back, together with the table
//! aggregate and its localized display names. I/O adapters around the engine
//! exchange plain values with it and live outside this crate.

pub mod bdt;
pub mod cli;
pub mod csv_adapter;
pub mod csv_data_adapter;
pub mod date;
pub mod error;
pub mod render;
pub mod seqs;
