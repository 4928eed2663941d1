//! The command model of the converter: what a parsed invocation asks for, as
//! plain values. The argument parsing itself, and the I/O each command
//! drives, live outside this crate and hand these values in.

use vstd::prelude::*;

verus! {

/// One invocation of the converter.
#[derive(Debug)]
pub struct Cli {
    pub command: Adapter,
}

/// Which adapter the invocation drives.
#[derive(Debug)]
pub enum Adapter {
    /// Exchange tables with the wide CSV layout.
    Csv(CsvCommand),
    /// Read tables from the relational store.
    Oracle(OracleCommand),
    /// Render tables as SQL scripts.
    Sql(SqlCommand),
    /// Render tables as a load script for the embedded database.
    Sqlite(SqliteCommand),
}

/// The CSV adapter's subcommands.
#[derive(Debug)]
pub struct CsvCommand {
    pub subcommand: CsvSubCommand,
}

#[derive(Debug)]
pub enum CsvSubCommand {
    /// Read the CSV files of a directory into tables.
    Read(CsvReadCommand),
    /// Write tables out as the three CSV files of a directory.
    Write(CsvWriteCommand),
    /// Export one table's data grid as CSV.
    Data(CsvDataCommand),
}

#[derive(Debug)]
pub struct CsvReadCommand {
    /// The directory holding the CSV files.
    pub path: String,
}

#[derive(Debug)]
pub struct CsvWriteCommand {
    /// The directory to write the CSV files into.
    pub path: String,
}

#[derive(Debug)]
pub struct CsvDataCommand {
    /// Where to write the exported grid.
    pub path: String,
    /// The business identifier of the table to export.
    pub table: String,
}

#[derive(Debug)]
pub struct OracleCommand {
    /// The business identifier of the table to read.
    pub table_ic_code: String,
}

#[derive(Debug)]
pub struct SqliteCommand {}

#[derive(Debug)]
pub struct SqlCommand {
    /// Render one table only, when given.
    pub table_ic_code: Option<String>,
}

} // verus!
