//! Extracts a normalized description of record-like type declarations and of
//! schema-table declarations from a declaration tree: type records with
//! classified field types, the mapping markers and bound table names found
//! in attribute text, and tables parsed from the schema-table language.
pub mod classify;
pub mod decl;
pub mod derives;
pub mod extract;
pub mod records;
pub mod structs;
pub mod table;
pub mod text;
