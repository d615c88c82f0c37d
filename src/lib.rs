/// Rows of stored values and the records they encode.
pub mod codec;
/// The store: schema, full-collection replace, and typed reads.
pub mod db;
/// What holds of the records and of the statements that the store sends.
pub mod laws;
/// The four kinds of record.
pub mod models;
/// The operations of a store that may not have been opened yet.
pub mod commands;
/// Stored values, the schema's statements, and the calls into SQLite.
pub mod sql;
/// The statements a store sends, and what SQLite does with them.
pub mod statements;
