//! Dynamic-value marshalling and statement building for an embedded SQL store.
//!
//! - `marshal`: host values to bound parameters, and result cells to text.
//! - `schema`: column type descriptors and the `CREATE TABLE` statement.
//! - `statement`: the `INSERT` statement and its parallel parameters.
//! - `database`: path checks, the close rule, and the error taxonomy.
//! - `text`: decimal rendering, joining and comparing of character sequences.
pub mod database;
pub mod marshal;
pub mod schema;
pub mod statement;
pub mod text;
