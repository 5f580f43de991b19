//! Decisions of the database facade that do not touch the engine: which file
//! may be opened, and when the single connection may be closed.
use vstd::prelude::*;
use vstd::string::StringExecFns;
use crate::marshal::MarshalError;
use crate::schema::SchemaError;
use crate::text::{ends_with, lower_of, lowercase, text_ends_with};

verus! {

/// The path is not that of a database file.
#[derive(Clone, Debug)]
pub enum ConfigError {
    UnsupportedExtension { path: String },
}

/// The engine rejected a statement; the engine's own message is kept.
#[derive(Clone, Debug)]
pub enum ExecError {
    Engine(String),
}

/// Misuse of the connection's lifetime or of its lock.
#[derive(Clone, Copy, Debug, PartialEq, Eq, Structural)]
pub enum GuardError {
    /// An earlier holder of the connection panicked; the facade is unusable.
    Poisoned,
    /// Another handle to the facade is still alive.
    StillReferenced,
}

/// Every failure a facade operation can report.
#[derive(Clone, Debug)]
pub enum DatabaseError {
    Config(ConfigError),
    Marshal(MarshalError),
    Schema(SchemaError),
    Exec(ExecError),
    Guard(GuardError),
}

/// The path that is opened: the given one, or `database.sqlite`.
pub open spec fn path_or_default(path: Option<&str>) -> Seq<char> {
    match path {
        Some(p) => p@,
        None => "database.sqlite"@,
    }
}

/// Whether an already lower-cased path ends in `.sqlite`, `.db` or `.sql`.
pub open spec fn allowed_extension(lowered: Seq<char>) -> bool {
    ends_with(lowered, ".sqlite"@) || ends_with(lowered, ".db"@) || ends_with(lowered, ".sql"@)
}

/// Checks a lower-cased path against the allowed extensions.
pub fn has_allowed_extension(lowered: &str) -> (r: bool)
    ensures
        r == allowed_extension(lowered@),
{
    text_ends_with(lowered, ".sqlite") || text_ends_with(lowered, ".db") || text_ends_with(
        lowered,
        ".sql",
    )
}

/// Resolves the path to open and checks its extension, ignoring case.
pub fn validate_path(path: Option<&str>) -> (r: Result<String, ConfigError>)
    ensures
        r is Ok <==> allowed_extension(lower_of(path_or_default(path))),
        r matches Ok(p) ==> p@ == path_or_default(path),
        r matches Err(ConfigError::UnsupportedExtension { path: p }) ==> p@ == path_or_default(
            path,
        ),
{
    let p: &str = match path {
        Some(p) => p,
        None => "database.sqlite",
    };
    let lowered = lowercase(p);
    if has_allowed_extension(lowered.as_str()) {
        Ok(String::from_str(p))
    } else {
        Err(ConfigError::UnsupportedExtension { path: String::from_str(p) })
    }
}

/// Decides whether the connection may be closed, given how many handles to
/// the facade are alive (the closing one included): only its sole owner may
/// close it.
pub fn check_sole_owner(handles: usize) -> (r: Result<(), GuardError>)
    requires
        handles >= 1,
    ensures
        r is Ok <==> handles == 1,
        r is Err ==> r == Err::<(), GuardError>(GuardError::StillReferenced),
{
    if handles == 1 {
        Ok(())
    } else {
        Err(GuardError::StillReferenced)
    }
}

} // verus!
