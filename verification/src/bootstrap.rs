use vstd::prelude::*;

verus! {

/// Where the persistence plugin keeps its state: a SQLite database file
/// named `main.db`, given as the plugin's connection string.
pub fn database_url() -> (r: &'static str)
    ensures
        r@ == "sqlite:main.db"@,
{
    "sqlite:main.db"
}

/// The fixed diagnostic for the shell's only failure path: if the
/// application fails to start, the process aborts with this message.
pub fn startup_error_message() -> (r: &'static str)
    ensures
        r@ == "error while running tauri application"@,
{
    "error while running tauri application"
}

} // verus!
