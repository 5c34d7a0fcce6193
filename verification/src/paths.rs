//! Where the database directory lies.
//!
//! The database is kept in the directory `database` below the
//! application's data directory. The caller asks the platform for the
//! data directory and hands over what it got: the directory, or the
//! reason why there is none.

use vstd::prelude::*;
use vstd::string::StringExecFns;

verus! {

/// `std::path::PathBuf`, a path of the platform. Nothing of its inside
/// is shown to the verifier.
#[verifier::external_type_specification]
#[verifier::external_body]
pub struct ExPathBuf(std::path::PathBuf);

/// The name of the database directory below the data directory.
pub const DATABASE_DIR: &'static str = "database";

/// The path that `std::path::Path::join` gives for a path and a name
/// adjoined to it.
pub uninterp spec fn joined(base: std::path::PathBuf, leaf: Seq<char>) -> std::path::PathBuf;

/// The text that `std::path::Path::to_string_lossy` gives for a path.
pub uninterp spec fn path_text(path: std::path::PathBuf) -> Seq<char>;

/// The message for a data directory that the platform could not name.
pub open spec fn no_data_dir_message(reason: Seq<char>) -> Seq<char> {
    "Failed to get app data dir: "@ + reason
}

/// `std::path::Path::join`: the path with a name adjoined to it. The
/// same path and name always give the same path.
#[verifier::external_body]
fn join_path(base: &std::path::PathBuf, leaf: &str) -> (r: std::path::PathBuf)
    ensures
        r == joined(*base, leaf@),
{
    base.join(leaf)
}

/// `std::path::Path::to_string_lossy`, as an owned text. The same path
/// always gives the same text.
#[verifier::external_body]
fn lossy_text(path: &std::path::PathBuf) -> (r: String)
    ensures
        r@ == path_text(*path),
{
    path.to_string_lossy().into_owned()
}

/// The database directory: `database` below the data directory. Where
/// the platform could not name a data directory, the reason is passed on
/// behind `Failed to get app data dir: `.
pub fn get_db_path(app_data_dir: Result<std::path::PathBuf, String>) -> (r: Result<
    std::path::PathBuf,
    String,
>)
    ensures
        match app_data_dir {
            Ok(dir) => r == Ok::<std::path::PathBuf, String>(joined(dir, DATABASE_DIR@)),
            Err(reason) => r is Err && r->Err_0@ == no_data_dir_message(reason@),
        },
{
    match app_data_dir {
        Ok(dir) => Ok(join_path(&dir, DATABASE_DIR)),
        Err(reason) => {
            let mut message = String::from_str("Failed to get app data dir: ");
            message.append(reason.as_str());
            Err(message)
        },
    }
}

/// The database directory as text, for display.
pub fn get_database_path(app_data_dir: Result<std::path::PathBuf, String>) -> (r: Result<
    String,
    String,
>)
    ensures
        match app_data_dir {
            Ok(dir) => r is Ok && r->Ok_0@ == path_text(joined(dir, DATABASE_DIR@)),
            Err(reason) => r is Err && r->Err_0@ == no_data_dir_message(reason@),
        },
{
    match get_db_path(app_data_dir) {
        Ok(path) => Ok(lossy_text(&path)),
        Err(message) => Err(message),
    }
}

} // verus!
