//! Where the database file and its backups live.

use vstd::prelude::*;

verus! {

/// The directories the persistence layer works in: `data_dir` holds the live
/// database file, `backup_dir` receives dated copies of it.
#[derive(Clone, Debug, PartialEq, Eq)]
pub struct StorageConfig {
    pub data_dir: String,
    pub backup_dir: String,
}

pub open spec fn database_file_name() -> Seq<char> {
    "clinicdesk.db"@
}

/// `file` placed inside `dir`: a `/` separates them unless `dir` is empty or
/// already ends with one.
pub open spec fn joined(dir: Seq<char>, file: Seq<char>) -> Seq<char> {
    if dir.len() == 0 {
        file
    } else if dir.last() == '/' {
        dir + file
    } else {
        dir + seq!['/'] + file
    }
}

/// The name of the backup taken on the day whose date text is `date`.
pub open spec fn backup_name(date: Seq<char>) -> Seq<char> {
    "clinicdesk_"@ + date + ".db"@
}

/// Places `file` inside `dir`.
pub fn join_path(dir: &str, file: &str) -> (r: String)
    ensures
        r@ == joined(dir@, file@),
{
    let n = dir.unicode_len();
    let mut r = String::from_str(dir);
    if n == 0 {
        return String::from_str(file);
    }
    if dir.get_char(n - 1) != '/' {
        r.append("/");
    }
    r.append(file);
    proof {
        reveal_strlit("/");
    }
    r
}

/// The path of the live database file.
pub fn database_path(config: &StorageConfig) -> (r: String)
    ensures
        r@ == joined(config.data_dir@, database_file_name()),
{
    join_path(config.data_dir.as_str(), "clinicdesk.db")
}

/// The file name of a backup taken on the day whose date text is `date`.
pub fn backup_file_name(date: &str) -> (r: String)
    ensures
        r@ == backup_name(date@),
{
    let mut r = String::from_str("clinicdesk_");
    r.append(date);
    r.append(".db");
    r
}

} // verus!
