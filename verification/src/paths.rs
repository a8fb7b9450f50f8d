//! File locations: joining paths and the directories the tool keeps its files in.
use vstd::prelude::*;
use vstd::string::*;

verus! {

/// `base` joined with `part` as `PathBuf::join` does it on Unix: an absolute `part`
/// replaces `base`; otherwise a `/` separates them unless `base` is empty or already
/// ends in one.
pub open spec fn join(base: Seq<char>, part: Seq<char>) -> Seq<char> {
    if part.len() > 0 && part[0] == '/' {
        part
    } else if base.len() > 0 && base.last() != '/' {
        base + seq!['/'] + part
    } else {
        base + part
    }
}

/// `base` joined with `part`.
pub fn join_path(base: &str, part: &str) -> (r: String)
    ensures
        r@ == join(base@, part@),
{
    if part.unicode_len() > 0 && part.get_char(0) == '/' {
        return String::from_str(part);
    }
    let n = base.unicode_len();
    if n > 0 && base.get_char(n - 1) != '/' {
        proof {
            reveal_strlit("/");
        }
        let r = String::from_str(base).concat("/").concat(part);
        assert(r@ =~= base@ + seq!['/'] + part@);
        r
    } else {
        String::from_str(base).concat(part)
    }
}

/// The name of the directory, in the home directory, that holds the tool's files.
pub open spec fn data_dir_name() -> Seq<char> {
    ".code-voice"@
}

/// The directory that holds the tool's files, for the home directory `home`.
pub open spec fn data_dir(home: Seq<char>) -> Seq<char> {
    join(home, data_dir_name())
}

/// The directory that holds the tool's files, for the home directory `home`.
pub fn data_dir_in(home: &str) -> (r: String)
    ensures
        r@ == data_dir(home@),
{
    join_path(home, ".code-voice")
}

/// Why a file location could not be found.
#[derive(Clone, Copy, Debug, PartialEq, Eq, Structural)]
pub enum PathError {
    /// The home directory is unknown.
    NoHomeDir,
}

impl PathError {
    /// The message the error reports.
    pub fn message(&self) -> (r: &'static str)
        ensures
            r@ == "Failed to get home directory"@,
    {
        "Failed to get home directory"
    }
}

/// Calls `dirs::home_dir` and turns the path into a string, replacing what is not UTF-8.
/// The result depends on the environment, so the contract claims nothing of it.
#[verifier::external_body]
fn home_dir() -> Option<String> {
    dirs::home_dir().map(|p| p.to_string_lossy().into_owned())
}

/// The home directory of the current user.
pub fn get_home_dir() -> Result<String, PathError> {
    match home_dir() {
        Some(h) => Ok(h),
        None => Err(PathError::NoHomeDir),
    }
}

/// The directory that holds the tool's files, in the home directory of the current user.
pub fn get_data_dir() -> (r: Result<String, PathError>)
    ensures
        r matches Ok(d) ==> exists|h: Seq<char>| d@ == #[trigger] data_dir(h),
{
    let home = get_home_dir()?;
    Ok(data_dir_in(home.as_str()))
}

} // verus!
