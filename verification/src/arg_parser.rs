//! Checking the directory that was named on the command line.

use vstd::prelude::*;

verus! {

/// What is to be made of a path on the command line, given what the file
/// system says of it: the path itself where it exists and is a directory,
/// and a message that names the path where it is not.
pub open spec fn parsed_path(path: Seq<char>, exists: bool, is_dir: bool) -> Result<
    Seq<char>,
    Seq<char>,
> {
    if exists && is_dir {
        Ok(path)
    } else if is_dir {
        Err("Directory does not exist: "@ + path)
    } else {
        Err("Path is not a directory: "@ + path)
    }
}

/// A result of strings as a result of texts.
pub open spec fn texts_of(r: Result<String, String>) -> Result<Seq<char>, Seq<char>> {
    match r {
        Ok(s) => Ok(s@),
        Err(s) => Err(s@),
    }
}

/// Accepts `path` as the directory to scan, or says why not. `exists` and
/// `is_dir` are the file system's answers for this path.
pub fn parse_path(path: &str, exists: bool, is_dir: bool) -> (parsed: Result<String, String>)
    ensures
        texts_of(parsed) == parsed_path(path@, exists, is_dir),
{
    if exists && is_dir {
        Ok(path.to_owned())
    } else if is_dir {
        let mut message = "Directory does not exist: ".to_owned();
        message.append(path);
        Err(message)
    } else {
        let mut message = "Path is not a directory: ".to_owned();
        message.append(path);
        Err(message)
    }
}

} // verus!
