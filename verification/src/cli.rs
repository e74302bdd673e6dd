//! What the command line checks of its arguments.

use vstd::prelude::*;

verus! {

/// What is said of a path at which no file is.
pub open spec fn missing_file(file_path: Seq<char>) -> Seq<char> {
    "The file \""@ + file_path + "\" does not exist"@
}

/// Accepts the path of a file that is there, and refuses one of a file that
/// is not. `exists` says whether a file is at the path.
pub fn validate_file_exists(file_path: &str, exists: bool) -> (checked: Result<String, String>)
    ensures
        match checked {
            Ok(path) => exists && path@ == file_path@,
            Err(message) => !exists && message@ == missing_file(file_path@),
        },
{
    if exists {
        Ok(file_path.to_owned())
    } else {
        let mut message = "The file \"".to_owned();
        message.append(file_path);
        message.append("\" does not exist");
        Err(message)
    }
}

} // verus!
