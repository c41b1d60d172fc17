use vstd::prelude::*;
use vstd::string::StringExecFns;

verus! {

/// What is said of a path that is there and is no regular file.
pub open spec fn not_a_file(path: Seq<char>) -> Seq<char> {
    "cannot read file: "@ + path
}

/// Accepts a configuration path from what the file system says of it:
/// `Ok(true)` for a regular file, `Ok(false)` for anything else that is
/// there, and the system's message where the path cannot be examined.
pub fn is_file(path: &str, examined: Result<bool, String>) -> (verdict: Result<(), String>)
    ensures
        match examined {
            Ok(true) => verdict is Ok,
            Ok(false) => verdict is Err && verdict->Err_0@ == not_a_file(path@),
            Err(message) => verdict == Err::<(), String>(message),
        },
{
    match examined {
        Ok(regular) => {
            if regular {
                Ok(())
            } else {
                let mut message = String::from_str("cannot read file: ");
                message.append(path);
                Err(message)
            }
        },
        Err(message) => Err(message),
    }
}

} // verus!
