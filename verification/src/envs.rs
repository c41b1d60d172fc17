use vstd::prelude::*;
use vstd::string::StringExecFns;

verus! {

/// The one environment variable that is read: the alerting webhook's URL.
pub open spec fn is_known(name: Seq<char>) -> bool {
    name == "SLACK_WEBHOOK_URL"@
}

/// The value of the variable `name`, where `found` is what the environment
/// holds under that name. The known variable has the value found, and none if
/// the environment has none. Any other name has a placeholder for its value.
pub open spec fn value_for(name: Seq<char>, found: Option<Seq<char>>) -> Option<Seq<char>> {
    if is_known(name) {
        found
    } else {
        Some("??"@)
    }
}

/// Whether `name` is the variable that is read from the environment.
pub fn is_known_variable(name: &str) -> (known: bool)
    ensures
        known == is_known(name@),
{
    name.to_owned() == String::from_str("SLACK_WEBHOOK_URL")
}

/// Decides the value of a variable from what the environment holds.
pub fn value_of(name: &str, found: Option<String>) -> (value: Option<String>)
    ensures
        value_for(
            name@,
            match found {
                Some(text) => Some(text@),
                None => None,
            },
        ) == match value {
            Some(text) => Some(text@),
            None => None,
        },
{
    if is_known_variable(name) {
        found
    } else {
        Some(String::from_str("??"))
    }
}

} // verus!
