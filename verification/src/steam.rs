//! Where the registry may hold the install location of an application.

use vstd::prelude::*;
use vstd::string::*;

verus! {

/// The name under which the game is registered.
pub const STEAM_AOE2_APP: &'static str = "Steam App 813780";

/// The registry key of the uninstall entry of `app_name`, native or, with
/// `wow64`, in the 32-bit view.
pub open spec fn uninstall_key(app_name: Seq<char>, wow64: bool) -> Seq<char> {
    if wow64 {
        "SOFTWARE\\WOW6432Node\\Microsoft\\Windows\\CurrentVersion\\Uninstall\\"@ + app_name
    } else {
        "SOFTWARE\\Microsoft\\Windows\\CurrentVersion\\Uninstall\\"@ + app_name
    }
}

/// The registry keys to ask for the install location of `app_name`, in the
/// order in which they are asked: the native one first.
pub fn uninstall_keys(app_name: &str) -> (keys: Vec<String>)
    ensures
        keys@.len() == 2,
        keys@[0]@ == uninstall_key(app_name@, false),
        keys@[1]@ == uninstall_key(app_name@, true),
{
    let mut native = String::from_str("SOFTWARE\\Microsoft\\Windows\\CurrentVersion\\Uninstall\\");
    native.append(app_name);
    let mut wow64 = String::from_str(
        "SOFTWARE\\WOW6432Node\\Microsoft\\Windows\\CurrentVersion\\Uninstall\\",
    );
    wow64.append(app_name);
    let mut keys: Vec<String> = Vec::new();
    keys.push(native);
    keys.push(wow64);
    keys
}

/// The index of the first answer that holds a location.
pub open spec fn first_present(answers: Seq<Option<String>>, from: int) -> Option<int>
    decreases answers.len() - from,
{
    if from < 0 || from >= answers.len() {
        None
    } else if answers[from].is_some() {
        Some(from)
    } else {
        first_present(answers, from + 1)
    }
}

/// The install location among the answers of the registry, one answer per
/// key in the order of the keys: the first that is there.
pub fn install_location(answers: Vec<Option<String>>) -> (location: Option<String>)
    ensures
        match first_present(answers@, 0) {
            Some(i) => location.is_some() && location.unwrap()@ == answers@[i].unwrap()@,
            None => location.is_none(),
        },
{
    let mut i: usize = 0;
    while i < answers.len()
        invariant
            i <= answers@.len(),
            first_present(answers@, 0) == first_present(answers@, i as int),
        decreases answers@.len() - i,
    {
        match &answers[i] {
            Some(path) => {
                assert(first_present(answers@, i as int) == Some(i as int));
                return Some(path.clone());
            },
            None => {},
        }
        i += 1;
    }
    None
}

} // verus!
