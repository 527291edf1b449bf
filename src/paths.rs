//! Where the saved options live, given the configuration directory.
use vstd::prelude::*;
use vstd::string::*;

verus! {

pub const OPTIONS_FILE: &'static str = "\\options.json";

/// The options file inside the configuration directory, where there is one.
pub fn getOptionsPath(configDir: Option<String>) -> (r: Option<String>)
    ensures
        r.deep_view() == (match configDir {
            Some(d) => Some(d@ + OPTIONS_FILE@),
            None => None,
        }),
{
    match configDir {
        Some(path) => Some(path.concat(OPTIONS_FILE)),
        None => None,
    }
}

} // verus!
