use vstd::prelude::*;

verus! {

/// Where the application keeps its lists, and the settings format's version.
#[derive(Debug)]
pub struct Config {
    pub version: u8,
    pub path: String,
}

impl Default for Config {
    fn default() -> (r: Self)
        ensures
            r.version == 1,
            r.path@ == "recources/todo.json"@,
    {
        Config { version: 1, path: "recources/todo.json".to_owned() }
    }
}

} // verus!
