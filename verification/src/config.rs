use vstd::prelude::*;

verus! {

// Configuration as the rest of the program consumes it.  Reading and writing
// the on-disk form is left to unverified callers; a missing or malformed file
// falls back to `Config::default()`.

/// Settings the assistant runs under.
pub struct Config {
    pub auto_commit: bool,
    pub commit_after_branch: bool,
    pub model: String,
    pub verbose: bool,
}

/// The model identifier used when no configuration overrides it.
pub const DEFAULT_MODEL: &'static str = "google/gemini-3-flash-preview";

/// `DEFAULT_MODEL` as an owned string.
pub fn default_model() -> (r: String)
    ensures
        r@ == "google/gemini-3-flash-preview"@,
{
    String::from_str(DEFAULT_MODEL)
}

impl Default for Config {
    /// The configuration used when no file is present or it cannot be parsed.
    fn default() -> (r: Self)
        ensures
            r.auto_commit == false,
            r.commit_after_branch == false,
            r.model@ == "google/gemini-3-flash-preview"@,
            r.verbose == false,
    {
        Config {
            auto_commit: false,
            commit_after_branch: false,
            model: default_model(),
            verbose: false,
        }
    }
}

} // verus!
