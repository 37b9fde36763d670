use vstd::prelude::*;

verus! {

/// What the daemon is started with.
pub struct Opts {
    /// Base path of the working directory to keep in sync.
    pub path: String,
    /// Author name for automated commits; `None` uses the repository's identity.
    pub author_name: Option<String>,
    /// Author email for automated commits; `None` uses the repository's identity.
    pub author_email: Option<String>,
}

impl Opts {
    pub fn new(path: String, author_name: Option<String>, author_email: Option<String>) -> (r:
        Opts)
        ensures
            r.path == path,
            r.author_name == author_name,
            r.author_email == author_email,
    {
        Opts { path, author_name, author_email }
    }
}

} // verus!
