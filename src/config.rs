use vstd::prelude::*;

verus! {

/// The largest request body that an upload may carry, in bytes.
pub const DEFAULT_MAX_BODY: u64 = 20_000_000;

/// Immutable settings of a gateway: where files live and how large a body may be.
pub struct Config {
    root: String,
    max_body: u64,
}

impl Config {
    pub closed spec fn spec_root(&self) -> Seq<char> {
        self.root@
    }

    pub closed spec fn spec_max_body(&self) -> u64 {
        self.max_body
    }

    /// Settings with the given storage root and body ceiling.
    pub fn new(root: String, max_body: u64) -> (r: Config)
        ensures
            r.spec_root() == root@,
            r.spec_max_body() == max_body,
    {
        Config { root, max_body }
    }

    /// Files under `/data`, bodies of at most twenty million bytes.
    pub fn standard() -> (r: Config)
        ensures
            r.spec_root() == "/data"@,
            r.spec_max_body() == DEFAULT_MAX_BODY,
    {
        Config { root: String::from_str("/data"), max_body: DEFAULT_MAX_BODY }
    }

    pub fn root(&self) -> (r: &String)
        ensures
            r@ == self.spec_root(),
    {
        &self.root
    }

    pub fn max_body(&self) -> (r: u64)
        ensures
            r == self.spec_max_body(),
    {
        self.max_body
    }
}

} // verus!
