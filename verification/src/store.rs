//! A directory of demos with the URL it is served under.

use crate::path::{
    ends_in_separator, generate_path, shardable, sharded_path, trim_separators, trimmed,
};
use vstd::prelude::*;
use vstd::string::*;

verus! {

/// A directory of demos and the URL under which its files are served.
#[derive(Debug)]
pub struct Store {
    basedir: String,
    baseurl: String,
}

impl Store {
    /// The URL does not end in a separator.
    #[verifier::type_invariant]
    spec fn well_formed(&self) -> bool {
        !ends_in_separator(self.baseurl@)
    }

    /// The directory the demos are kept under.
    pub closed spec fn basedir_view(&self) -> Seq<char> {
        self.basedir@
    }

    /// The URL the demos are served under.
    pub closed spec fn baseurl_view(&self) -> Seq<char> {
        self.baseurl@
    }

    /// A store under `basedir`, served under `baseurl`. The URL is kept
    /// without the separators at its end.
    pub fn new(basedir: &str, baseurl: &str) -> (store: Store)
        ensures
            store.basedir_view() == basedir@,
            store.baseurl_view() == trimmed(baseurl@),
    {
        Store {
            basedir: String::from_str(basedir),
            baseurl: String::from_str(trim_separators(baseurl)),
        }
    }

    /// The directory the demos are kept under.
    pub fn basedir(&self) -> (basedir: &str)
        ensures
            basedir@ == self.basedir_view(),
    {
        self.basedir.as_str()
    }

    /// The URL the demos are served under. It does not end in a separator.
    pub fn baseurl(&self) -> (baseurl: &str)
        ensures
            baseurl@ == self.baseurl_view(),
            !ends_in_separator(baseurl@),
    {
        proof {
            use_type_invariant(self);
        }
        self.baseurl.as_str()
    }

    /// Where the demo named `name` lives in this store.
    pub fn generate_path(&self, name: &str) -> (path: String)
        requires
            shardable(name@),
        ensures
            path@ == sharded_path(self.basedir_view(), name@),
    {
        generate_path(self.basedir.as_str(), name)
    }
}

} // verus!
