use vstd::prelude::*;

verus! {

/// Settings fixed once per process: where requests go, the optional API key,
/// and where responses are stored.
#[derive(Debug)]
pub struct Config {
    api_root: String,
    api_key: Option<String>,
    db_path: String,
}

pub open spec fn opt_view(o: Option<String>) -> Option<Seq<char>> {
    match o {
        Some(s) => Some(s@),
        None => None,
    }
}

impl Config {
    pub closed spec fn spec_api_root(&self) -> Seq<char> {
        self.api_root@
    }

    pub closed spec fn spec_api_key(&self) -> Option<Seq<char>> {
        opt_view(self.api_key)
    }

    pub closed spec fn spec_db_path(&self) -> Seq<char> {
        self.db_path@
    }

    pub fn new(api_root: String, api_key: Option<String>, db_path: String) -> (r: Self)
        ensures
            r.spec_api_root() == api_root@,
            r.spec_api_key() == opt_view(api_key),
            r.spec_db_path() == db_path@,
    {
        Config { api_root, api_key, db_path }
    }

    pub fn get_api_root(&self) -> (r: &str)
        ensures
            r@ == self.spec_api_root(),
    {
        self.api_root.as_str()
    }

    pub fn get_api_key(&self) -> (r: Option<&str>)
        ensures
            match r {
                Some(k) => self.spec_api_key() == Some(k@),
                None => self.spec_api_key() is None,
            },
    {
        match &self.api_key {
            Some(k) => Some(k.as_str()),
            None => None,
        }
    }

    pub fn get_db_path(&self) -> (r: &str)
        ensures
            r@ == self.spec_db_path(),
    {
        self.db_path.as_str()
    }
}

} // verus!
