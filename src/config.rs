//! The server's configuration: read-only once built, shared by all requests.
use vstd::prelude::*;
use vstd::string::StringExecFns;
use crate::naming::{is_plain_component, joined, lemma_joined_within_root, within_root};

verus! {

/// Port served when none is given.
pub const DEFAULT_PORT: u16 = 9000;

/// Root directory and listening port.
pub struct ServerConfig {
    directory: String,
    port: u16,
}

impl ServerConfig {
    pub closed spec fn directory_spec(&self) -> Seq<char> {
        self.directory@
    }

    pub closed spec fn port_spec(&self) -> u16 {
        self.port
    }

    pub fn new(directory: String, port: u16) -> (r: ServerConfig)
        ensures
            r.directory_spec() == directory@,
            r.port_spec() == port,
    {
        ServerConfig { directory, port }
    }

    /// The directory that uploads are written into and files are served from.
    pub fn directory(&self) -> (r: &String)
        ensures
            r@ == self.directory_spec(),
    {
        &self.directory
    }

    pub fn port(&self) -> (r: u16)
        ensures
            r == self.port_spec(),
    {
        self.port
    }

    /// The path of the file `name` in the root directory. For a resolved
    /// name, the path is an entry directly inside the root directory.
    pub fn destination(&self, name: &String) -> (r: String)
        ensures
            r@ == joined(self.directory_spec(), name@),
            is_plain_component(name@) ==> within_root(self.directory_spec(), r@),
    {
        let mut p = self.directory.clone();
        p.append("/");
        p.append(name.as_str());
        proof {
            reveal_strlit("/");
            if is_plain_component(name@) {
                lemma_joined_within_root(self.directory@, name@);
            }
        }
        p
    }
}

} // verus!
