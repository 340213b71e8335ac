use vstd::prelude::*;
use vstd::string::*;

verus! {

/// One ICE (STUN/TURN) server entry.
#[derive(Debug, Clone)]
pub struct IceServer {
    pub urls: Vec<String>,
    pub username: Option<String>,
    pub credential: Option<String>,
}

/// Whether `s` is a STUN server entry with the single URL `url` and no credentials.
pub open spec fn is_stun_entry(s: IceServer, url: Seq<char>) -> bool {
    &&& s.urls@.len() == 1
    &&& s.urls@[0]@ == url
    &&& s.username is None
    &&& s.credential is None
}

impl IceServer {
    fn stun(url: &str) -> (s: IceServer)
        ensures
            is_stun_entry(s, url@),
    {
        let mut urls: Vec<String> = Vec::new();
        urls.push(String::from_str(url));
        IceServer { urls, username: None, credential: None }
    }

    /// The two public Google STUN servers.
    pub fn default_stun() -> (r: Vec<Self>)
        ensures
            r@.len() == 2,
            is_stun_entry(r@[0], "stun:stun.l.google.com:19302"@),
            is_stun_entry(r@[1], "stun:stun1.l.google.com:19302"@),
    {
        let mut r: Vec<IceServer> = Vec::new();
        r.push(IceServer::stun("stun:stun.l.google.com:19302"));
        r.push(IceServer::stun("stun:stun1.l.google.com:19302"));
        r
    }
}

} // verus!
