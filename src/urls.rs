use vstd::prelude::*;

verus! {

/// `https://<host>/version`: where a host answers with the current version.
pub open spec fn version_query_url_of(host: Seq<char>) -> Seq<char> {
    "https://"@ + host + "/version"@
}

/// `https://<host>/<version>-<name>`: a version-scoped artifact of a host.
pub open spec fn artifact_url_of(host: Seq<char>, version: Seq<char>, name: Seq<char>) -> Seq<char> {
    "https://"@ + host + "/"@ + version + "-"@ + name
}

/// `https://<host>/Login/Negotiate.ashx`: the authentication endpoint handed
/// to the client.
pub open spec fn auth_url_of(host: Seq<char>) -> Seq<char> {
    "https://"@ + host + "/Login/Negotiate.ashx"@
}

pub fn version_query_url(host: &str) -> (r: String)
    ensures
        r@ == version_query_url_of(host@),
{
    String::from_str("https://").concat(host).concat("/version")
}

pub fn artifact_url(host: &str, version: &str, name: &str) -> (r: String)
    ensures
        r@ == artifact_url_of(host@, version@, name@),
{
    String::from_str("https://").concat(host).concat("/").concat(version).concat("-").concat(name)
}

pub fn auth_url(host: &str) -> (r: String)
    ensures
        r@ == auth_url_of(host@),
{
    String::from_str("https://").concat(host).concat("/Login/Negotiate.ashx")
}

} // verus!
