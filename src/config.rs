use vstd::prelude::*;

use crate::error::CliError;
use crate::icons::IconMap;
use crate::text::{has_prefix, starts_with};

verus! {

/// Command-line arguments: where the configuration file is.
pub struct Cli {
    pub conf: String,
}

/// The server's configuration, loaded once at startup.
pub struct Config {
    pub title: String,
    pub subtitle: String,
    pub description: String,
    /// `http://` followed by the address to listen on.
    pub host: String,
    /// The asset root: templates and static files.
    pub path: String,
    /// The content root: the tree exposed for browsing.
    pub directory: String,
    /// Icons by extension or exact file name.
    pub icons: IconMap,
}

/// The texts shown at the head of a directory page.
pub struct DirectoryConfig {
    pub title: String,
    pub subtitle: String,
    pub description: String,
}

/// `s` with every leading repetition of `pat` removed.
pub open spec fn trim_leading(s: Seq<char>, pat: Seq<char>) -> Seq<char>
    decreases s.len(),
{
    if pat.len() > 0 && has_prefix(s, pat) {
        trim_leading(s.subrange(pat.len() as int, s.len() as int), pat)
    } else {
        s
    }
}

/// The scheme a host must be written with.
pub open spec fn http_scheme() -> Seq<char> {
    "http://"@
}

/// Exit code for a configuration the server cannot use.
pub const CONFIG_EXIT_CODE: i32 = 2;

/// The address to listen on, from a host written as `http://address`: every
/// leading `http://` is removed. Any other host is refused with exit code 2.
pub fn bind_address(host: &str) -> (r: Result<String, CliError>)
    ensures
        r is Ok <==> has_prefix(host@, http_scheme()),
        r is Ok ==> r->Ok_0@ == trim_leading(host@, http_scheme()),
        r is Err ==> r->Err_0.code == CONFIG_EXIT_CODE,
        r is Err ==> r->Err_0.msg@ == "Invalid host url: "@ + host@,
{
    let scheme = "http://";
    proof {
        reveal_strlit("http://");
    }
    if !starts_with(host, scheme) {
        let mut msg = String::from_str("Invalid host url: ");
        msg.append(host);
        return Err(CliError::new(msg, CONFIG_EXIT_CODE));
    }
    let m = scheme.unicode_len();
    let mut rest = host;
    while starts_with(rest, scheme)
        invariant
            m == scheme@.len(),
            m > 0,
            scheme@ == http_scheme(),
            trim_leading(host@, http_scheme()) == trim_leading(rest@, http_scheme()),
        decreases rest@.len(),
    {
        let n = rest.unicode_len();
        rest = rest.substring_char(m, n);
    }
    Ok(String::from_str(rest))
}

} // verus!
