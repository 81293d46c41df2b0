//! Choice of the upload target among the command line, the configuration file
//! and the built-in default.

use vstd::prelude::*;

verus! {

/// Base address used when neither the command line nor the configuration names one.
pub const DEFAULT_ENDPOINT: &'static str = "http://localhost:8080";

/// Path appended to every base address.
pub const UPLOAD_SUFFIX: &'static str = "/upload";

/// The base address: the command line's, else the configuration's, else the default.
pub open spec fn resolved_base(cli_url: Option<Seq<char>>, config_endpoint: Option<Seq<char>>) -> Seq<char> {
    match cli_url {
        Some(url) => url,
        None => match config_endpoint {
            Some(endpoint) => endpoint,
            None => DEFAULT_ENDPOINT@,
        },
    }
}

/// The address a file is posted to: the base address followed by the upload path.
pub open spec fn resolved_target(cli_url: Option<Seq<char>>, config_endpoint: Option<Seq<char>>) -> Seq<char> {
    resolved_base(cli_url, config_endpoint) + UPLOAD_SUFFIX@
}

/// Resolves the address to post to. The strings are taken as they come: nothing
/// is checked, trimmed or normalised.
pub fn resolve(cli_url: Option<&str>, config_endpoint: Option<&str>) -> (target: String)
    ensures
        target@ == resolved_target(cli_url.deep_view(), config_endpoint.deep_view()),
{
    let base: &str = match cli_url {
        Some(url) => url,
        None => match config_endpoint {
            Some(endpoint) => endpoint,
            None => DEFAULT_ENDPOINT,
        },
    };
    String::from_str(base).concat(UPLOAD_SUFFIX)
}

/// An address given on the command line always wins: whatever the configuration
/// holds, the target is that address followed by the upload path.
pub proof fn lemma_cli_url_wins(cli_url: Seq<char>, config_endpoint: Option<Seq<char>>)
    ensures
        resolved_target(Some(cli_url), config_endpoint) == cli_url + UPLOAD_SUFFIX@,
{
}

/// Without an address on the command line, the configuration's endpoint is the
/// base of the target.
pub proof fn lemma_config_endpoint_used(config_endpoint: Seq<char>)
    ensures
        resolved_target(None, Some(config_endpoint)) == config_endpoint + UPLOAD_SUFFIX@,
{
}

/// With no address from either source, the target is the default endpoint's
/// upload path.
pub proof fn lemma_default_target()
    ensures
        resolved_target(None, None) == "http://localhost:8080/upload"@,
{
    reveal_strlit("http://localhost:8080");
    reveal_strlit("/upload");
    reveal_strlit("http://localhost:8080/upload");
    assert(resolved_target(None, None) =~= "http://localhost:8080/upload"@);
}

/// Every target ends with the upload path and keeps the whole base in front of it.
pub proof fn lemma_target_shape(cli_url: Option<Seq<char>>, config_endpoint: Option<Seq<char>>)
    ensures
        ({
            let target = resolved_target(cli_url, config_endpoint);
            let base = resolved_base(cli_url, config_endpoint);
            &&& target.len() == base.len() + UPLOAD_SUFFIX@.len()
            &&& target.subrange(0, base.len() as int) == base
            &&& target.subrange(base.len() as int, target.len() as int) == UPLOAD_SUFFIX@
        }),
{
    let target = resolved_target(cli_url, config_endpoint);
    let base = resolved_base(cli_url, config_endpoint);
    assert(target.subrange(0, base.len() as int) =~= base);
    assert(target.subrange(base.len() as int, target.len() as int) =~= UPLOAD_SUFFIX@);
}

} // verus!
