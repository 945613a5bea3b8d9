//! The settings of the Git server and the `config.json` it serves to cargo.
use vstd::prelude::*;

verus! {

/// The command-line options of the Git server.
pub struct Opts {
    /// How often `-v` was given.
    pub verbose: i32,
    /// The path of the configuration file.
    pub config: String,
}

/// The log level for how often `-v` was given: `debug` for once, `trace`
/// for twice, else `info`.
pub fn log_level(verbose: i32) -> (r: &'static str)
    ensures
        r@ == (if verbose == 1 {
            "debug"@
        } else if verbose == 2 {
            "trace"@
        } else {
            "info"@
        }),
{
    if verbose == 1 {
        "debug"
    } else if verbose == 2 {
        "trace"
    } else {
        "info"
    }
}

/// Who the commits of the served repository are made by, and their message.
pub struct GitCommitter {
    pub name: String,
    pub email: String,
    pub message: String,
}

impl Default for GitCommitter {
    /// `chartered <noreply@chart.rs>`, committing "Update crates".
    fn default() -> (r: GitCommitter)
        ensures
            r.name@ == "chartered"@,
            r.email@ == "noreply@chart.rs"@,
            r.message@ == "Update crates"@,
    {
        GitCommitter {
            name: String::from_str("chartered"),
            email: String::from_str("noreply@chart.rs"),
            message: String::from_str("Update crates"),
        }
    }
}

/// The `config.json` at the root of the index: where cargo downloads crates
/// from and where its API is.
pub struct CargoConfig {
    pub dl: String,
    pub api: String,
}

/// The API root for a user's key and an organisation under the web server's
/// base URL.
pub open spec fn api_root(base: Seq<char>, api_key: Seq<char>, organisation: Seq<char>) -> Seq<char> {
    base + "a/"@ + api_key + "/o/"@ + organisation
}

impl CargoConfig {
    /// The configuration for the API key `api_key` and the organisation
    /// `organisation`, under the web server's base URL `base` written out
    /// in full (with its trailing slash).
    pub fn new(base: &str, api_key: &str, organisation: &str) -> (r: CargoConfig)
        ensures
            r.api@ == api_root(base@, api_key@, organisation@),
            r.dl@ == api_root(base@, api_key@, organisation@) + "/api/v1/crates"@,
    {
        let mut api = String::from_str(base);
        api.append("a/");
        api.append(api_key);
        api.append("/o/");
        api.append(organisation);
        let mut dl = api.clone();
        dl.append("/api/v1/crates");
        assert(api@ =~= api_root(base@, api_key@, organisation@));
        CargoConfig { dl, api }
    }
}

} // verus!
