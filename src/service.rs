use vstd::prelude::*;
use vstd::string::StringExecFns;

verus! {

/// How a service's HTTP server is set up.
#[derive(Clone, Debug)]
pub struct NorthServiceOptions {
    /// The TCP address the server listens on.
    pub address: Option<String>,
    pub name: Option<String>,
    pub path_prefix: Option<String>,
    pub version: Option<String>,
    pub port: Option<u16>,
    pub graceful_shutdown: bool,
    pub enable_swagger: bool,
    pub auto_acme: bool,
    pub keep_alive: u32,
    pub read_timeout: u32,
    pub write_timeout: u32,
}

impl Default for NorthServiceOptions {
    fn default() -> (r: Self)
        ensures
            r.address matches Some(a) && a@ == "127.0.0.1"@,
            r.name matches Some(n) && n@ == "service"@,
            r.path_prefix matches Some(p) && p@ == "/"@,
            r.version matches Some(v) && v@ == "latest"@,
            r.port == Some(5000u16),
            !r.graceful_shutdown,
            !r.enable_swagger,
            !r.auto_acme,
            r.keep_alive == 1,
            r.read_timeout == 2,
            r.write_timeout == 2,
    {
        NorthServiceOptions {
            address: Some(String::from_str("127.0.0.1")),
            name: Some(String::from_str("service")),
            path_prefix: Some(String::from_str("/")),
            version: Some(String::from_str("latest")),
            port: Some(5000),
            graceful_shutdown: false,
            enable_swagger: false,
            auto_acme: false,
            keep_alive: 1,
            read_timeout: 2,
            write_timeout: 2,
        }
    }
}

/// The error messages that a failed request answers with.
#[derive(Clone, Debug)]
pub struct ErrorResponse {
    errors: Vec<String>,
}

impl ErrorResponse {
    pub closed spec fn messages(&self) -> Seq<String> {
        self.errors@
    }

    /// A response that carries the one message `message`.
    pub fn from_message(message: String) -> (r: ErrorResponse)
        ensures
            r.messages() == seq![message],
    {
        let mut errors: Vec<String> = Vec::new();
        errors.push(message);
        assert(errors@ =~= seq![message]);
        ErrorResponse { errors }
    }

    /// The messages of the response.
    pub fn errors(&self) -> (r: &Vec<String>)
        ensures
            r@ == self.messages(),
    {
        &self.errors
    }
}

} // verus!
