//! The values that the command line supplies, and the request that they
//! resolve to.

use vstd::prelude::*;
use crate::address::{
    occurs_in, rendering_is_faithful, resolve_url, resolves_to, url_parse, validated, Url,
};
use crate::error::RequestError;
use crate::method::{method_of_token, resolve_method, Method};
use crate::params::RequestParameters;
use crate::sink::{chosen_sink, resolve_sink, SinkChoice};
use crate::verbosity::{log_level_of, resolve_log_level, LogLevel};

verus! {

/// The parsed command line: the address, the method token, the output
/// target, how often the verbosity flag was given, and the quiet flag.
#[derive(Debug)]
pub struct CLI {
    url: String,
    method: String,
    output: String,
    verbose: u64,
    quiet: bool,
}

/// A `CLI` by its contents.
pub struct CliView {
    pub url: Seq<char>,
    pub method: Seq<char>,
    pub output: Seq<char>,
    pub verbose: nat,
    pub quiet: bool,
}

impl View for CLI {
    type V = CliView;

    closed spec fn view(&self) -> CliView {
        CliView {
            url: self.url@,
            method: self.method@,
            output: self.output@,
            verbose: self.verbose as nat,
            quiet: self.quiet,
        }
    }
}

/// What `get_request_parameters` owes for a command line: the failure of
/// the address first, then that of the method, else the bundle.
pub open spec fn parameters_of(
    cli: CliView,
    r: Result<RequestParameters<SinkChoice>, RequestError>,
) -> bool {
    match validated(url_parse(cli.url)) {
        Err(cause) => r matches Err(RequestError::MalformedUrl { text: t, cause: c }) && t@
            == cli.url && c@ == cause,
        Ok(address) => match method_of_token(cli.method) {
            None => r matches Err(RequestError::InvalidMethod(t)) && t@ == cli.method,
            Some(m) => r matches Ok(p) && p.method == m && p.url@ == address
                && p.output_writer@ == chosen_sink(cli.output, false, false),
        },
    }
}

impl CLI {
    /// Holds the values of one invocation.
    pub fn new(url: String, method: String, output: String, verbose: u64, quiet: bool) -> (r: CLI)
        ensures
            r@ == (CliView { url: url@, method: method@, output: output@, verbose: verbose as nat, quiet }),
    {
        CLI { url, method, output, verbose, quiet }
    }

    /// The method that the method token names.
    pub fn get_method(&self) -> (r: Result<Method, RequestError>)
        ensures
            match method_of_token(self@.method) {
                Some(m) => r == Ok::<Method, RequestError>(m),
                None => r matches Err(RequestError::InvalidMethod(t)) && t@ == self@.method,
            },
    {
        resolve_method(self.method.as_str())
    }

    /// The address, validated.
    pub fn get_url(&self) -> (r: Result<Url, RequestError>)
        ensures
            resolves_to(r, self@.url, validated(url_parse(self@.url))),
            rendering_is_faithful(url_parse(self@.url)),
            r matches Ok(url) ==> url@.scheme.is_prefix_of(url@.rendered) && occurs_in(
                url@.host,
                url@.rendered,
            ),
    {
        resolve_url(self.url.as_str())
    }

    /// The sink for the output target. The command line never resumes, so
    /// a file target is always written from its start.
    pub fn get_output_writer(&self) -> (r: SinkChoice)
        ensures
            r@ == chosen_sink(self@.output, false, false),
    {
        resolve_sink(self.output.as_str(), false)
    }

    /// The log level that the quiet flag and the verbosity count select.
    pub fn get_log_level_filter(&self) -> (r: LogLevel)
        ensures
            r == log_level_of(self@.quiet, self@.verbose),
    {
        resolve_log_level(self.quiet, self.verbose)
    }

    /// Resolves the whole request. A malformed address is reported first,
    /// then an unsupported method; otherwise the bundle holds the method,
    /// the address and the selected sink.
    pub fn get_request_parameters(&self) -> (r: Result<
        RequestParameters<SinkChoice>,
        RequestError,
    >)
        ensures
            parameters_of(self@, r),
            r matches Ok(p) ==> p.url@.scheme.is_prefix_of(p.url@.rendered) && occurs_in(
                p.url@.host,
                p.url@.rendered,
            ),
    {
        let url = match self.get_url() {
            Ok(url) => url,
            Err(e) => {
                return Err(e);
            },
        };
        let method = match self.get_method() {
            Ok(method) => method,
            Err(e) => {
                return Err(e);
            },
        };
        Ok(RequestParameters { method, url, output_writer: self.get_output_writer() })
    }
}

} // verus!
