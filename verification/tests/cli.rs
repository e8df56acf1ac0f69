use httpbox::cli::CLI;
use httpbox::error::RequestError;
use httpbox::method::Method;
use httpbox::params::RequestParameters;
use httpbox::sink::SinkChoice;
use httpbox::verbosity::LogLevel;

fn cli(url: &str, method: &str, output: &str, verbose: u64, quiet: bool) -> CLI {
    CLI::new(url.to_string(), method.to_string(), output.to_string(), verbose, quiet)
}

#[test]
fn defaults_resolve_to_get_on_standard_output() {
    let c = cli("http://example.com", "GET", "-", 0, false);
    assert_eq!(c.get_method(), Ok(Method::Get));
    assert_eq!(c.get_url().unwrap().as_str(), "http://example.com/");
    assert_eq!(c.get_output_writer(), SinkChoice::StandardOutput);
    assert_eq!(c.get_log_level_filter(), LogLevel::Info);
}

#[test]
fn output_argument_names_a_file_written_from_its_start() {
    let c = cli("http://example.com", "GET", "relative/path/to/file", 0, false);
    assert_eq!(c.get_output_writer(), SinkChoice::CreateOrTruncate("relative/path/to/file".to_string()));
    let c = cli("http://example.com", "GET", ".", 0, false);
    assert_eq!(c.get_output_writer(), SinkChoice::CreateOrTruncate(".".to_string()));
}

#[test]
fn six_verbose_flags_select_trace() {
    assert_eq!(cli("http://example.com", "GET", "-", 6, false).get_log_level_filter(), LogLevel::Trace);
    assert_eq!(cli("http://example.com", "GET", "-", 1, false).get_log_level_filter(), LogLevel::Debug);
}

#[test]
fn quiet_flag_overrides_verbose_flags() {
    assert_eq!(cli("http://example.com", "GET", "-", 0, true).get_log_level_filter(), LogLevel::Warn);
    assert_eq!(cli("http://example.com", "GET", "-", 6, true).get_log_level_filter(), LogLevel::Warn);
}

#[test]
fn every_supported_method_is_accepted() {
    for (token, method) in [
        ("GET", Method::Get),
        ("POST", Method::Post),
        ("PUT", Method::Put),
        ("DELETE", Method::Delete),
        ("HEAD", Method::Head),
        ("OPTIONS", Method::Options),
        ("CONNECT", Method::Connect),
        ("TRACE", Method::Trace),
        ("PATCH", Method::Patch),
    ] {
        let params = cli("http://example.com", token, "-", 0, false).get_request_parameters().unwrap();
        assert_eq!(params.method, method);
    }
}

#[test]
fn invalid_method_is_refused() {
    let c = cli("http://example.com", "PEST", "-", 0, false);
    assert_eq!(c.get_method(), Err(RequestError::InvalidMethod("PEST".to_string())));
    assert_eq!(
        c.get_request_parameters().unwrap_err(),
        RequestError::InvalidMethod("PEST".to_string())
    );
}

#[test]
fn malformed_url_is_reported_before_an_invalid_method() {
    let c = cli("not a url", "PEST", "-", 0, false);
    assert_eq!(
        c.get_request_parameters().unwrap_err(),
        RequestError::MalformedUrl {
            text: "not a url".to_string(),
            cause: "relative URL without a base".to_string()
        }
    );
}

#[test]
fn parameters_hold_method_url_and_sink() {
    let params = cli("https://example.org/a?b=c", "POST", "body.out", 2, false).get_request_parameters().unwrap();
    assert_eq!(params.method, Method::Post);
    assert_eq!(params.url.as_str(), "https://example.org/a?b=c");
    assert_eq!(params.url.scheme(), "https");
    assert_eq!(params.url.host_str(), "example.org");
    assert_eq!(params.output_writer, SinkChoice::CreateOrTruncate("body.out".to_string()));
}

#[test]
fn borrowed_writer_is_the_bundles_own() {
    let params = cli("http://example.com", "GET", "-", 0, false).get_request_parameters().unwrap();
    let mut params: RequestParameters<Vec<u8>> = params.with_output_writer(Vec::new());
    params.borrow_mut_output_writer().extend_from_slice(b"hello");
    params.borrow_mut_output_writer().push(b'!');
    assert_eq!(params.output_writer, b"hello!".to_vec());
    assert_eq!(params.method, Method::Get);
    assert_eq!(params.url.as_str(), "http://example.com/");
}
