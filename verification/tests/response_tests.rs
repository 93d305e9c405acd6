use laika::response::Code;
use laika::response::footer_bytes;

#[test]
fn header_check() {
    // we don't care about the metadata, just the code and the line ending
    let unknown = Code::Unknown.get_header("");
    assert!(unknown.ends_with("\r\n".as_bytes()));
    assert_eq!(&unknown[0..2], "99".as_bytes());

    let input = Code::Input.get_header("");
    assert!(input.ends_with("\r\n".as_bytes()));
    assert_eq!(&input[0..2], "10".as_bytes());

    let sensitive_input = Code::SensitiveInput.get_header("");
    assert!(sensitive_input.ends_with("\r\n".as_bytes()));
    assert_eq!(&sensitive_input[0..2], "11".as_bytes());

    let success = Code::Success.get_header("");
    assert!(success.ends_with("\r\n".as_bytes()));
    assert_eq!(&success[0..2], "20".as_bytes());

    let rdr_temp = Code::RedirectTemporary.get_header("");
    assert!(rdr_temp.ends_with("\r\n".as_bytes()));
    assert_eq!(&rdr_temp[0..2], "30".as_bytes());

    let rdr_perm = Code::RedirectPermanent.get_header("");
    assert!(rdr_perm.ends_with("\r\n".as_bytes()));
    assert_eq!(&rdr_perm[0..2], "31".as_bytes());

    let temp_fail = Code::TemporaryFailure.get_header("");
    assert!(temp_fail.ends_with("\r\n".as_bytes()));
    assert_eq!(&temp_fail[0..2], "40".as_bytes());

    let server_unavailable = Code::ServerUnavailable.get_header("");
    assert!(server_unavailable.ends_with("\r\n".as_bytes()));
    assert_eq!(&server_unavailable[0..2], "41".as_bytes());

    let cgi_err = Code::CgiError.get_header("");
    assert!(cgi_err.ends_with("\r\n".as_bytes()));
    assert_eq!(&cgi_err[0..2], "42".as_bytes());

    let proxy_err = Code::ProxyError.get_header("");
    assert!(proxy_err.ends_with("\r\n".as_bytes()));
    assert_eq!(&proxy_err[0..2], "43".as_bytes());

    let slow_down = Code::SlowDown.get_header("");
    assert!(slow_down.ends_with("\r\n".as_bytes()));
    assert_eq!(&slow_down[0..2], "44".as_bytes());

    let perm_fail = Code::PermanentFailure.get_header("");
    assert!(perm_fail.ends_with("\r\n".as_bytes()));
    assert_eq!(&perm_fail[0..2], "50".as_bytes());

    let not_found = Code::NotFound.get_header("");
    assert!(not_found.ends_with("\r\n".as_bytes()));
    assert_eq!(&not_found[0..2], "51".as_bytes());

    let gone = Code::Gone.get_header("");
    assert!(gone.ends_with("\r\n".as_bytes()));
    assert_eq!(&gone[0..2], "52".as_bytes());

    let proxy_req_refused = Code::ProxyRequestRefused.get_header("");
    assert!(proxy_req_refused.ends_with("\r\n".as_bytes()));
    assert_eq!(&proxy_req_refused[0..2], "53".as_bytes());

    let bad_req = Code::BadRequest.get_header("");
    assert!(bad_req.ends_with("\r\n".as_bytes()));
    assert_eq!(&bad_req[0..2], "59".as_bytes());

    let client_cert_required = Code::ClientCertificateRequired.get_header("");
    assert!(client_cert_required.ends_with("\r\n".as_bytes()));
    assert_eq!(&client_cert_required[0..2], "60".as_bytes());

    let cert_not_auth = Code::CertificateNotAuthorised.get_header("");
    assert!(cert_not_auth.ends_with("\r\n".as_bytes()));
    assert_eq!(&cert_not_auth[0..2], "61".as_bytes());

    let cert_not_valid = Code::CertificateNotValid.get_header("");
    assert!(cert_not_valid.ends_with("\r\n".as_bytes()));
    assert_eq!(&cert_not_valid[0..2], "62".as_bytes());
}

#[test]
fn header_exact_lines() {
    assert_eq!(
        Code::NotFound.get_header("ignored"),
        "51 NOT FOUND\r\n".as_bytes().to_vec()
    );
    assert_eq!(
        Code::BadRequest.get_header(""),
        "59 BAD REQUEST\r\n".as_bytes().to_vec()
    );
    assert_eq!(
        Code::ProxyRequestRefused.get_header(""),
        "53 PROXY REQUEST REFUSED\r\n".as_bytes().to_vec()
    );
    assert_eq!(
        Code::Success.get_header("text/gemini; charset=utf-8"),
        "20 text/gemini; charset=utf-8\r\n".as_bytes().to_vec()
    );
}

#[test]
fn header_value_matches_digits() {
    let codes = [
        Code::Unknown,
        Code::Input,
        Code::SensitiveInput,
        Code::Success,
        Code::RedirectTemporary,
        Code::RedirectPermanent,
        Code::TemporaryFailure,
        Code::ServerUnavailable,
        Code::CgiError,
        Code::ProxyError,
        Code::SlowDown,
        Code::PermanentFailure,
        Code::NotFound,
        Code::Gone,
        Code::ProxyRequestRefused,
        Code::BadRequest,
        Code::ClientCertificateRequired,
        Code::CertificateNotAuthorised,
        Code::CertificateNotValid,
    ];
    for code in codes {
        let header = code.get_header("text/plain");
        let read_back = (header[0] - b'0') * 10 + (header[1] - b'0');
        assert_eq!(read_back, code.value());
    }
}

#[test]
fn footer_is_fixed_banner() {
    let footer = footer_bytes();
    assert_eq!(
        footer,
        "\n\n~~~~ served by laika ~~~~~~~~~\nhttps://sr.ht/~gbmor/laika\n\n".as_bytes()
    );
}
