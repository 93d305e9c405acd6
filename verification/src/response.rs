//! The Gemini response taxonomy: status codes, header lines, and the
//! footer banner appended to `text/gemini` bodies.

use vstd::prelude::*;
use vstd::string::StrSliceExecFns;
use vstd::string::StringExecFns;
use vstd::utf8::encode_utf8;

verus! {

/// The Gemini status codes, one per response.
///
/// Each code renders as a two-digit decimal number; every code but
/// `Success` carries a fixed human-readable label in its header line,
/// while `Success` carries the response's MIME type instead.
#[derive(Clone, Copy, Debug, PartialEq, Eq, Structural)]
pub enum Code {
    Unknown,
    Input,
    SensitiveInput,
    Success,
    RedirectTemporary,
    RedirectPermanent,
    TemporaryFailure,
    ServerUnavailable,
    CgiError,
    ProxyError,
    SlowDown,
    PermanentFailure,
    NotFound,
    Gone,
    ProxyRequestRefused,
    BadRequest,
    ClientCertificateRequired,
    CertificateNotAuthorised,
    CertificateNotValid,
}

/// The two-digit decimal number of a status code.
pub open spec fn spec_value(c: Code) -> u8 {
    match c {
        Code::Unknown => 99,
        Code::Input => 10,
        Code::SensitiveInput => 11,
        Code::Success => 20,
        Code::RedirectTemporary => 30,
        Code::RedirectPermanent => 31,
        Code::TemporaryFailure => 40,
        Code::ServerUnavailable => 41,
        Code::CgiError => 42,
        Code::ProxyError => 43,
        Code::SlowDown => 44,
        Code::PermanentFailure => 50,
        Code::NotFound => 51,
        Code::Gone => 52,
        Code::ProxyRequestRefused => 53,
        Code::BadRequest => 59,
        Code::ClientCertificateRequired => 60,
        Code::CertificateNotAuthorised => 61,
        Code::CertificateNotValid => 62,
    }
}

/// The status line of a code, without the trailing CRLF: the two decimal
/// digits, then the canonical label — except for `Success`, whose meta
/// (a MIME type) is supplied by the caller instead of a label.
pub open spec fn spec_status_line(c: Code) -> Seq<char> {
    match c {
        Code::Unknown => "99 UNKNOWN"@,
        Code::Input => "10 INPUT"@,
        Code::SensitiveInput => "11 SENSITIVE INPUT"@,
        Code::Success => "20"@,
        Code::RedirectTemporary => "30 REDIRECT - TEMPORARY"@,
        Code::RedirectPermanent => "31 REDIRECT - PERMANENT"@,
        Code::TemporaryFailure => "40 TEMPORARY FAILURE"@,
        Code::ServerUnavailable => "41 SERVER UNAVAILABLE"@,
        Code::CgiError => "42 CGI ERROR"@,
        Code::ProxyError => "43 PROXY ERROR"@,
        Code::SlowDown => "44 SLOW DOWN"@,
        Code::PermanentFailure => "50 PERMANENT FAILURE"@,
        Code::NotFound => "51 NOT FOUND"@,
        Code::Gone => "52 GONE"@,
        Code::ProxyRequestRefused => "53 PROXY REQUEST REFUSED"@,
        Code::BadRequest => "59 BAD REQUEST"@,
        Code::ClientCertificateRequired => "60 CLIENT CERTIFICATE REQUIRED"@,
        Code::CertificateNotAuthorised => "61 CERTIFICATE NOT AUTHORISED"@,
        Code::CertificateNotValid => "62 CERTIFICATE NOT VALID"@,
    }
}

/// The characters of the full header line for a code: for `Success`,
/// `"20 <meta>\r\n"`; for every other code, `"<digits> <LABEL>\r\n"`,
/// with `meta` ignored.
pub open spec fn spec_header(c: Code, meta: Seq<char>) -> Seq<char> {
    if c is Success {
        spec_status_line(c) + " "@ + meta + "\r\n"@
    } else {
        spec_status_line(c) + "\r\n"@
    }
}

impl Code {
    /// The two-digit decimal number of this code.
    pub fn value(&self) -> (v: u8)
        ensures
            v == spec_value(*self),
    {
        match self {
            Code::Unknown => 99,
            Code::Input => 10,
            Code::SensitiveInput => 11,
            Code::Success => 20,
            Code::RedirectTemporary => 30,
            Code::RedirectPermanent => 31,
            Code::TemporaryFailure => 40,
            Code::ServerUnavailable => 41,
            Code::CgiError => 42,
            Code::ProxyError => 43,
            Code::SlowDown => 44,
            Code::PermanentFailure => 50,
            Code::NotFound => 51,
            Code::Gone => 52,
            Code::ProxyRequestRefused => 53,
            Code::BadRequest => 59,
            Code::ClientCertificateRequired => 60,
            Code::CertificateNotAuthorised => 61,
            Code::CertificateNotValid => 62,
        }
    }

    /// The status line of this code, without the trailing CRLF.
    pub fn status_line(&self) -> (r: &'static str)
        ensures
            r@ == spec_status_line(*self),
    {
        match self {
            Code::Unknown => "99 UNKNOWN",
            Code::Input => "10 INPUT",
            Code::SensitiveInput => "11 SENSITIVE INPUT",
            Code::Success => "20",
            Code::RedirectTemporary => "30 REDIRECT - TEMPORARY",
            Code::RedirectPermanent => "31 REDIRECT - PERMANENT",
            Code::TemporaryFailure => "40 TEMPORARY FAILURE",
            Code::ServerUnavailable => "41 SERVER UNAVAILABLE",
            Code::CgiError => "42 CGI ERROR",
            Code::ProxyError => "43 PROXY ERROR",
            Code::SlowDown => "44 SLOW DOWN",
            Code::PermanentFailure => "50 PERMANENT FAILURE",
            Code::NotFound => "51 NOT FOUND",
            Code::Gone => "52 GONE",
            Code::ProxyRequestRefused => "53 PROXY REQUEST REFUSED",
            Code::BadRequest => "59 BAD REQUEST",
            Code::ClientCertificateRequired => "60 CLIENT CERTIFICATE REQUIRED",
            Code::CertificateNotAuthorised => "61 CERTIFICATE NOT AUTHORISED",
            Code::CertificateNotValid => "62 CERTIFICATE NOT VALID",
        }
    }

    /// The UTF-8 bytes of the full header line for this code: the status
    /// line, the meta string (for `Success` only), and the closing CRLF.
    pub fn get_header(&self, meta: &str) -> (r: Vec<u8>)
        ensures
            r@ == encode_utf8(spec_header(*self, meta@)),
    {
        let mut line = String::from_str(self.status_line());
        if let Code::Success = self {
            line.append(" ");
            line.append(meta);
        }
        line.append("\r\n");
        proof {
            assert(line@ =~= spec_header(*self, meta@));
        }
        line.as_str().as_bytes_vec()
    }
}

/// Header round-trip: the header line of every status code, whatever
/// its meta, begins with the two decimal digits of the code's numeric
/// value — as characters, and as rendered UTF-8 bytes alike.
pub proof fn lemma_header_round_trip(c: Code, meta: Seq<char>)
    ensures
        spec_header(c, meta).len() >= 2,
        '0' <= spec_header(c, meta)[0] <= '9',
        '0' <= spec_header(c, meta)[1] <= '9',
        (spec_header(c, meta)[0] as u32 - '0' as u32) * 10 + (spec_header(c, meta)[1] as u32
            - '0' as u32) == spec_value(c),
        encode_utf8(spec_header(c, meta)).len() >= 2,
        (encode_utf8(spec_header(c, meta))[0] - 48) * 10 + (encode_utf8(spec_header(c, meta))[1]
            - 48) == spec_value(c),
{
    reveal_strlit("99 UNKNOWN");
    reveal_strlit("10 INPUT");
    reveal_strlit("11 SENSITIVE INPUT");
    reveal_strlit("20");
    reveal_strlit("30 REDIRECT - TEMPORARY");
    reveal_strlit("31 REDIRECT - PERMANENT");
    reveal_strlit("40 TEMPORARY FAILURE");
    reveal_strlit("41 SERVER UNAVAILABLE");
    reveal_strlit("42 CGI ERROR");
    reveal_strlit("43 PROXY ERROR");
    reveal_strlit("44 SLOW DOWN");
    reveal_strlit("50 PERMANENT FAILURE");
    reveal_strlit("51 NOT FOUND");
    reveal_strlit("52 GONE");
    reveal_strlit("53 PROXY REQUEST REFUSED");
    reveal_strlit("59 BAD REQUEST");
    reveal_strlit("60 CLIENT CERTIFICATE REQUIRED");
    reveal_strlit("61 CERTIFICATE NOT AUTHORISED");
    reveal_strlit("62 CERTIFICATE NOT VALID");
    reveal_strlit(" ");
    reveal_strlit("\r\n");
    lemma_encode_first_two_ascii(spec_header(c, meta));
}

/// The UTF-8 encoding of a sequence that begins with two ASCII
/// characters begins with those two characters as bytes.
proof fn lemma_encode_first_two_ascii(s: Seq<char>)
    requires
        s.len() >= 2,
        s[0] as u32 <= 0x7F,
        s[1] as u32 <= 0x7F,
    ensures
        encode_utf8(s).len() >= 2,
        encode_utf8(s)[0] == (s[0] as u32) as u8,
        encode_utf8(s)[1] == (s[1] as u32) as u8,
{
    let u0 = s[0] as u32;
    let u1 = s[1] as u32;
    assert(u0 & 0x7F == u0) by (bit_vector)
        requires
            u0 <= 0x7F,
    ;
    assert(u1 & 0x7F == u1) by (bit_vector)
        requires
            u1 <= 0x7F,
    ;
    let rest = s.drop_first();
    assert(encode_utf8(s) == vstd::utf8::encode_scalar(u0) + encode_utf8(rest));
    assert(rest[0] == s[1]);
    assert(encode_utf8(rest) == vstd::utf8::encode_scalar(u1) + encode_utf8(rest.drop_first()));
    assert(vstd::utf8::encode_scalar(u0) =~= seq![(u0 & 0x7F) as u8]);
    assert(vstd::utf8::encode_scalar(u1) =~= seq![(u1 & 0x7F) as u8]);
    assert(encode_utf8(s)[0] == (u0 & 0x7F) as u8);
    assert(encode_utf8(s)[1] == encode_utf8(rest)[0]);
    assert(encode_utf8(rest)[0] == (u1 & 0x7F) as u8);
}

/// A missing file is answered with exactly the NOT FOUND status line,
/// whatever meta a caller might offer.
pub proof fn lemma_not_found_header(meta: Seq<char>)
    ensures
        spec_header(Code::NotFound, meta) == "51 NOT FOUND\r\n"@,
{
    reveal_strlit("51 NOT FOUND");
    reveal_strlit("\r\n");
    reveal_strlit("51 NOT FOUND\r\n");
    assert(spec_header(Code::NotFound, meta) =~= "51 NOT FOUND\r\n"@);
}

/// The fixed banner appended to the body of every `text/gemini` response.
pub open spec fn spec_footer() -> Seq<char> {
    "\n\n~~~~ served by laika ~~~~~~~~~\nhttps://sr.ht/~gbmor/laika\n\n"@
}

/// The UTF-8 bytes of the footer banner.
pub fn footer_bytes<'a>() -> (r: &'a [u8])
    ensures
        r@ == encode_utf8(spec_footer()),
{
    "\n\n~~~~ served by laika ~~~~~~~~~\nhttps://sr.ht/~gbmor/laika\n\n".as_bytes()
}

} // verus!
