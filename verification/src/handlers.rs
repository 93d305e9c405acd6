//! The per-request pipeline up to the filesystem: strip the line ending,
//! decode, refuse traversal attempts, parse the URL, check the scheme,
//! and resolve the request path against the served root.

use vstd::prelude::*;
use vstd::slice::slice_subrange;
use vstd::string::StrSliceExecFns;
use vstd::string::StringExecFns;
use vstd::utf8::decode_utf8;
use vstd::utf8::valid_utf8;

use crate::err::Supernova;
use crate::response::Code;
use crate::text::contains_sub;
use crate::text::spec_contains;
use crate::text::str_eq;

verus! {

/// The request line without its trailing CRLF (or bare LF).
/// Bytes 13 and 10 are CR and LF.
pub open spec fn spec_strip_crlf(b: Seq<u8>) -> Seq<u8> {
    if b.len() >= 2 && b[b.len() - 2] == 13 && b[b.len() - 1] == 10 {
        b.take(b.len() - 2)
    } else if b.len() >= 1 && b[b.len() - 1] == 10 {
        b.take(b.len() - 1)
    } else {
        b
    }
}

/// Drops a trailing CRLF, or a trailing bare LF, from the raw request.
pub fn strip_crlf(buf: &[u8]) -> (r: &[u8])
    ensures
        r@ == spec_strip_crlf(buf@),
{
    let n = buf.len();
    if n >= 2 && buf[n - 2] == 13 && buf[n - 1] == 10 {
        let r = slice_subrange(buf, 0, n - 2);
        proof {
            assert(r@ =~= spec_strip_crlf(buf@));
        }
        r
    } else if n >= 1 && buf[n - 1] == 10 {
        let r = slice_subrange(buf, 0, n - 1);
        proof {
            assert(r@ =~= spec_strip_crlf(buf@));
        }
        r
    } else {
        buf
    }
}

/// Relies on core::str::from_utf8: it returns `Ok` exactly on
/// well-formed UTF-8, and then the decoding of the bytes.
#[verifier::external_body]
fn utf8_to_str(b: &[u8]) -> (r: Option<&str>)
    ensures
        r is Some <==> valid_utf8(b@),
        r matches Some(s) ==> s@ == decode_utf8(b@),
{
    core::str::from_utf8(b).ok()
}

/// What `url::Url::parse` makes of a string: `Some((scheme, path))` where
/// the string parses as an absolute URL, `None` where it does not.  The
/// parse reads nothing but the string, so its outcome is a function of
/// the string alone.
pub uninterp spec fn url_parts_of(s: Seq<char>) -> Option<(Seq<char>, Seq<char>)>;

/// Relies on url::Url::parse, with Url::scheme and Url::path reading the
/// scheme and path components out of the parsed URL.
#[verifier::external_body]
fn parse_url(s: &str) -> (r: Option<(String, String)>)
    ensures
        r is Some <==> url_parts_of(s@) is Some,
        r matches Some(p) ==> url_parts_of(s@) == Some((p.0@, p.1@)),
{
    match url::Url::parse(s) {
        Ok(u) => Some((u.scheme().to_string(), u.path().to_string())),
        Err(_) => None,
    }
}

/// What validation makes of one raw request read: the URL path to serve,
/// or the status code to answer with.  The checks run in order and stop
/// at the first failure: UTF-8 decoding, the traversal scan over the
/// untouched decoded string, URL parsing, and the scheme check.
pub open spec fn spec_entrance(buf: Seq<u8>) -> Result<Seq<char>, Code> {
    let line = spec_strip_crlf(buf);
    if !valid_utf8(line) {
        Err(Code::BadRequest)
    } else {
        let req = decode_utf8(line);
        if spec_contains(req, "../"@) || spec_contains(req, "/.."@) {
            Err(Code::BadRequest)
        } else {
            match url_parts_of(req) {
                Option::None => Err(Code::BadRequest),
                Option::Some(parts) => if parts.0 != "gemini"@ {
                    Err(Code::ProxyRequestRefused)
                } else {
                    Ok(parts.1)
                },
            }
        }
    }
}

/// Validates one raw request read and returns the URL path to serve.
///
/// A read that does not decode as UTF-8 is refused as BAD REQUEST, not
/// replaced by a default request.  A request that decodes to a string
/// holding a `..` path segment (`../` or `/..`) is refused before the
/// URL is parsed, and nothing later in the pipeline sees it.
pub fn entrance(buf: &[u8]) -> (r: Result<String, Supernova>)
    ensures
        r is Ok <==> spec_entrance(buf@) is Ok,
        r matches Ok(path) ==> spec_entrance(buf@) == Ok::<Seq<char>, Code>(path@),
        r matches Err(e) ==> spec_entrance(buf@) == Err::<Seq<char>, Code>(e.spec_code()),
{
    let line = strip_crlf(buf);
    let req = match utf8_to_str(line) {
        Option::Some(s) => s,
        Option::None => {
            let mut e = Supernova::boom("failed to parse request as UTF-8 string");
            return Err(e.with_code(Code::BadRequest));
        },
    };
    if contains_sub(req, "../") || contains_sub(req, "/..") {
        let mut e = Supernova::boom("directory traversal attempted");
        return Err(e.with_code(Code::BadRequest));
    }
    let parts = match parse_url(req) {
        Option::Some(p) => p,
        Option::None => {
            let mut e = Supernova::boom("could not parse request as URL");
            return Err(e.with_code(Code::BadRequest));
        },
    };
    if !str_eq(parts.0.as_str(), "gemini") {
        let mut e = Supernova::boom("invalid URL scheme. refusing to proxy");
        return Err(e.with_code(Code::ProxyRequestRefused));
    }
    Ok(parts.1)
}

/// The filesystem target for a validated URL path: the served root with
/// the path appended, and the index file name appended too where the
/// path is empty or names a directory by its trailing slash.
pub open spec fn spec_resolve(root: Seq<char>, index: Seq<char>, path: Seq<char>) -> Seq<char> {
    if path.len() == 0 || path[path.len() - 1] == '/' {
        root + path + index
    } else {
        root + path
    }
}

/// Maps a validated URL path to its filesystem target under `root`.
pub fn resolve_path(root: &str, index: &str, path: &str) -> (r: String)
    ensures
        r@ == spec_resolve(root@, index@, path@),
{
    let mut target = String::from_str(root);
    target.append(path);
    let n = path.unicode_len();
    if n == 0 || path.get_char(n - 1) == '/' {
        target.append(index);
    }
    target
}

/// Validates one raw request read and resolves it to a filesystem
/// target in one step: the compute half of request routing.
pub fn route_target(buf: &[u8], root: &str, index: &str) -> (r: Result<String, Supernova>)
    ensures
        r is Ok <==> spec_entrance(buf@) is Ok,
        r matches Ok(target) ==> spec_entrance(buf@) matches Ok(p) && target@ == spec_resolve(
            root@,
            index@,
            p,
        ),
        r matches Err(e) ==> spec_entrance(buf@) == Err::<Seq<char>, Code>(e.spec_code()),
{
    match entrance(buf) {
        Ok(path) => Ok(resolve_path(root, index, path.as_str())),
        Err(e) => Err(e),
    }
}

/// A request whose decoded string holds a traversal marker (`../` or
/// `/..`) is refused as BAD REQUEST by validation itself: the URL is
/// never parsed for it, no path is resolved, and nothing later in the
/// pipeline — path resolution, the filesystem — ever sees it.
pub proof fn lemma_traversal_refused(buf: Seq<u8>)
    requires
        valid_utf8(spec_strip_crlf(buf)),
        spec_contains(decode_utf8(spec_strip_crlf(buf)), "../"@) || spec_contains(
            decode_utf8(spec_strip_crlf(buf)),
            "/.."@,
        ),
    ensures
        spec_entrance(buf) == Err::<Seq<char>, Code>(Code::BadRequest),
{
}

/// A request whose URL parses with a scheme other than `gemini` is
/// refused with a bad-request-class code: validation returns no path
/// for it, so no filesystem access can follow.
pub proof fn lemma_foreign_scheme_refused(buf: Seq<u8>)
    requires
        valid_utf8(spec_strip_crlf(buf)),
        url_parts_of(decode_utf8(spec_strip_crlf(buf))) matches Some(parts) && parts.0
            != "gemini"@,
    ensures
        spec_entrance(buf) matches Err(c) && (c == Code::BadRequest || c
            == Code::ProxyRequestRefused),
{
}

} // verus!
