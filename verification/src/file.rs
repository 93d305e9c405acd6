//! The content half of a request: mapping filesystem failures to status
//! codes, directory-to-index substitution, MIME classification of the
//! bytes to serve, and assembly of the successful response.

use vstd::prelude::*;
use vstd::string::StringExecFns;
use vstd::utf8::encode_utf8;

use crate::response::Code;
use crate::response::footer_bytes;
use crate::response::spec_footer;
use crate::response::spec_header;
use crate::text::contains_sub;
use crate::text::ends_with_sub;
use crate::text::spec_contains;
use crate::text::spec_ends_with;
use crate::text::spec_starts_with;
use crate::text::starts_with_sub;

verus! {

/// The status code for a failed metadata query or open: a missing file
/// answers NOT FOUND, any other filesystem error PERMANENT FAILURE.
pub fn fs_error_code(not_found: bool) -> (c: Code)
    ensures
        c == (if not_found {
            Code::NotFound
        } else {
            Code::PermanentFailure
        }),
{
    if not_found {
        Code::NotFound
    } else {
        Code::PermanentFailure
    }
}

/// The second filesystem target when the first turns out to name a
/// directory: the directory with a slash and the index file name appended.
pub fn index_target(path: &str, index: &str) -> (r: String)
    ensures
        r@ == path@ + "/"@ + index@,
{
    let mut target = String::from_str(path);
    target.append("/");
    target.append(index);
    target
}

/// The filesystem target to open once the first target has been
/// queried: the target itself, or — where the query found a directory —
/// the directory's index file.  The substitution happens once; there is
/// no repeated resolution.
pub fn target_after_stat(target: String, is_dir: bool, index: &str) -> (r: String)
    ensures
        r@ == (if is_dir {
            target@ + "/"@ + index@
        } else {
            target@
        }),
{
    if is_dir {
        index_target(target.as_str(), index)
    } else {
        target
    }
}

/// Relies on tree_magic_mini::from_u8: MIME classification of a byte
/// stream against the crate's embedded freedesktop database.  Where
/// several types match, which one comes back may differ from process to
/// process, so nothing is assumed of the result.
#[verifier::external_body]
fn sniff_mime(bytes: &[u8]) -> &'static str {
    tree_magic_mini::from_u8(bytes)
}

/// A MIME string with `; charset=utf-8` appended where the type is
/// textual and no charset is present yet; any other string is unchanged.
pub open spec fn spec_with_charset(m: Seq<char>) -> Seq<char> {
    if spec_contains(m, "text/"@) && !spec_contains(m, "; charset=utf-8"@) {
        m + "; charset=utf-8"@
    } else {
        m
    }
}

/// Appends `; charset=utf-8` to a textual MIME type that lacks a
/// charset parameter; a non-text type comes back unchanged.
pub fn mime_with_charset(mime: String) -> (r: String)
    ensures
        r@ == spec_with_charset(mime@),
{
    if contains_sub(mime.as_str(), "text/") && !contains_sub(mime.as_str(), "; charset=utf-8") {
        mime.concat("; charset=utf-8")
    } else {
        mime
    }
}

/// The canonical MIME string served for `text/gemini` content.
pub open spec fn spec_gemini_mime() -> Seq<char> {
    "text/gemini; charset=utf-8"@
}

/// The MIME string to serve for a file: a `.gmi` file is `text/gemini`
/// with the utf-8 charset; anything else is sniffed from its bytes,
/// with the charset appended where the sniffed type is textual.
pub fn mime_for(path: &str, bytes: &[u8]) -> (r: String)
    ensures
        spec_ends_with(path@, ".gmi"@) ==> r@ == spec_gemini_mime(),
        !spec_ends_with(path@, ".gmi"@) ==> exists|m: Seq<char>| r@ == #[trigger] spec_with_charset(
            m,
        ),
{
    if ends_with_sub(path, ".gmi") {
        String::from_str("text/gemini; charset=utf-8")
    } else {
        mime_with_charset(String::from_str(sniff_mime(bytes)))
    }
}

/// Whether a response of the given MIME carries the footer banner:
/// exactly the `text/gemini` responses do.
pub open spec fn spec_is_gemini(m: Seq<char>) -> bool {
    spec_starts_with(m, "text/gemini"@)
}

/// The body of a successful response: the file bytes, with the footer
/// banner appended to `text/gemini` content only.
pub fn body_with_footer(bytes: Vec<u8>, mime: &str) -> (r: Vec<u8>)
    ensures
        r@ == (if spec_is_gemini(mime@) {
            bytes@ + encode_utf8(spec_footer())
        } else {
            bytes@
        }),
{
    let mut body = bytes;
    if starts_with_sub(mime, "text/gemini") {
        body.extend_from_slice(footer_bytes());
    }
    body
}

/// The MIME, header and body of a successful response for the file at
/// `path` whose contents are `bytes`: the compute half of serving a
/// file once its bytes are in hand.
pub fn serve_file(path: &str, bytes: Vec<u8>) -> (r: (String, Vec<u8>, Vec<u8>))
    ensures
        r.1@ == encode_utf8(spec_header(Code::Success, r.0@)),
        r.2@ == (if spec_is_gemini(r.0@) {
            bytes@ + encode_utf8(spec_footer())
        } else {
            bytes@
        }),
        spec_ends_with(path@, ".gmi"@) ==> r.0@ == spec_gemini_mime() && r.2@ == bytes@
            + encode_utf8(spec_footer()),
        !spec_ends_with(path@, ".gmi"@) ==> exists|m: Seq<char>| r.0@ == #[trigger] spec_with_charset(
            m,
        ),
{
    let mime = mime_for(path, bytes.as_slice());
    let header = Code::Success.get_header(mime.as_str());
    proof {
        if spec_ends_with(path@, ".gmi"@) {
            reveal_strlit("text/gemini; charset=utf-8");
            reveal_strlit("text/gemini");
            assert(spec_gemini_mime().subrange(0, 11) =~= "text/gemini"@);
        }
    }
    let body = body_with_footer(bytes, mime.as_str());
    (mime, header, body)
}

} // verus!
