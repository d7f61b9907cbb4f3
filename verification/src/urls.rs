//! Query-string encoding and resolution of `href` values against a site's
//! base URL.
use vstd::prelude::*;
use vstd::string::StringExecFns;
use crate::text::has_prefix;
use crate::text::starts_with_str;

verus! {

/// The percent-encoded form of `s`, as `urlencoding::encode` produces it.
pub uninterp spec fn encoded_of(s: Seq<char>) -> Seq<char>;

/// Relies on `urlencoding::encode`: percent-encodes every byte of the UTF-8
/// form of `s` except ASCII alphanumerics and `-`, `_`, `.`, `~`. The result
/// depends on the characters of `s` alone; an empty input stays empty.
#[verifier::external_body]
pub(crate) fn percent_encode(s: &str) -> (r: String)
    ensures
        r@ == encoded_of(s@),
        s@.len() == 0 ==> r@.len() == 0,
{
    urlencoding::encode(s).into_owned()
}

/// How an `href` is made absolute: one that names a scheme is kept, a
/// root-relative one is appended to the site's base, and any other is
/// appended behind a single slash.
pub open spec fn resolve_href(base: Seq<char>, href: Seq<char>) -> Seq<char> {
    if has_prefix(href, "http"@) {
        href
    } else if has_prefix(href, "/"@) {
        base + href
    } else {
        base + "/"@ + href
    }
}

/// Makes `href` absolute against `base`, proved against `resolve_href`.
pub fn resolve_url(base: &str, href: &str) -> (r: String)
    ensures
        r@ == resolve_href(base@, href@),
{
    if starts_with_str(href, "http") {
        String::from_str(href)
    } else if starts_with_str(href, "/") {
        let mut s = String::from_str(base);
        s.append(href);
        s
    } else {
        let mut s = String::from_str(base);
        s.append("/");
        s.append(href);
        s
    }
}

/// The three resolution branches are total and mutually exclusive: for any
/// `href` exactly one of them applies, and `resolve_href` returns that
/// branch's URL. When the base itself names a scheme, no output of
/// `resolve_href` is left relative.
pub proof fn lemma_resolve_total(base: Seq<char>, href: Seq<char>)
    ensures
        has_prefix(href, "http"@) || (!has_prefix(href, "http"@) && has_prefix(href, "/"@)) || (
        !has_prefix(href, "http"@) && !has_prefix(href, "/"@)),
        has_prefix(href, "http"@) ==> resolve_href(base, href) == href,
        !has_prefix(href, "http"@) && has_prefix(href, "/"@) ==> resolve_href(base, href) == base
            + href,
        !has_prefix(href, "http"@) && !has_prefix(href, "/"@) ==> resolve_href(base, href) == base
            + "/"@ + href,
        has_prefix(base, "http"@) ==> has_prefix(resolve_href(base, href), "http"@),
{
    if !has_prefix(href, "http"@) && has_prefix(base, "http"@) {
        reveal_strlit("http");
        if has_prefix(href, "/"@) {
            assert((base + href).subrange(0, 4) =~= base.subrange(0, 4));
        } else {
            assert((base + "/"@ + href).subrange(0, 4) =~= base.subrange(0, 4));
        }
    }
}

} // verus!
