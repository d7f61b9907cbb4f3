//! The Sutian adapter: the site serves a mobile and a desktop table in one
//! document; the mobile shape is tried first, and only its first matching
//! row pair is used. An entry whose word or pronunciation trims to nothing
//! is suppressed entirely.
use vstd::prelude::*;
use vstd::string::StrSliceExecFns;
use vstd::string::StringExecFns;
use crate::fetch::Fetched;
use crate::fetch::result_view;
use crate::html::SelMatch;
use crate::html::select_matches;
use crate::html::selected_of;
use crate::text::first_line;
use crate::text::first_line_str;
use crate::text::trim_spec;
use crate::text::trim_str;
use crate::urls::encoded_of;
use crate::urls::percent_encode;
use crate::urls::resolve_href;
use crate::urls::resolve_url;

verus! {

/// The site's base URL, which relative links are resolved against.
pub open spec fn sutian_base() -> Seq<char> {
    "https://sutian.moe.edu.tw"@
}

/// The query URL for a keyword.
pub open spec fn sutian_url_spec(keyword: Seq<char>) -> Seq<char> {
    "https://sutian.moe.edu.tw/zh-hant/tshiau/?lui=hua_su&tsha="@ + encoded_of(keyword)
}

/// Builds the query URL, proved against `sutian_url_spec`.
pub fn sutian_url(keyword: &str) -> (r: String)
    ensures
        r@ == sutian_url_spec(keyword@),
{
    let mut s = String::from_str("https://sutian.moe.edu.tw/zh-hant/tshiau/?lui=hua_su&tsha=");
    let e = percent_encode(keyword);
    s.append(e.as_str());
    s
}

/// The lines one (link, pronunciation) pair yields: one entry, or none when
/// the trimmed word or the trimmed first pronunciation line is empty. The
/// pronunciation keeps only its first line; later lines hold auxiliary
/// notes.
pub open spec fn sutian_entry(link: SelMatch, pron: SelMatch) -> Seq<Seq<char>> {
    let word = trim_spec(link.text@);
    let p = trim_spec(first_line(trim_spec(pron.text@)));
    let href = match link.href {
        Some(h) => h@,
        None => ""@,
    };
    if word.len() > 0 && p.len() > 0 {
        seq!["\u{1F4DA} "@ + word + " ["@ + p + "] - "@ + resolve_href(sutian_base(), href)]
    } else {
        Seq::empty()
    }
}

/// Which table shape wins: the mobile pair when both its selectors matched
/// something, otherwise the desktop pair, otherwise nothing.
pub open spec fn sutian_rows(
    ml: Seq<SelMatch>,
    mp: Seq<SelMatch>,
    dl: Seq<SelMatch>,
    dp: Seq<SelMatch>,
) -> Seq<Seq<char>> {
    if ml.len() > 0 && mp.len() > 0 {
        sutian_entry(ml[0], mp[0])
    } else if dl.len() > 0 && dp.len() > 0 {
        sutian_entry(dl[0], dp[0])
    } else {
        Seq::empty()
    }
}

/// What parsing a fetched body yields; each of the four fixed selectors
/// reports its own compile failure, in the order they are built.
pub open spec fn sutian_parse_spec(body: Seq<char>) -> Result<Seq<Seq<char>>, Seq<char>> {
    let ml = selected_of(body, "table.d-md-none tbody tr:nth-child(2) td a"@);
    let dl = selected_of(body, "table.d-none.d-md-table tbody tr td:nth-child(2) a"@);
    let mp = selected_of(body, "table.d-md-none tbody tr:nth-child(3) td"@);
    let dp = selected_of(body, "table.d-none.d-md-table tbody tr td:nth-child(3)"@);
    if ml is None {
        Err("Could not parse Sutian mobile selector"@)
    } else if dl is None {
        Err("Could not parse Sutian desktop selector"@)
    } else if mp is None {
        Err("Could not parse Sutian mobile pronunciation selector"@)
    } else if dp is None {
        Err("Could not parse Sutian desktop pronunciation selector"@)
    } else {
        Ok(sutian_rows(ml->0@, mp->0@, dl->0@, dp->0@))
    }
}

/// The whole lookup as a function of the transfer's outcome.
pub open spec fn search_sutian_spec(f: Fetched) -> Result<Seq<Seq<char>>, Seq<char>> {
    match f {
        Fetched::Body(b) => sutian_parse_spec(b@),
        Fetched::FetchFailed => Err("Error fetching from Sutian"@),
        Fetched::ReadFailed => Err("Error reading response from Sutian"@),
    }
}

fn sutian_entry_lines(link: &SelMatch, pron: &SelMatch) -> (out: Vec<String>)
    ensures
        out.deep_view() == sutian_entry(*link, *pron),
        out@.len() <= 1,
{
    let word = trim_str(link.text.as_str());
    let praw = trim_str(pron.text.as_str());
    let pline = first_line_str(praw);
    let p = trim_str(pline);
    let href: &str = match &link.href {
        Some(h) => h.as_str(),
        None => "",
    };
    let mut out: Vec<String> = Vec::new();
    if word.unicode_len() > 0 && p.unicode_len() > 0 {
        let url = resolve_url("https://sutian.moe.edu.tw", href);
        let mut line = String::from_str("\u{1F4DA} ");
        line.append(word);
        line.append(" [");
        line.append(p);
        line.append("] - ");
        line.append(url.as_str());
        proof {
            assert(line@ =~= sutian_entry(*link, *pron)[0]);
        }
        out.push(line);
        proof {
            assert(out.deep_view() =~= sutian_entry(*link, *pron));
        }
    } else {
        proof {
            assert(out.deep_view() =~= Seq::<Seq<char>>::empty());
        }
    }
    out
}

/// Parses a fetched body, proved against `sutian_parse_spec`.
pub fn sutian_parse(body: &str) -> (r: Result<Vec<String>, String>)
    ensures
        result_view(r) == sutian_parse_spec(body@),
        r matches Ok(v) ==> v@.len() <= 1,
{
    let ml = match select_matches(body, "table.d-md-none tbody tr:nth-child(2) td a") {
        Some(v) => v,
        None => {
            return Err(String::from_str("Could not parse Sutian mobile selector"));
        },
    };
    let dl = match select_matches(body, "table.d-none.d-md-table tbody tr td:nth-child(2) a") {
        Some(v) => v,
        None => {
            return Err(String::from_str("Could not parse Sutian desktop selector"));
        },
    };
    let mp = match select_matches(body, "table.d-md-none tbody tr:nth-child(3) td") {
        Some(v) => v,
        None => {
            return Err(String::from_str("Could not parse Sutian mobile pronunciation selector"));
        },
    };
    let dp = match select_matches(body, "table.d-none.d-md-table tbody tr td:nth-child(3)") {
        Some(v) => v,
        None => {
            return Err(String::from_str("Could not parse Sutian desktop pronunciation selector"));
        },
    };
    let out: Vec<String> = if ml.len() > 0 && mp.len() > 0 {
        sutian_entry_lines(&ml[0], &mp[0])
    } else if dl.len() > 0 && dp.len() > 0 {
        sutian_entry_lines(&dl[0], &dp[0])
    } else {
        let empty: Vec<String> = Vec::new();
        proof {
            assert(empty.deep_view() =~= Seq::<Seq<char>>::empty());
        }
        empty
    };
    Ok(out)
}

/// The Sutian lookup past the HTTP transfer, proved against
/// `search_sutian_spec`. At most one line ever comes back.
pub fn search_sutian(f: &Fetched) -> (r: Result<Vec<String>, String>)
    ensures
        result_view(r) == search_sutian_spec(*f),
        r matches Ok(v) ==> v@.len() <= 1,
{
    match f {
        Fetched::Body(b) => sutian_parse(b.as_str()),
        Fetched::FetchFailed => Err(String::from_str("Error fetching from Sutian")),
        Fetched::ReadFailed => Err(String::from_str("Error reading response from Sutian")),
    }
}

} // verus!
