//! The TaigiTV adapter: an HTML page whose result anchors sit under a fixed
//! container path. Up to three anchors become display lines.
use vstd::prelude::*;
use vstd::string::StringExecFns;
use crate::fetch::Fetched;
use crate::fetch::result_view;
use crate::html::SelMatch;
use crate::html::select_matches;
use crate::html::selected_of;
use crate::text::trim_spec;
use crate::text::trim_str;
use crate::urls::encoded_of;
use crate::urls::percent_encode;
use crate::urls::resolve_href;
use crate::urls::resolve_url;

verus! {

/// The site's base URL, which relative links are resolved against.
pub open spec fn taigitv_base() -> Seq<char> {
    "https://www.taigitv.org.tw"@
}

/// The query URL for a keyword.
pub open spec fn taigitv_url_spec(keyword: Seq<char>) -> Seq<char> {
    "https://www.taigitv.org.tw/taigi-words?keyword="@ + encoded_of(keyword)
}

/// Builds the query URL, proved against `taigitv_url_spec`.
pub fn taigitv_url(keyword: &str) -> (r: String)
    ensures
        r@ == taigitv_url_spec(keyword@),
{
    let mut s = String::from_str("https://www.taigitv.org.tw/taigi-words?keyword=");
    let e = percent_encode(keyword);
    s.append(e.as_str());
    s
}

/// The display line for one matched anchor with `href` present.
pub open spec fn taigitv_line(m: SelMatch, href: Seq<char>) -> Seq<char> {
    "\u{1F4FA} "@ + trim_spec(m.text@) + " - "@ + resolve_href(taigitv_base(), href)
}

/// The lines for the first `budget` anchors that carry an `href`; one
/// without an `href` is passed over without spending budget.
pub open spec fn taigitv_pick(ms: Seq<SelMatch>, budget: nat) -> Seq<Seq<char>>
    decreases ms.len(),
{
    if budget == 0 || ms.len() == 0 {
        Seq::empty()
    } else {
        match ms[0].href {
            Some(h) => seq![taigitv_line(ms[0], h@)] + taigitv_pick(
                ms.drop_first(),
                (budget - 1) as nat,
            ),
            None => taigitv_pick(ms.drop_first(), budget),
        }
    }
}

/// What parsing a fetched body yields.
pub open spec fn taigitv_parse_spec(body: Seq<char>) -> Result<Seq<Seq<char>>, Seq<char>> {
    match selected_of(body, ".btngaa .h3 a"@) {
        Some(ms) => Ok(taigitv_pick(ms@, 3)),
        None => Err("Could not parse TaigiTV selector"@),
    }
}

/// The whole lookup as a function of the transfer's outcome.
pub open spec fn search_taigitv_spec(f: Fetched) -> Result<Seq<Seq<char>>, Seq<char>> {
    match f {
        Fetched::Body(b) => taigitv_parse_spec(b@),
        Fetched::FetchFailed => Err("Error fetching from TaigiTV"@),
        Fetched::ReadFailed => Err("Error reading response from TaigiTV"@),
    }
}

fn taigitv_collect(ms: &Vec<SelMatch>) -> (out: Vec<String>)
    ensures
        out.deep_view() == taigitv_pick(ms@, 3),
        out@.len() <= 3,
{
    let mut out: Vec<String> = Vec::new();
    let n = ms.len();
    let mut i: usize = 0;
    proof {
        assert(ms@.skip(0) =~= ms@);
    }
    while i < n && out.len() < 3
        invariant
            0 <= i <= n,
            n == ms@.len(),
            out@.len() <= 3,
            out.deep_view().len() == out@.len(),
            taigitv_pick(ms@, 3) == out.deep_view() + taigitv_pick(
                ms@.skip(i as int),
                (3 - out@.len()) as nat,
            ),
        decreases n - i,
    {
        proof {
            assert(ms@.skip(i as int)[0] == ms@[i as int]);
            assert(ms@.skip(i as int).drop_first() =~= ms@.skip(i + 1));
        }
        match &ms[i].href {
            Some(h) => {
                let text = trim_str(ms[i].text.as_str());
                let url = resolve_url("https://www.taigitv.org.tw", h.as_str());
                let mut line = String::from_str("\u{1F4FA} ");
                line.append(text);
                line.append(" - ");
                line.append(url.as_str());
                proof {
                    assert(line@ =~= taigitv_line(ms@[i as int], h@));
                }
                let ghost prev = out.deep_view();
                let ghost lv = line@;
                let ghost rest = taigitv_pick(ms@.skip(i + 1), (3 - (out@.len() + 1)) as nat);
                out.push(line);
                proof {
                    assert(out.deep_view() =~= prev.push(lv));
                    assert(prev.push(lv) =~= prev + seq![lv]);
                    assert(prev + seq![lv] + rest =~= (prev + seq![lv]) + rest);
                    assert(prev + seq![lv] + rest =~= prev + (seq![lv] + rest));
                }
            },
            None => {},
        }
        i = i + 1;
    }
    proof {
        if i >= n {
            assert(ms@.skip(n as int) =~= Seq::<SelMatch>::empty());
        }
        assert(out.deep_view() + Seq::<Seq<char>>::empty() =~= out.deep_view());
    }
    out
}

/// Parses a fetched body, proved against `taigitv_parse_spec`.
pub fn taigitv_parse(body: &str) -> (r: Result<Vec<String>, String>)
    ensures
        result_view(r) == taigitv_parse_spec(body@),
        r matches Ok(v) ==> v@.len() <= 3,
{
    match select_matches(body, ".btngaa .h3 a") {
        Some(ms) => Ok(taigitv_collect(&ms)),
        None => Err(String::from_str("Could not parse TaigiTV selector")),
    }
}

/// The TaigiTV lookup past the HTTP transfer, proved against
/// `search_taigitv_spec`. At most three lines come back.
pub fn search_taigitv(f: &Fetched) -> (r: Result<Vec<String>, String>)
    ensures
        result_view(r) == search_taigitv_spec(*f),
        r matches Ok(v) ==> v@.len() <= 3,
{
    match f {
        Fetched::Body(b) => taigitv_parse(b.as_str()),
        Fetched::FetchFailed => Err(String::from_str("Error fetching from TaigiTV")),
        Fetched::ReadFailed => Err(String::from_str("Error reading response from TaigiTV")),
    }
}

} // verus!
