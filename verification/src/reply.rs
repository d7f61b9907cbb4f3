//! The fan-in and the reply: the three adapter outcomes are partitioned in
//! fixed source order into result lines and error entries, and one reply is
//! composed from the pair — a text message, or a bare "no result" reaction
//! when nothing came back and nothing failed.
use vstd::prelude::*;
use vstd::string::StrSliceExecFns;
use vstd::string::StringExecFns;
use crate::fetch::Fetched;
use crate::fetch::result_view;
use crate::itaigi::search_itaigi;
use crate::itaigi::search_itaigi_spec;
use crate::sutian::search_sutian;
use crate::sutian::search_sutian_spec;
use crate::taigitv::search_taigitv;
use crate::taigitv::search_taigitv_spec;
use crate::text::dec_nat;
use crate::text::dec_usize;
use crate::text::join_strings;
use crate::text::join_with;
use crate::text::trim_spec;
use crate::text::trim_str;

verus! {

/// The merged outcome of one request: every source's result lines in fixed
/// source order, and one formatted error entry per failed source.
pub struct Aggregate {
    pub results: Vec<String>,
    pub errors: Vec<String>,
}

/// The lines a source contributes to the merged results: its own on
/// success, none on failure.
pub open spec fn oks(r: Result<Seq<Seq<char>>, Seq<char>>) -> Seq<Seq<char>> {
    match r {
        Ok(v) => v,
        Err(_) => Seq::empty(),
    }
}

/// The entries a source contributes to the error list: exactly one, named
/// after it, on failure.
pub open spec fn errs(name: Seq<char>, r: Result<Seq<Seq<char>>, Seq<char>>) -> Seq<Seq<char>> {
    match r {
        Ok(_) => Seq::empty(),
        Err(e) => seq![name + ": "@ + e],
    }
}

/// The merged result lines, in fixed source order.
pub open spec fn aggregate_results(
    ta: Result<Seq<Seq<char>>, Seq<char>>,
    su: Result<Seq<Seq<char>>, Seq<char>>,
    it: Result<Seq<Seq<char>>, Seq<char>>,
) -> Seq<Seq<char>> {
    oks(ta) + oks(su) + oks(it)
}

/// The merged error entries, in fixed source order.
pub open spec fn aggregate_errors(
    ta: Result<Seq<Seq<char>>, Seq<char>>,
    su: Result<Seq<Seq<char>>, Seq<char>>,
    it: Result<Seq<Seq<char>>, Seq<char>>,
) -> Seq<Seq<char>> {
    errs("TaigiTV"@, ta) + errs("Sutian"@, su) + errs("iTaigi"@, it)
}

fn push_outcome(
    results: &mut Vec<String>,
    errors: &mut Vec<String>,
    name: &str,
    r: Result<Vec<String>, String>,
)
    ensures
        final(results).deep_view() == old(results).deep_view() + oks(result_view(r)),
        final(errors).deep_view() == old(errors).deep_view() + errs(name@, result_view(r)),
{
    match r {
        Ok(v) => {
            let n = v.len();
            let mut k: usize = 0;
            while k < n
                invariant
                    0 <= k <= n,
                    n == v@.len(),
                    results.deep_view() == old(results).deep_view() + v.deep_view().take(k as int),
                    errors == old(errors),
                decreases n - k,
            {
                let ghost prev = results.deep_view();
                let line = v[k].clone();
                results.push(line);
                proof {
                    assert(results.deep_view() =~= prev.push(v.deep_view()[k as int]));
                    assert(prev.push(v.deep_view()[k as int]) =~= old(results).deep_view()
                        + v.deep_view().take(k + 1));
                }
                k = k + 1;
            }
            proof {
                assert(v.deep_view().take(n as int) =~= v.deep_view());
                assert(errors.deep_view() =~= errors.deep_view() + Seq::<Seq<char>>::empty());
            }
        },
        Err(e) => {
            let mut m = String::from_str(name);
            m.append(": ");
            m.append(e.as_str());
            let ghost eprev = errors.deep_view();
            errors.push(m);
            proof {
                assert(errors.deep_view() =~= eprev + errs(name@, result_view(r)));
                assert(results.deep_view() =~= results.deep_view() + Seq::<Seq<char>>::empty());
            }
        },
    }
}

/// Settles the three outcomes into one `Aggregate`, proved against
/// `aggregate_results` and `aggregate_errors`: every source contributes, in
/// fixed source order, its lines on success and exactly one named entry on
/// failure — no outcome is dropped and none is counted twice.
pub fn aggregate(
    ta: Result<Vec<String>, String>,
    su: Result<Vec<String>, String>,
    it: Result<Vec<String>, String>,
) -> (agg: Aggregate)
    ensures
        agg.results.deep_view() == aggregate_results(
            result_view(ta),
            result_view(su),
            result_view(it),
        ),
        agg.errors.deep_view() == aggregate_errors(
            result_view(ta),
            result_view(su),
            result_view(it),
        ),
{
    let ghost tav = result_view(ta);
    let ghost suv = result_view(su);
    let ghost itv = result_view(it);
    let mut results: Vec<String> = Vec::new();
    let mut errors: Vec<String> = Vec::new();
    proof {
        assert(results.deep_view() =~= Seq::<Seq<char>>::empty());
        assert(errors.deep_view() =~= Seq::<Seq<char>>::empty());
    }
    push_outcome(&mut results, &mut errors, "TaigiTV", ta);
    push_outcome(&mut results, &mut errors, "Sutian", su);
    push_outcome(&mut results, &mut errors, "iTaigi", it);
    proof {
        assert(results.deep_view() =~= aggregate_results(tav, suv, itv));
        assert(errors.deep_view() =~= aggregate_errors(tav, suv, itv));
    }
    Aggregate { results, errors }
}

/// One reply to the originating channel: a text message, or the fixed
/// "no result" reaction.
pub enum Reply {
    Text(String),
    React,
}

/// The heading of a reply that found something; its wording is singular
/// exactly for one result.
pub open spec fn found_header(keyword: Seq<char>, n: int) -> Seq<char> {
    if n == 1 {
        "Found 1 result for \""@ + keyword + "\":\n"@
    } else {
        "Found "@ + dec_nat(n) + " results for \""@ + keyword + "\":\n"@
    }
}

/// The reply text for a settled request: the header and joined lines when
/// anything was found, with a trailing warning when some source failed; the
/// error summary when nothing was found but something failed; `None` — the
/// reaction — when nothing was found and nothing failed.
pub open spec fn reply_text_spec(
    keyword: Seq<char>,
    results: Seq<Seq<char>>,
    errors: Seq<Seq<char>>,
) -> Option<Seq<char>> {
    if results.len() > 0 {
        let base = found_header(keyword, results.len() as int) + join_with(results, "\n"@);
        if errors.len() > 0 {
            Some(
                base + "\n\n\u{26a0}\u{fe0f} Some sources had issues: "@ + join_with(
                    errors,
                    ", "@,
                ),
            )
        } else {
            Some(base)
        }
    } else if errors.len() > 0 {
        Some("Could not search any sources. Errors: "@ + join_with(errors, ", "@))
    } else {
        None
    }
}

/// Composes the reply for a settled request, proved against
/// `reply_text_spec`.
pub fn compose_reply(keyword: &str, agg: &Aggregate) -> (r: Reply)
    ensures
        match r {
            Reply::Text(t) => reply_text_spec(
                keyword@,
                agg.results.deep_view(),
                agg.errors.deep_view(),
            ) == Some(t@),
            Reply::React => reply_text_spec(
                keyword@,
                agg.results.deep_view(),
                agg.errors.deep_view(),
            ) is None,
        },
{
    proof {
        assert(agg.results.deep_view().len() == agg.results@.len());
        assert(agg.errors.deep_view().len() == agg.errors@.len());
    }
    if agg.results.len() > 0 {
        let joined = join_strings(&agg.results, "\n");
        let mut msg = if agg.results.len() == 1 {
            String::from_str("Found 1 result for \"")
        } else {
            let mut m = String::from_str("Found ");
            let d = dec_usize(agg.results.len());
            m.append(d.as_str());
            m.append(" results for \"");
            m
        };
        msg.append(keyword);
        msg.append("\":\n");
        msg.append(joined.as_str());
        proof {
            assert(msg@ =~= found_header(keyword@, agg.results.deep_view().len() as int)
                + join_with(agg.results.deep_view(), "\n"@));
        }
        if agg.errors.len() > 0 {
            msg.append("\n\n\u{26a0}\u{fe0f} Some sources had issues: ");
            let je = join_strings(&agg.errors, ", ");
            msg.append(je.as_str());
            proof {
                assert(Some(msg@) =~= reply_text_spec(
                    keyword@,
                    agg.results.deep_view(),
                    agg.errors.deep_view(),
                ));
            }
        }
        Reply::Text(msg)
    } else if agg.errors.len() > 0 {
        let mut m = String::from_str("Could not search any sources. Errors: ");
        let je = join_strings(&agg.errors, ", ");
        m.append(je.as_str());
        Reply::Text(m)
    } else {
        Reply::React
    }
}

/// What the entry guard decides: an empty or whitespace-only message gets
/// the fixed prompt and no lookup at all.
pub enum Plan {
    Prompt,
    Search(String),
}

/// Decides whether a message starts a lookup: the trimmed content is the
/// keyword, and an empty one short-circuits to the prompt, so no fetch is
/// ever made for it.
pub fn plan_message(content: &str) -> (p: Plan)
    ensures
        match p {
            Plan::Prompt => trim_spec(content@).len() == 0,
            Plan::Search(k) => trim_spec(content@).len() > 0 && k@ == trim_spec(content@),
        },
{
    let t = trim_str(content);
    if t.unicode_len() == 0 {
        Plan::Prompt
    } else {
        Plan::Search(String::from_str(t))
    }
}

/// The fixed prompt sent for an empty keyword.
pub fn prompt_text() -> (r: String)
    ensures
        r@ == "Please provide a keyword to search for."@,
{
    String::from_str("Please provide a keyword to search for.")
}

/// The whole of one lookup past the three HTTP transfers, as a function of
/// the keyword and of what each transfer handed back.
pub open spec fn handle_search_spec(
    keyword: Seq<char>,
    ta: Fetched,
    su: Fetched,
    it: Fetched,
) -> Option<Seq<char>> {
    reply_text_spec(
        keyword,
        aggregate_results(
            search_taigitv_spec(ta),
            search_sutian_spec(su),
            search_itaigi_spec(keyword, it),
        ),
        aggregate_errors(
            search_taigitv_spec(ta),
            search_sutian_spec(su),
            search_itaigi_spec(keyword, it),
        ),
    )
}

/// Runs the three adapters over what their transfers handed back, settles
/// the outcomes, and composes the reply, proved against
/// `handle_search_spec`.
pub fn handle_search(keyword: &str, ta: &Fetched, su: &Fetched, it: &Fetched) -> (r: Reply)
    ensures
        match r {
            Reply::Text(t) => handle_search_spec(keyword@, *ta, *su, *it) == Some(t@),
            Reply::React => handle_search_spec(keyword@, *ta, *su, *it) is None,
        },
{
    let rta = search_taigitv(ta);
    let rsu = search_sutian(su);
    let rit = search_itaigi(keyword, it);
    let agg = aggregate(rta, rsu, rit);
    compose_reply(keyword, &agg)
}

} // verus!
