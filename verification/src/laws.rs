//! Properties of the pipeline as a whole, stated over the same spec
//! functions the executable contracts use.
use vstd::prelude::*;
use crate::fetch::Fetched;
use crate::html::SelMatch;
use crate::itaigi::itaigi_fallback;
use crate::itaigi::itaigi_item_lines;
use crate::itaigi::itaigi_primary;
use crate::itaigi::search_itaigi_spec;
use crate::json::Json;
use crate::reply::aggregate_errors;
use crate::reply::aggregate_results;
use crate::reply::errs;
use crate::reply::handle_search_spec;
use crate::reply::oks;
use crate::reply::reply_text_spec;
use crate::sutian::search_sutian_spec;
use crate::taigitv::search_taigitv_spec;
use crate::taigitv::taigitv_pick;

verus! {

/// How many outcomes a settled adapter call contributes: one success or one
/// failure, never both, never neither.
pub open spec fn ok_count(r: Result<Seq<Seq<char>>, Seq<char>>) -> int {
    match r {
        Ok(_) => 1,
        Err(_) => 0,
    }
}

/// The fan-out is of fixed arity: however the three adapters settle, every
/// source contributes exactly one outcome — the error list holds exactly
/// one entry per failed source, and the merged results hold exactly the
/// lines of the successful ones, in fixed source order.
pub proof fn lemma_fan_out_three(
    ta: Result<Seq<Seq<char>>, Seq<char>>,
    su: Result<Seq<Seq<char>>, Seq<char>>,
    it: Result<Seq<Seq<char>>, Seq<char>>,
)
    ensures
        aggregate_errors(ta, su, it).len() + ok_count(ta) + ok_count(su) + ok_count(it) == 3,
        aggregate_results(ta, su, it).len() == oks(ta).len() + oks(su).len() + oks(it).len(),
        aggregate_results(ta, su, it) == oks(ta) + oks(su) + oks(it),
        aggregate_errors(ta, su, it) == errs("TaigiTV"@, ta) + errs("Sutian"@, su) + errs(
            "iTaigi"@,
            it,
        ),
{
}

/// The formatter's states are total and mutually exclusive: once all three
/// adapters settle, exactly one of {at least one result, no result and at
/// least one error, neither} holds, and it alone decides between a text
/// reply and the bare reaction.
pub proof fn lemma_reply_states(keyword: Seq<char>, results: Seq<Seq<char>>, errors: Seq<Seq<char>>)
    ensures
        results.len() > 0 ==> reply_text_spec(keyword, results, errors) is Some,
        results.len() == 0 && errors.len() > 0 ==> reply_text_spec(keyword, results, errors)
            is Some,
        results.len() == 0 && errors.len() == 0 ==> reply_text_spec(keyword, results, errors)
            is None,
{
}

/// Repeating a lookup over identical transfer outcomes yields an identical
/// reply: the pipeline holds no state beside its inputs.
pub proof fn lemma_search_idempotent(
    k1: Seq<char>,
    ta1: Fetched,
    su1: Fetched,
    it1: Fetched,
    k2: Seq<char>,
    ta2: Fetched,
    su2: Fetched,
    it2: Fetched,
)
    requires
        k1 == k2,
        ta1 == ta2,
        su1 == su2,
        it1 == it2,
    ensures
        handle_search_spec(k1, ta1, su1, it1) == handle_search_spec(k2, ta2, su2, it2),
{
}

proof fn lemma_taigitv_pick_len(ms: Seq<SelMatch>, budget: nat)
    ensures
        taigitv_pick(ms, budget).len() <= budget,
    decreases ms.len(),
{
    if budget > 0 && ms.len() > 0 {
        match ms[0].href {
            Some(h) => {
                lemma_taigitv_pick_len(ms.drop_first(), (budget - 1) as nat);
            },
            None => {
                lemma_taigitv_pick_len(ms.drop_first(), budget);
            },
        }
    }
}

proof fn lemma_itaigi_primary_len(list: Seq<Json>, budget: nat)
    ensures
        itaigi_primary(list, budget).len() <= budget,
    decreases list.len(),
{
    if budget > 0 && list.len() > 0 {
        assert(itaigi_item_lines(list[0]).len() <= 1);
        lemma_itaigi_primary_len(list.drop_first(), (budget - 1) as nat);
    }
}

proof fn lemma_itaigi_fallback_len(sugs: Seq<Json>, keyword: Seq<char>, budget: nat)
    ensures
        itaigi_fallback(sugs, keyword, budget).len() <= budget,
    decreases sugs.len(),
{
    if budget > 0 && sugs.len() > 0 {
        lemma_itaigi_fallback_len(sugs.drop_first(), keyword, (budget - 1) as nat);
    }
}

/// The per-source caps: however a body parses, Sutian never yields more
/// than one line, and TaigiTV and iTaigi never more than three.
pub proof fn lemma_source_caps(keyword: Seq<char>, ta: Fetched, su: Fetched, it: Fetched)
    ensures
        search_taigitv_spec(ta) matches Ok(v) ==> v.len() <= 3,
        search_sutian_spec(su) matches Ok(v) ==> v.len() <= 1,
        search_itaigi_spec(keyword, it) matches Ok(v) ==> v.len() <= 3,
{
    if search_taigitv_spec(ta) is Ok {
        if let Fetched::Body(b) = ta {
            match crate::html::selected_of(b@, ".btngaa .h3 a"@) {
                Some(ms) => {
                    lemma_taigitv_pick_len(ms@, 3);
                },
                None => {},
            }
        }
    }
    if search_itaigi_spec(keyword, it) is Ok {
        if let Fetched::Body(b) = it {
            match crate::json::json_of(b@) {
                Some(j) => {
                    match crate::json::jarr_of(crate::json::jget(j, "\u{5217}\u{8868}"@)) {
                        Some(l) => {
                            lemma_itaigi_primary_len(l, 3);
                        },
                        None => {},
                    }
                    match crate::json::jarr_of(
                        crate::json::jget(j, "\u{5176}\u{4ed6}\u{5efa}\u{8b70}"@),
                    ) {
                        Some(sg) => {
                            lemma_itaigi_fallback_len(sg, keyword, 3);
                        },
                        None => {},
                    }
                },
                None => {},
            }
        }
    }
}

} // verus!
