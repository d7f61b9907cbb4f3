//! The iTaigi adapter: a JSON API with Chinese-keyed fields. The primary
//! list yields up to three entries; only when it yields none is the
//! suggestion list read. A missing or mistyped field never fails the call:
//! each read degrades to its documented default.
use vstd::prelude::*;
use vstd::string::StringExecFns;
use crate::fetch::Fetched;
use crate::fetch::result_view;
use crate::json::Json;
use crate::json::jarr_of;
use crate::json::jget;
use crate::json::jint_or;
use crate::json::json_get;
use crate::json::json_get_arr;
use crate::json::json_get_i64_or;
use crate::json::json_get_str_or;
use crate::json::json_of;
use crate::json::parse_json;
use crate::json::jstr_or;
use crate::text::dec_i64;
use crate::text::dec_int;
use crate::text::join_strings;
use crate::text::join_with;
use crate::urls::encoded_of;
use crate::urls::percent_encode;

verus! {

/// The query URL for a keyword.
pub open spec fn itaigi_url_spec(keyword: Seq<char>) -> Seq<char> {
    "https://itaigi.tw/\u{5e73}\u{81fa}\u{9805}\u{76ee}\u{5217}\u{8868}/\u{63e3}\u{5217}\u{8868}?\u{95dc}\u{9375}\u{5b57}="@
        + encoded_of(keyword)
}

/// Builds the query URL, proved against `itaigi_url_spec`.
pub fn itaigi_url(keyword: &str) -> (r: String)
    ensures
        r@ == itaigi_url_spec(keyword@),
{
    let mut s = String::from_str(
        "https://itaigi.tw/\u{5e73}\u{81fa}\u{9805}\u{76ee}\u{5217}\u{8868}/\u{63e3}\u{5217}\u{8868}?\u{95dc}\u{9375}\u{5b57}=",
    );
    let e = percent_encode(keyword);
    s.append(e.as_str());
    s
}

/// The display line for a primary entry, read from the entry itself and the
/// first element of its nested word list.
pub open spec fn itaigi_primary_line(item: Json, first: Json) -> Seq<char> {
    let foreign = jstr_or(jget(item, "\u{5916}\u{8a9e}\u{8cc7}\u{6599}"@), "N/A"@);
    let text = jstr_or(jget(first, "\u{6587}\u{672c}\u{8cc7}\u{6599}"@), "N/A"@);
    let pron = jstr_or(jget(first, "\u{97f3}\u{6a19}\u{8cc7}\u{6599}"@), "N/A"@);
    let contributor = jstr_or(jget(first, "\u{8ca2}\u{737b}\u{8005}"@), "\u{533f}\u{540d}"@);
    let good = jint_or(jget(first, "\u{6309}\u{5462}\u{8b1b}\u{597d}"@), 0);
    let bad = jint_or(jget(first, "\u{6309}\u{5462}\u{7121}\u{597d}"@), 0);
    "\u{1F3F7}\u{FE0F} "@ + foreign + " \u{2192} "@ + text + " ["@ + pron + "] (\u{1F44D}"@
        + dec_int(good as int) + " \u{1F44E}"@ + dec_int(bad as int) + ") by "@ + contributor + " - "@
        + "https://itaigi.tw/k/"@ + foreign
}

/// The lines one primary entry yields: one, read from the first element of
/// its nested word list, or none when that list is absent or empty.
pub open spec fn itaigi_item_lines(item: Json) -> Seq<Seq<char>> {
    match jarr_of(jget(item, "\u{65b0}\u{8a5e}\u{6587}\u{672c}"@)) {
        None => Seq::empty(),
        Some(lst) => if lst.len() == 0 {
            Seq::empty()
        } else {
            seq![itaigi_primary_line(item, lst[0])]
        },
    }
}

/// The lines of the first `budget` primary entries; an entry without a
/// usable nested word still spends budget.
pub open spec fn itaigi_primary(list: Seq<Json>, budget: nat) -> Seq<Seq<char>>
    decreases list.len(),
{
    if budget == 0 || list.len() == 0 {
        Seq::empty()
    } else {
        itaigi_item_lines(list[0]) + itaigi_primary(list.drop_first(), (budget - 1) as nat)
    }
}

/// The foreign words of the first `budget` entries of a suggestion's
/// foreign-word list; a non-string entry spends budget without contributing.
pub open spec fn foreign_names(fl: Seq<Json>, budget: nat) -> Seq<Seq<char>>
    decreases fl.len(),
{
    if budget == 0 || fl.len() == 0 {
        Seq::empty()
    } else {
        match jget(fl[0], "\u{5916}\u{8a9e}\u{8cc7}\u{6599}"@) {
            Some(Json::Str(s)) => seq![s@] + foreign_names(fl.drop_first(), (budget - 1) as nat),
            _ => foreign_names(fl.drop_first(), (budget - 1) as nat),
        }
    }
}

/// The display line for one suggestion: its first two foreign words joined
/// with a comma stand as the subject, and the original keyword stands in
/// when there are none.
pub open spec fn suggestion_line(s: Json, keyword: Seq<char>) -> Seq<char> {
    let text = jstr_or(jget(s, "\u{6587}\u{672c}\u{8cc7}\u{6599}"@), "N/A"@);
    let pron = jstr_or(jget(s, "\u{97f3}\u{6a19}\u{8cc7}\u{6599}"@), "N/A"@);
    let fw = match jarr_of(
        jget(s, "\u{6309}\u{5462}\u{8b1b}\u{7684}\u{5916}\u{8a9e}\u{5217}\u{8868}"@),
    ) {
        Some(fl) => foreign_names(fl, 2),
        None => Seq::empty(),
    };
    let subject = if fw.len() == 0 {
        keyword
    } else {
        join_with(fw, ", "@)
    };
    "\u{1F3F7}\u{FE0F} "@ + subject + " \u{2192} "@ + text + " ["@ + pron
        + "] (\u{5efa}\u{8b70}) - https://itaigi.tw"@
}

/// The lines of the first `budget` suggestions; each yields exactly one.
pub open spec fn itaigi_fallback(sugs: Seq<Json>, keyword: Seq<char>, budget: nat) -> Seq<
    Seq<char>,
>
    decreases sugs.len(),
{
    if budget == 0 || sugs.len() == 0 {
        Seq::empty()
    } else {
        seq![suggestion_line(sugs[0], keyword)] + itaigi_fallback(
            sugs.drop_first(),
            keyword,
            (budget - 1) as nat,
        )
    }
}

/// What one parsed tree yields: the primary list's lines, and only when
/// they are none, the suggestion list's.
pub open spec fn itaigi_results(keyword: Seq<char>, j: Json) -> Seq<Seq<char>> {
    let primary = match jarr_of(jget(j, "\u{5217}\u{8868}"@)) {
        Some(l) => itaigi_primary(l, 3),
        None => Seq::empty(),
    };
    if primary.len() > 0 {
        primary
    } else {
        match jarr_of(jget(j, "\u{5176}\u{4ed6}\u{5efa}\u{8b70}"@)) {
            Some(sg) => itaigi_fallback(sg, keyword, 3),
            None => Seq::empty(),
        }
    }
}

/// What parsing a fetched body yields.
pub open spec fn itaigi_parse_spec(keyword: Seq<char>, body: Seq<char>) -> Result<
    Seq<Seq<char>>,
    Seq<char>,
> {
    match json_of(body) {
        None => Err("Error parsing JSON from iTaigi"@),
        Some(j) => Ok(itaigi_results(keyword, j)),
    }
}

/// The whole lookup as a function of the transfer's outcome.
pub open spec fn search_itaigi_spec(keyword: Seq<char>, f: Fetched) -> Result<
    Seq<Seq<char>>,
    Seq<char>,
> {
    match f {
        Fetched::Body(b) => itaigi_parse_spec(keyword, b@),
        Fetched::FetchFailed => Err("Error fetching from iTaigi"@),
        Fetched::ReadFailed => Err("Error reading response from iTaigi"@),
    }
}

fn itaigi_item_line(item: &Json) -> (r: Option<String>)
    ensures
        match r {
            Some(s) => itaigi_item_lines(*item) == seq![s@],
            None => itaigi_item_lines(*item) == Seq::<Seq<char>>::empty(),
        },
{
    let lst = match json_get_arr(item, "\u{65b0}\u{8a5e}\u{6587}\u{672c}") {
        Some(lst) => lst,
        None => {
            return None;
        },
    };
    if lst.len() == 0 {
        return None;
    }
    let first = &lst[0];
    let foreign = json_get_str_or(item, "\u{5916}\u{8a9e}\u{8cc7}\u{6599}", "N/A");
    let text = json_get_str_or(first, "\u{6587}\u{672c}\u{8cc7}\u{6599}", "N/A");
    let pron = json_get_str_or(first, "\u{97f3}\u{6a19}\u{8cc7}\u{6599}", "N/A");
    let contributor = json_get_str_or(first, "\u{8ca2}\u{737b}\u{8005}", "\u{533f}\u{540d}");
    let good = json_get_i64_or(first, "\u{6309}\u{5462}\u{8b1b}\u{597d}", 0);
    let bad = json_get_i64_or(first, "\u{6309}\u{5462}\u{7121}\u{597d}", 0);
    let mut line = String::from_str("\u{1F3F7}\u{FE0F} ");
    line.append(foreign);
    line.append(" \u{2192} ");
    line.append(text);
    line.append(" [");
    line.append(pron);
    line.append("] (\u{1F44D}");
    let g = dec_i64(good);
    line.append(g.as_str());
    line.append(" \u{1F44E}");
    let b = dec_i64(bad);
    line.append(b.as_str());
    line.append(") by ");
    line.append(contributor);
    line.append(" - ");
    line.append("https://itaigi.tw/k/");
    line.append(foreign);
    proof {
        assert(line@ =~= itaigi_primary_line(*item, lst@[0]));
    }
    Some(line)
}

fn itaigi_primary_collect(list: &Vec<Json>) -> (out: Vec<String>)
    ensures
        out.deep_view() == itaigi_primary(list@, 3),
        out@.len() <= 3,
{
    let mut out: Vec<String> = Vec::new();
    let n = list.len();
    let mut i: usize = 0;
    proof {
        assert(list@.skip(0) =~= list@);
    }
    while i < n && i < 3
        invariant
            0 <= i <= n,
            i <= 3,
            n == list@.len(),
            out@.len() <= i,
            out.deep_view().len() == out@.len(),
            itaigi_primary(list@, 3) == out.deep_view() + itaigi_primary(
                list@.skip(i as int),
                (3 - i) as nat,
            ),
        decreases n - i,
    {
        proof {
            assert(list@.skip(i as int)[0] == list@[i as int]);
            assert(list@.skip(i as int).drop_first() =~= list@.skip(i + 1));
        }
        match itaigi_item_line(&list[i]) {
            Some(line) => {
                let ghost prev = out.deep_view();
                let ghost lv = line@;
                let ghost rest = itaigi_primary(list@.skip(i + 1), (3 - (i + 1)) as nat);
                out.push(line);
                proof {
                    assert(out.deep_view() =~= prev.push(lv));
                    assert(prev.push(lv) =~= prev + seq![lv]);
                    assert(prev + seq![lv] + rest =~= prev + (seq![lv] + rest));
                }
            },
            None => {
                proof {
                    assert(itaigi_item_lines(list@[i as int]) + itaigi_primary(
                        list@.skip(i + 1),
                        (3 - (i + 1)) as nat,
                    ) =~= itaigi_primary(list@.skip(i + 1), (3 - (i + 1)) as nat));
                }
            },
        }
        i = i + 1;
    }
    proof {
        if i >= n {
            assert(list@.skip(n as int) =~= Seq::<Json>::empty());
        }
        assert(out.deep_view() + Seq::<Seq<char>>::empty() =~= out.deep_view());
    }
    out
}

fn itaigi_suggestion_line(s: &Json, keyword: &str) -> (r: String)
    ensures
        r@ == suggestion_line(*s, keyword@),
{
    let text = json_get_str_or(s, "\u{6587}\u{672c}\u{8cc7}\u{6599}", "N/A");
    let pron = json_get_str_or(s, "\u{97f3}\u{6a19}\u{8cc7}\u{6599}", "N/A");
    let mut fw: Vec<String> = Vec::new();
    match json_get_arr(s, "\u{6309}\u{5462}\u{8b1b}\u{7684}\u{5916}\u{8a9e}\u{5217}\u{8868}") {
        Some(fl) => {
            let n = fl.len();
            let mut i: usize = 0;
            proof {
                assert(fl@.skip(0) =~= fl@);
            }
            while i < n && i < 2
                invariant
                    0 <= i <= n,
                    i <= 2,
                    n == fl@.len(),
                    fw.deep_view().len() == fw@.len(),
                    foreign_names(fl@, 2) == fw.deep_view() + foreign_names(
                        fl@.skip(i as int),
                        (2 - i) as nat,
                    ),
                decreases n - i,
            {
                proof {
                    assert(fl@.skip(i as int)[0] == fl@[i as int]);
                    assert(fl@.skip(i as int).drop_first() =~= fl@.skip(i + 1));
                }
                match json_get(&fl[i], "\u{5916}\u{8a9e}\u{8cc7}\u{6599}") {
                    Some(x) => match x {
                        Json::Str(w) => {
                            let ghost prev = fw.deep_view();
                            let ghost rest = foreign_names(fl@.skip(i + 1), (2 - (i + 1)) as nat);
                            fw.push(w.clone());
                            proof {
                                assert(fw.deep_view() =~= prev.push(w@));
                                assert(prev.push(w@) =~= prev + seq![w@]);
                                assert(prev + seq![w@] + rest =~= prev + (seq![w@] + rest));
                            }
                        },
                        _ => {},
                    },
                    None => {},
                }
                i = i + 1;
            }
            proof {
                if i >= n {
                    assert(fl@.skip(n as int) =~= Seq::<Json>::empty());
                }
                assert(fw.deep_view() + Seq::<Seq<char>>::empty() =~= fw.deep_view());
            }
        },
        None => {
            proof {
                assert(fw.deep_view() =~= Seq::<Seq<char>>::empty());
            }
        },
    }
    let subject: String = if fw.len() == 0 {
        String::from_str(keyword)
    } else {
        join_strings(&fw, ", ")
    };
    let mut line = String::from_str("\u{1F3F7}\u{FE0F} ");
    line.append(subject.as_str());
    line.append(" \u{2192} ");
    line.append(text);
    line.append(" [");
    line.append(pron);
    line.append("] (\u{5efa}\u{8b70}) - https://itaigi.tw");
    proof {
        assert(line@ =~= suggestion_line(*s, keyword@));
    }
    line
}

fn itaigi_fallback_collect(sugs: &Vec<Json>, keyword: &str) -> (out: Vec<String>)
    ensures
        out.deep_view() == itaigi_fallback(sugs@, keyword@, 3),
        out@.len() <= 3,
{
    let mut out: Vec<String> = Vec::new();
    let n = sugs.len();
    let mut i: usize = 0;
    proof {
        assert(sugs@.skip(0) =~= sugs@);
    }
    while i < n && i < 3
        invariant
            0 <= i <= n,
            i <= 3,
            n == sugs@.len(),
            out@.len() <= i,
            out.deep_view().len() == out@.len(),
            itaigi_fallback(sugs@, keyword@, 3) == out.deep_view() + itaigi_fallback(
                sugs@.skip(i as int),
                keyword@,
                (3 - i) as nat,
            ),
        decreases n - i,
    {
        proof {
            assert(sugs@.skip(i as int)[0] == sugs@[i as int]);
            assert(sugs@.skip(i as int).drop_first() =~= sugs@.skip(i + 1));
        }
        let line = itaigi_suggestion_line(&sugs[i], keyword);
        let ghost prev = out.deep_view();
        let ghost lv = line@;
        let ghost rest = itaigi_fallback(sugs@.skip(i + 1), keyword@, (3 - (i + 1)) as nat);
        out.push(line);
        proof {
            assert(out.deep_view() =~= prev.push(lv));
            assert(prev.push(lv) =~= prev + seq![lv]);
            assert(prev + seq![lv] + rest =~= prev + (seq![lv] + rest));
        }
        i = i + 1;
    }
    proof {
        if i >= n {
            assert(sugs@.skip(n as int) =~= Seq::<Json>::empty());
        }
        assert(out.deep_view() + Seq::<Seq<char>>::empty() =~= out.deep_view());
    }
    out
}

/// The lines a parsed tree yields for `keyword`, proved against
/// `itaigi_results`. This is where a caller who already holds a tree reaches
/// the whole decode logic.
pub fn itaigi_results_from_json(keyword: &str, j: &Json) -> (out: Vec<String>)
    ensures
        out.deep_view() == itaigi_results(keyword@, *j),
        out@.len() <= 3,
{
    let primary: Vec<String> = match json_get_arr(j, "\u{5217}\u{8868}") {
        Some(lst) => itaigi_primary_collect(lst),
        None => {
            let empty: Vec<String> = Vec::new();
            proof {
                assert(empty.deep_view() =~= Seq::<Seq<char>>::empty());
            }
            empty
        },
    };
    if primary.len() > 0 {
        primary
    } else {
        match json_get_arr(j, "\u{5176}\u{4ed6}\u{5efa}\u{8b70}") {
            Some(sg) => itaigi_fallback_collect(sg, keyword),
            None => {
                let empty: Vec<String> = Vec::new();
                proof {
                    assert(empty.deep_view() =~= Seq::<Seq<char>>::empty());
                }
                empty
            },
        }
    }
}

/// Parses a fetched body, proved against `itaigi_parse_spec`.
pub fn itaigi_parse(keyword: &str, body: &str) -> (r: Result<Vec<String>, String>)
    ensures
        result_view(r) == itaigi_parse_spec(keyword@, body@),
        r matches Ok(v) ==> v@.len() <= 3,
{
    match parse_json(body) {
        Some(j) => Ok(itaigi_results_from_json(keyword, &j)),
        None => Err(String::from_str("Error parsing JSON from iTaigi")),
    }
}

/// The iTaigi lookup past the HTTP transfer, proved against
/// `search_itaigi_spec`. At most three lines come back.
pub fn search_itaigi(keyword: &str, f: &Fetched) -> (r: Result<Vec<String>, String>)
    ensures
        result_view(r) == search_itaigi_spec(keyword@, *f),
        r matches Ok(v) ==> v@.len() <= 3,
{
    match f {
        Fetched::Body(b) => itaigi_parse(keyword, b.as_str()),
        Fetched::FetchFailed => Err(String::from_str("Error fetching from iTaigi")),
        Fetched::ReadFailed => Err(String::from_str("Error reading response from iTaigi")),
    }
}

} // verus!
