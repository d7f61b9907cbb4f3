use taigi_lookup::fetch::Fetched;
use taigi_lookup::reply::aggregate;
use taigi_lookup::reply::compose_reply;
use taigi_lookup::reply::handle_search;
use taigi_lookup::reply::plan_message;
use taigi_lookup::reply::prompt_text;
use taigi_lookup::reply::Aggregate;
use taigi_lookup::reply::Plan;
use taigi_lookup::reply::Reply;

fn taigitv_page() -> Fetched {
    Fetched::Body(
        "<div class=\"btngaa\"><p class=\"h3\"><a href=\"/word/1\">食飯</a></p></div>".to_string(),
    )
}

fn sutian_page() -> Fetched {
    Fetched::Body(
        "<table class=\"d-md-none\"><tbody>\
         <tr><td>head</td></tr>\
         <tr><td><a href=\"/su/1\">食飯</a></td></tr>\
         <tr><td>tsiah-png\nnote</td></tr>\
         </tbody></table>"
            .to_string(),
    )
}

fn itaigi_page() -> Fetched {
    Fetched::Body(
        "{\"列表\":[{\"外語資料\":\"食飯\",\"新詞文本\":[{\"文本資料\":\"呷飯\",\
         \"音標資料\":\"tsiah-png\",\"貢獻者\":\"ng\",\"按呢講好\":5,\"按呢無好\":1}]}]}"
            .to_string(),
    )
}

fn text_of(r: Reply) -> String {
    match r {
        Reply::Text(t) => t,
        Reply::React => panic!("expected a text reply"),
    }
}

#[test]
fn all_three_sources_found_something() {
    let r = handle_search("食飯", &taigitv_page(), &sutian_page(), &itaigi_page());
    let expected = "Found 3 results for \"食飯\":\n\
                    📺 食飯 - https://www.taigitv.org.tw/word/1\n\
                    📚 食飯 [tsiah-png] - https://sutian.moe.edu.tw/su/1\n\
                    🏷️ 食飯 → 呷飯 [tsiah-png] (👍5 👎1) by ng - https://itaigi.tw/k/食飯";
    assert_eq!(text_of(r), expected);
}

#[test]
fn one_failed_source_adds_exactly_one_warning_entry() {
    let r = handle_search("食飯", &Fetched::FetchFailed, &sutian_page(), &itaigi_page());
    let expected = "Found 2 results for \"食飯\":\n\
                    📚 食飯 [tsiah-png] - https://sutian.moe.edu.tw/su/1\n\
                    🏷️ 食飯 → 呷飯 [tsiah-png] (👍5 👎1) by ng - https://itaigi.tw/k/食飯\
                    \n\n⚠️ Some sources had issues: TaigiTV: Error fetching from TaigiTV";
    assert_eq!(text_of(r), expected);
}

#[test]
fn no_matches_and_no_errors_becomes_a_reaction() {
    let empty_html = Fetched::Body("<html><body></body></html>".to_string());
    let empty_json = Fetched::Body("{}".to_string());
    let r = handle_search("食飯", &empty_html, &Fetched::Body("<p></p>".to_string()), &empty_json);
    assert!(matches!(r, Reply::React));
}

#[test]
fn all_sources_failed_lists_every_error() {
    let r = handle_search("食飯", &Fetched::FetchFailed, &Fetched::FetchFailed, &Fetched::ReadFailed);
    let expected = "Could not search any sources. Errors: \
                    TaigiTV: Error fetching from TaigiTV, \
                    Sutian: Error fetching from Sutian, \
                    iTaigi: Error reading response from iTaigi";
    assert_eq!(text_of(r), expected);
}

#[test]
fn empty_keyword_short_circuits_to_the_prompt() {
    assert!(matches!(plan_message(""), Plan::Prompt));
    assert!(matches!(plan_message("   \n\t "), Plan::Prompt));
    assert_eq!(prompt_text(), "Please provide a keyword to search for.");
}

#[test]
fn non_empty_keyword_is_trimmed_for_the_search() {
    match plan_message("  食飯  ") {
        Plan::Search(k) => assert_eq!(k, "食飯"),
        Plan::Prompt => panic!("expected a search"),
    }
}

#[test]
fn fallback_without_foreign_words_echoes_the_keyword() {
    let body = Fetched::Body(
        "{\"列表\":[],\"其他建議\":[{\"文本資料\":\"呷飯\",\"音標資料\":\"px\"}]}".to_string(),
    );
    let no_anchor = Fetched::Body("<html></html>".to_string());
    let no_table = Fetched::Body("<p></p>".to_string());
    let r = handle_search("食飯", &no_anchor, &no_table, &body);
    let expected = "Found 1 result for \"食飯\":\n🏷️ 食飯 → 呷飯 [px] (建議) - https://itaigi.tw";
    assert_eq!(text_of(r), expected);
}

#[test]
fn repeated_invocation_over_the_same_fixture_is_identical() {
    let first = text_of(handle_search("食飯", &taigitv_page(), &sutian_page(), &itaigi_page()));
    let second = text_of(handle_search("食飯", &taigitv_page(), &sutian_page(), &itaigi_page()));
    assert_eq!(first, second);
}

#[test]
fn aggregate_keeps_fixed_source_order_and_every_outcome() {
    let agg: Aggregate = aggregate(
        Ok(vec!["a1".to_string(), "a2".to_string()]),
        Err("boom".to_string()),
        Ok(vec!["c1".to_string()]),
    );
    assert_eq!(agg.results, vec!["a1".to_string(), "a2".to_string(), "c1".to_string()]);
    assert_eq!(agg.errors, vec!["Sutian: boom".to_string()]);
}

#[test]
fn singular_wording_for_exactly_one_result() {
    let agg = Aggregate { results: vec!["line".to_string()], errors: vec![] };
    let r = compose_reply("kw", &agg);
    assert_eq!(text_of(r), "Found 1 result for \"kw\":\nline");
}
