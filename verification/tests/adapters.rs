use taigi_lookup::fetch::Fetched;
use taigi_lookup::itaigi::itaigi_parse;
use taigi_lookup::itaigi::search_itaigi;
use taigi_lookup::sutian::sutian_parse;
use taigi_lookup::taigitv::search_taigitv;
use taigi_lookup::taigitv::taigitv_parse;

fn taigitv_page() -> String {
    "<html><body><div class=\"btngaa\"><p class=\"h3\">\
     <a href=\"/word/1\"> 食飯 </a></p></div></body></html>"
        .to_string()
}

fn sutian_mobile_page() -> String {
    "<html><body><table class=\"d-md-none\"><tbody>\
     <tr><td>head</td></tr>\
     <tr><td><a href=\"/su/1\">食飯</a></td></tr>\
     <tr><td>  tsiah-png\n  note  </td></tr>\
     </tbody></table></body></html>"
        .to_string()
}

fn itaigi_body() -> String {
    "{\"列表\":[{\"外語資料\":\"食飯\",\"新詞文本\":[{\"文本資料\":\"呷飯\",\
     \"音標資料\":\"tsiah-png\",\"貢獻者\":\"ng\",\"按呢講好\":5,\"按呢無好\":1}]}]}"
        .to_string()
}

#[test]
fn taigitv_extracts_trimmed_anchor_and_resolves_href() {
    let r = taigitv_parse(&taigitv_page()).unwrap();
    assert_eq!(r, vec!["📺 食飯 - https://www.taigitv.org.tw/word/1".to_string()]);
}

#[test]
fn taigitv_caps_results_at_three() {
    let page = "<div class=\"btngaa\"><p class=\"h3\">\
                <a href=\"/1\">a</a><a href=\"/2\">b</a>\
                <a href=\"/3\">c</a><a href=\"/4\">d</a></p></div>";
    let r = taigitv_parse(page).unwrap();
    assert_eq!(r.len(), 3);
    assert_eq!(r[0], "📺 a - https://www.taigitv.org.tw/1");
    assert_eq!(r[2], "📺 c - https://www.taigitv.org.tw/3");
}

#[test]
fn taigitv_anchor_without_href_does_not_spend_the_cap() {
    let page = "<div class=\"btngaa\"><p class=\"h3\">\
                <a>skip</a><a href=\"/1\">a</a>\
                <a href=\"/2\">b</a><a href=\"/3\">c</a></p></div>";
    let r = taigitv_parse(page).unwrap();
    assert_eq!(r.len(), 3);
    assert_eq!(r[0], "📺 a - https://www.taigitv.org.tw/1");
    assert_eq!(r[2], "📺 c - https://www.taigitv.org.tw/3");
}

#[test]
fn taigitv_no_match_is_success_with_no_lines() {
    let r = taigitv_parse("<html><body><p>nothing here</p></body></html>").unwrap();
    assert!(r.is_empty());
}

#[test]
fn taigitv_transfer_failures_name_the_phase() {
    assert_eq!(
        search_taigitv(&Fetched::FetchFailed).unwrap_err(),
        "Error fetching from TaigiTV"
    );
    assert_eq!(
        search_taigitv(&Fetched::ReadFailed).unwrap_err(),
        "Error reading response from TaigiTV"
    );
}

#[test]
fn sutian_mobile_row_wins_and_keeps_first_pronunciation_line() {
    let r = sutian_parse(&sutian_mobile_page()).unwrap();
    assert_eq!(r, vec!["📚 食飯 [tsiah-png] - https://sutian.moe.edu.tw/su/1".to_string()]);
}

#[test]
fn sutian_desktop_row_is_the_fallback() {
    let page = "<table class=\"d-none d-md-table\"><tbody><tr>\
                <td>1</td><td><a href=\"https://sutian.moe.edu.tw/su/2\">詞</a></td>\
                <td>im</td></tr></tbody></table>";
    let r = sutian_parse(page).unwrap();
    assert_eq!(r, vec!["📚 詞 [im] - https://sutian.moe.edu.tw/su/2".to_string()]);
}

#[test]
fn sutian_empty_word_or_pronunciation_suppresses_the_entry() {
    let page = "<table class=\"d-md-none\"><tbody>\
                <tr><td>head</td></tr>\
                <tr><td><a href=\"/su/1\">食飯</a></td></tr>\
                <tr><td>   </td></tr>\
                </tbody></table>";
    let r = sutian_parse(page).unwrap();
    assert!(r.is_empty());
}

#[test]
fn sutian_uses_only_the_first_matching_row_pair() {
    let page = "<table class=\"d-md-none\"><tbody>\
                <tr><td>head</td></tr>\
                <tr><td><a href=\"/su/1\">first</a></td></tr>\
                <tr><td>one</td></tr>\
                </tbody></table>\
                <table class=\"d-md-none\"><tbody>\
                <tr><td>head</td></tr>\
                <tr><td><a href=\"/su/2\">second</a></td></tr>\
                <tr><td>two</td></tr>\
                </tbody></table>";
    let r = sutian_parse(page).unwrap();
    assert_eq!(r, vec!["📚 first [one] - https://sutian.moe.edu.tw/su/1".to_string()]);
}

#[test]
fn sutian_missing_href_still_yields_an_entry_at_the_site_root() {
    let page = "<table class=\"d-md-none\"><tbody>\
                <tr><td>head</td></tr>\
                <tr><td><a>word</a></td></tr>\
                <tr><td>pron</td></tr>\
                </tbody></table>";
    let r = sutian_parse(page).unwrap();
    assert_eq!(r, vec!["📚 word [pron] - https://sutian.moe.edu.tw/".to_string()]);
}

#[test]
fn sutian_no_table_is_success_with_no_lines() {
    let r = sutian_parse("<html><body></body></html>").unwrap();
    assert!(r.is_empty());
}

#[test]
fn itaigi_primary_entry_is_fully_formatted() {
    let r = itaigi_parse("食飯", &itaigi_body()).unwrap();
    assert_eq!(
        r,
        vec!["🏷️ 食飯 → 呷飯 [tsiah-png] (👍5 👎1) by ng - https://itaigi.tw/k/食飯".to_string()]
    );
}

#[test]
fn itaigi_missing_fields_fall_back_to_defaults() {
    let body = "{\"列表\":[{\"新詞文本\":[{}]}]}";
    let r = itaigi_parse("kw", body).unwrap();
    assert_eq!(r, vec!["🏷️ N/A → N/A [N/A] (👍0 👎0) by 匿名 - https://itaigi.tw/k/N/A".to_string()]);
}

#[test]
fn itaigi_primary_caps_at_three_entries() {
    let body = "{\"列表\":[\
        {\"外語資料\":\"a\",\"新詞文本\":[{\"文本資料\":\"1\"}]},\
        {\"外語資料\":\"b\",\"新詞文本\":[{\"文本資料\":\"2\"}]},\
        {\"外語資料\":\"c\",\"新詞文本\":[{\"文本資料\":\"3\"}]},\
        {\"外語資料\":\"d\",\"新詞文本\":[{\"文本資料\":\"4\"}]}]}";
    let r = itaigi_parse("kw", body).unwrap();
    assert_eq!(r.len(), 3);
    assert!(r[0].starts_with("🏷️ a → 1"));
    assert!(r[2].starts_with("🏷️ c → 3"));
}

#[test]
fn itaigi_suggestions_join_up_to_two_foreign_words() {
    let body = "{\"其他建議\":[{\"文本資料\":\"呷飯\",\"音標資料\":\"px\",\
                \"按呢講的外語列表\":[{\"外語資料\":\"w1\"},{\"外語資料\":\"w2\"},{\"外語資料\":\"w3\"}]}]}";
    let r = itaigi_parse("kw", body).unwrap();
    assert_eq!(r, vec!["🏷️ w1, w2 → 呷飯 [px] (建議) - https://itaigi.tw".to_string()]);
}

#[test]
fn itaigi_invalid_json_is_a_parse_error() {
    assert_eq!(
        itaigi_parse("kw", "this is not json").unwrap_err(),
        "Error parsing JSON from iTaigi"
    );
}

#[test]
fn itaigi_transfer_failures_name_the_phase() {
    assert_eq!(
        search_itaigi("kw", &Fetched::FetchFailed).unwrap_err(),
        "Error fetching from iTaigi"
    );
    assert_eq!(
        search_itaigi("kw", &Fetched::ReadFailed).unwrap_err(),
        "Error reading response from iTaigi"
    );
}

#[test]
fn itaigi_integer_votes_of_any_size_are_rendered() {
    let body = "{\"列表\":[{\"外語資料\":\"a\",\"新詞文本\":[{\"文本資料\":\"t\",\
                \"按呢講好\":-3,\"按呢無好\":12345678901}]}]}";
    let r = itaigi_parse("kw", body).unwrap();
    assert_eq!(r, vec!["🏷️ a → t [N/A] (👍-3 👎12345678901) by 匿名 - https://itaigi.tw/k/a".to_string()]);
}
