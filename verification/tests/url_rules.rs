use taigi_lookup::itaigi::itaigi_url;
use taigi_lookup::sutian::sutian_url;
use taigi_lookup::taigitv::taigitv_url;
use taigi_lookup::urls::resolve_url;

#[test]
fn href_with_scheme_is_kept() {
    assert_eq!(
        resolve_url("https://www.taigitv.org.tw", "https://elsewhere.example/p"),
        "https://elsewhere.example/p"
    );
}

#[test]
fn root_relative_href_is_appended_to_base() {
    assert_eq!(
        resolve_url("https://www.taigitv.org.tw", "/word/1"),
        "https://www.taigitv.org.tw/word/1"
    );
}

#[test]
fn bare_href_gets_a_slash() {
    assert_eq!(
        resolve_url("https://sutian.moe.edu.tw", "su/1"),
        "https://sutian.moe.edu.tw/su/1"
    );
}

#[test]
fn query_urls_percent_encode_the_keyword() {
    assert_eq!(
        taigitv_url("食飯"),
        "https://www.taigitv.org.tw/taigi-words?keyword=%E9%A3%9F%E9%A3%AF"
    );
    assert_eq!(
        sutian_url("食飯"),
        "https://sutian.moe.edu.tw/zh-hant/tshiau/?lui=hua_su&tsha=%E9%A3%9F%E9%A3%AF"
    );
    assert_eq!(
        itaigi_url("a b"),
        "https://itaigi.tw/平臺項目列表/揣列表?關鍵字=a%20b"
    );
    assert_eq!(
        taigitv_url("abc-123"),
        "https://www.taigitv.org.tw/taigi-words?keyword=abc-123"
    );
}
