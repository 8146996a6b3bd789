use locale_lookup::encoding::{
    decimal_text, encoding_for_code_page, encoding_from_environment, encoding_from_setting,
};

#[test]
fn named_code_pages() {
    assert_eq!(encoding_for_code_page(65001), "utf-8");
    assert_eq!(encoding_for_code_page(936), "gbk");
}

#[test]
fn other_code_pages_are_numbered() {
    assert_eq!(encoding_for_code_page(437), "cp437");
    assert_eq!(encoding_for_code_page(1252), "cp1252");
    assert_eq!(encoding_for_code_page(0), "cp0");
    assert_eq!(encoding_for_code_page(65000), "cp65000");
    assert_eq!(encoding_for_code_page(935), "cp935");
    assert_eq!(encoding_for_code_page(u32::MAX), "cp4294967295");
}

#[test]
fn decimal_text_agrees_with_std() {
    for n in [0u32, 1, 9, 10, 11, 99, 100, 101, 1000, 65001, 4294967295] {
        assert_eq!(decimal_text(n), n.to_string());
    }
}

#[test]
fn encoding_is_what_follows_the_first_dot() {
    assert_eq!(encoding_from_setting("en_US.UTF-8"), "utf-8");
    assert_eq!(encoding_from_setting("zh_CN.GBK"), "gbk");
    assert_eq!(encoding_from_setting("de_DE.ISO-8859-1"), "iso-8859-1");
    assert_eq!(encoding_from_setting("ja_JP.eucJP"), "eucjp");
}

#[test]
fn only_the_second_piece_counts() {
    assert_eq!(encoding_from_setting("a.B.c"), "b");
    assert_eq!(encoding_from_setting("en_US.UTF-8@euro"), "utf-8@euro");
    assert_eq!(encoding_from_setting("x."), "");
    assert_eq!(encoding_from_setting(".KOI8-R"), "koi8-r");
}

#[test]
fn setting_without_a_dot_means_utf8() {
    assert_eq!(encoding_from_setting("C"), "utf-8");
    assert_eq!(encoding_from_setting("POSIX"), "utf-8");
    assert_eq!(encoding_from_setting(""), "utf-8");
    assert_eq!(encoding_from_setting("utf-8"), "utf-8");
}

#[test]
fn lc_ctype_wins_over_lang() {
    assert_eq!(
        encoding_from_environment(Some("zh_CN.GBK".to_string()), Some("en_US.UTF-8".to_string())),
        "gbk"
    );
    assert_eq!(
        encoding_from_environment(Some("C".to_string()), Some("zh_CN.GBK".to_string())),
        "utf-8"
    );
    assert_eq!(
        encoding_from_environment(Some(String::new()), Some("zh_CN.GBK".to_string())),
        "utf-8"
    );
}

#[test]
fn lang_is_used_when_lc_ctype_is_unset() {
    assert_eq!(encoding_from_environment(None, Some("ru_RU.KOI8-R".to_string())), "koi8-r");
    assert_eq!(encoding_from_environment(None, Some("ru_RU".to_string())), "utf-8");
}

#[test]
fn empty_environment_means_utf8() {
    assert_eq!(encoding_from_environment(None, None), "utf-8");
}
