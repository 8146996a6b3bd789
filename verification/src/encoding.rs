//! Naming the text encoding of the platform, from a console code page or
//! from the locale settings of the environment.

use crate::path::{segments, split_dotted, views_of};
use vstd::prelude::*;
use vstd::string::StringExecFns;

verus! {

/// The lower-case form of `s`, as `str::to_lowercase` gives it.
pub uninterp spec fn lowercase_of(s: Seq<char>) -> Seq<char>;

/// `str::to_lowercase` reads nothing but the string, so its result is the
/// value named `lowercase_of`.
pub assume_specification[ str::to_lowercase ](s: &str) -> (lower: String)
    ensures
        lower@ == lowercase_of(s@),
;

/// The character for the decimal digit `d`.
pub open spec fn digit(d: nat) -> char {
    if d == 0 {
        '0'
    } else if d == 1 {
        '1'
    } else if d == 2 {
        '2'
    } else if d == 3 {
        '3'
    } else if d == 4 {
        '4'
    } else if d == 5 {
        '5'
    } else if d == 6 {
        '6'
    } else if d == 7 {
        '7'
    } else if d == 8 {
        '8'
    } else {
        '9'
    }
}

/// `n` written in decimal, without leading zeros.
pub open spec fn decimal(n: nat) -> Seq<char>
    decreases n,
{
    if n < 10 {
        seq![digit(n)]
    } else {
        decimal(n / 10).push(digit(n % 10))
    }
}

/// The name of the encoding behind a console code page: `utf-8` and `gbk`
/// for the two pages that have a name here, `cp` and the number for the rest.
pub open spec fn code_page_name(code_page: u32) -> Seq<char> {
    if code_page == 65001 {
        "utf-8"@
    } else if code_page == 936 {
        "gbk"@
    } else {
        "cp"@ + decimal(code_page as nat)
    }
}

/// The encoding that a locale setting such as `zh_CN.GBK` names: what stands
/// between its first and second dot, in lower case, and `utf-8` where the
/// setting has no dot.
pub open spec fn encoding_in(setting: Seq<char>) -> Seq<char> {
    let parts = segments(setting);
    if parts.len() >= 2 {
        lowercase_of(parts[1])
    } else {
        lowercase_of("utf-8"@)
    }
}

/// The locale setting in force: `LC_CTYPE` where it is set, else `LANG`,
/// else `utf-8`.
pub open spec fn setting_in_force(lc_ctype: Option<String>, lang: Option<String>) -> Seq<char> {
    match lc_ctype {
        Some(setting) => setting@,
        None => match lang {
            Some(setting) => setting@,
            None => "utf-8"@,
        },
    }
}

fn digit_text(d: u32) -> (text: &'static str)
    requires
        d < 10,
    ensures
        text@ == seq![digit(d as nat)],
{
    proof {
        reveal_strlit("0");
        reveal_strlit("1");
        reveal_strlit("2");
        reveal_strlit("3");
        reveal_strlit("4");
        reveal_strlit("5");
        reveal_strlit("6");
        reveal_strlit("7");
        reveal_strlit("8");
        reveal_strlit("9");
    }
    let text = if d == 0 {
        "0"
    } else if d == 1 {
        "1"
    } else if d == 2 {
        "2"
    } else if d == 3 {
        "3"
    } else if d == 4 {
        "4"
    } else if d == 5 {
        "5"
    } else if d == 6 {
        "6"
    } else if d == 7 {
        "7"
    } else if d == 8 {
        "8"
    } else {
        "9"
    };
    assert(text@ =~= seq![digit(d as nat)]);
    text
}

/// Writes `n` in decimal.
pub fn decimal_text(n: u32) -> (text: String)
    ensures
        text@ == decimal(n as nat),
    decreases n,
{
    if n < 10 {
        String::from_str(digit_text(n))
    } else {
        let mut text = decimal_text(n / 10);
        text.append(digit_text(n % 10));
        assert(text@ =~= decimal((n / 10) as nat).push(digit((n % 10) as nat)));
        text
    }
}

/// The encoding name for the console code page `code_page`.
pub fn encoding_for_code_page(code_page: u32) -> (name: String)
    ensures
        name@ == code_page_name(code_page),
{
    if code_page == 65001 {
        String::from_str("utf-8")
    } else if code_page == 936 {
        String::from_str("gbk")
    } else {
        let mut name = String::from_str("cp");
        name.append(decimal_text(code_page).as_str());
        name
    }
}

/// The encoding that the locale setting `setting` names.
pub fn encoding_from_setting(setting: &str) -> (name: String)
    ensures
        name@ == encoding_in(setting@),
{
    let parts = split_dotted(setting);
    assert(views_of(parts@).len() == parts@.len());
    if parts.len() >= 2 {
        assert(views_of(parts@)[1] == parts@[1]@);
        parts[1].to_lowercase()
    } else {
        "utf-8".to_lowercase()
    }
}

/// The encoding that the environment asks for, given the values of
/// `LC_CTYPE` and `LANG` where they are set.
pub fn encoding_from_environment(lc_ctype: Option<String>, lang: Option<String>) -> (name: String)
    ensures
        name@ == encoding_in(setting_in_force(lc_ctype, lang)),
{
    match lc_ctype {
        Some(setting) => encoding_from_setting(setting.as_str()),
        None => match lang {
            Some(setting) => encoding_from_setting(setting.as_str()),
            None => encoding_from_setting("utf-8"),
        },
    }
}

} // verus!
