//! Languages, message lookup and placeholder filling.
use vstd::prelude::*;

use crate::text::{
    append_chars, chars_of, find, find_chars, lemma_find_from_found, slice_chars, string_from,
    suffix_from,
};
use crate::translations::{catalogue, catalogue_lookup};

verus! {

/// A language the message catalogue covers.
#[derive(Debug, Clone, Copy, PartialEq, Eq, Hash, Structural)]
pub enum Language {
    En,
    Zh,
    Ja,
    Ko,
}

/// The part of a locale tag before its first `'-'` (all of it when there is none).
pub open spec fn locale_prefix(locale: Seq<char>) -> Seq<char> {
    match find(locale, seq!['-']) {
        Some(k) => locale.subrange(0, k),
        None => locale,
    }
}

/// The language a lower-case language code stands for; English for any other code.
pub open spec fn language_of_code(code: Seq<char>) -> Language {
    if code == seq!['z', 'h'] {
        Language::Zh
    } else if code == seq!['j', 'a'] {
        Language::Ja
    } else if code == seq!['k', 'o'] {
        Language::Ko
    } else {
        Language::En
    }
}

/// What `str::to_lowercase` returns for `s` (Unicode lower-case mapping).
pub uninterp spec fn lowercase(s: Seq<char>) -> Seq<char>;

/// `str::to_lowercase`: the contract claims only that the result is the
/// lower-case mapping of the argument, a function of the argument alone.
#[verifier::external_body]
pub(crate) fn to_lowercase(s: &str) -> (r: String)
    ensures
        r@ == lowercase(s@),
{
    s.to_lowercase()
}

/// `sys_locale::get_locale`: the locale of the machine; nothing is claimed of
/// what it returns, which depends on the machine's settings.
#[verifier::external_body]
fn system_locale() -> (r: Option<String>) {
    sys_locale::get_locale()
}

impl Language {
    /// The language of a lower-case language code (`"zh"`, `"ja"`, `"ko"`; any
    /// other code is English).
    pub fn from_code(code: &str) -> (r: Language)
        ensures
            r == language_of_code(code@),
    {
        let c = chars_of(code);
        if c.len() == 2 && c[0] == 'z' && c[1] == 'h' {
            assert(c@ == seq!['z', 'h']);
            Language::Zh
        } else if c.len() == 2 && c[0] == 'j' && c[1] == 'a' {
            assert(c@ == seq!['j', 'a']);
            Language::Ja
        } else if c.len() == 2 && c[0] == 'k' && c[1] == 'o' {
            assert(c@ == seq!['k', 'o']);
            Language::Ko
        } else {
            Language::En
        }
    }

    /// The language of a locale tag such as `"zh-CN"`: its part before the first
    /// `'-'`, lower-cased, names the language.
    pub fn from_locale(locale: &str) -> (r: Language)
        ensures
            r == language_of_code(lowercase(locale_prefix(locale@))),
    {
        let c = chars_of(locale);
        let mut dash: Vec<char> = Vec::new();
        dash.push('-');
        let prefix = match find_chars(c.as_slice(), dash.as_slice()) {
            Some(k) => {
                proof {
                    lemma_find_from_found(c@, seq!['-'], 0);
                }
                slice_chars(c.as_slice(), 0, k)
            },
            None => c,
        };
        let p = string_from(prefix.as_slice());
        let lower = to_lowercase(p.as_str());
        Language::from_code(lower.as_str())
    }
}

/// The language of a locale: that its tag names (see `Language::from_locale`),
/// English when there is no locale.
pub open spec fn locale_language(locale: Option<Seq<char>>) -> Language {
    match locale {
        Some(l) => language_of_code(lowercase(locale_prefix(l))),
        None => Language::En,
    }
}

/// The language of a locale as the machine reports it: that of its tag,
/// English when the machine reports none.
pub fn language_of_locale(locale: Option<&str>) -> (r: Language)
    ensures
        r == locale_language(
            match locale {
                Some(l) => Some(l@),
                None => None,
            },
        ),
{
    match locale {
        Some(l) => Language::from_locale(l),
        None => Language::En,
    }
}

/// The language of this machine's locale (English when it has none): the
/// language of some locale, whichever the machine reports.
pub fn current_language() -> (r: Language)
    ensures
        exists|locale: Option<Seq<char>>| r == locale_language(locale),
{
    let reported = system_locale();
    match &reported {
        Some(l) => language_of_locale(Some(l.as_str())),
        None => language_of_locale(None),
    }
}

/// The text of message `key` in `lang`: the entry of `lang`, else the English
/// entry, else the key itself.
pub open spec fn translation(lang: Language, key: Seq<char>) -> Seq<char> {
    match catalogue(lang, key) {
        Some(t) => t,
        None => match catalogue(Language::En, key) {
            Some(t) => t,
            None => key,
        },
    }
}

/// The text of message `key` in `lang`, falling back to English and then to the key.
pub fn translate(lang: Language, key: &str) -> (r: String)
    ensures
        r@ == translation(lang, key@),
{
    let k = chars_of(key);
    match catalogue_lookup(lang, k.as_slice()) {
        Some(t) => t.to_owned(),
        None => match catalogue_lookup(Language::En, k.as_slice()) {
            Some(t) => t.to_owned(),
            None => key.to_owned(),
        },
    }
}

/// The text of message `key` in the language of this machine's locale.
pub fn get_translation(key: &str) -> (r: String)
    ensures
        exists|locale: Option<Seq<char>>| r@ == translation(locale_language(locale), key@),
{
    let lang = current_language();
    let r = translate(lang, key);
    proof {
        let locale = choose|locale: Option<Seq<char>>| lang == locale_language(locale);
        assert(r@ == translation(locale_language(locale), key@));
    }
    r
}

/// The views of a list of strings.
pub open spec fn views(args: Seq<String>) -> Seq<Seq<char>> {
    args.map_values(|a: String| a@)
}

/// `template` with its placeholders filled: each `{...}` closed by a `'}'` is
/// replaced by the next argument from index `idx` on, or kept as written once
/// the arguments are used up; an unclosed `'{'` and what follows it are kept.
pub open spec fn fill(template: Seq<char>, args: Seq<Seq<char>>, idx: int) -> Seq<char>
    decreases template.len(),
{
    if template.len() == 0 {
        seq![]
    } else if template[0] == '{' {
        let body = template.drop_first();
        match find(body, seq!['}']) {
            Some(k) => {
                if 0 <= k < body.len() {
                    let rest = body.subrange(k + 1, body.len() as int);
                    if 0 <= idx < args.len() {
                        args[idx] + fill(rest, args, idx + 1)
                    } else {
                        seq!['{'] + body.subrange(0, k) + seq!['}'] + fill(rest, args, idx)
                    }
                } else {
                    template
                }
            },
            None => template,
        }
    } else {
        seq![template[0]] + fill(template.drop_first(), args, idx)
    }
}

/// Fills the placeholders of `template` (`{}`, `{:.1}`, `{:?}`, ...) with `args` in order.
pub fn format_translation(template: &str, args: &[String]) -> (r: String)
    ensures
        r@ == fill(template@, views(args@), 0),
{
    let t = chars_of(template);
    let n = t.len();
    let ghost a = views(args@);
    let mut close: Vec<char> = Vec::new();
    close.push('}');
    let mut out: Vec<char> = Vec::new();
    let mut i: usize = 0;
    let mut idx: usize = 0;
    assert(t@.subrange(0, n as int) == t@);
    while i < n
        invariant
            n == t@.len(),
            i <= n,
            idx <= args@.len(),
            a == views(args@),
            close@ == seq!['}'],
            fill(t@, a, 0) == out@ + fill(t@.subrange(i as int, n as int), a, idx as int),
        decreases n - i,
    {
        let ghost cur = t@.subrange(i as int, n as int);
        let ghost out0 = out@;
        assert(cur[0] == t@[i as int]);
        assert(cur.drop_first() == t@.subrange(i + 1, n as int));
        if t[i] == '{' {
            let body = suffix_from(t.as_slice(), i + 1);
            match find_chars(body.as_slice(), close.as_slice()) {
                Some(k) => {
                    proof {
                        lemma_find_from_found(body@, seq!['}'], 0);
                    }
                    assert(body@.subrange(k + 1, body@.len() as int) == t@.subrange(
                        i + k + 2,
                        n as int,
                    ));
                    if idx < args.len() {
                        let arg = chars_of(args[idx].as_str());
                        assert(arg@ == a[idx as int]);
                        append_chars(&mut out, arg.as_slice());
                        idx = idx + 1;
                    } else {
                        out.push('{');
                        let ph = slice_chars(body.as_slice(), 0, k);
                        append_chars(&mut out, ph.as_slice());
                        out.push('}');
                        assert(out@ == out0 + (seq!['{'] + body@.subrange(0, k as int) + seq![
                            '}',
                        ]));
                    }
                    i = i + k + 2;
                },
                None => {
                    let tail = suffix_from(t.as_slice(), i);
                    append_chars(&mut out, tail.as_slice());
                    i = n;
                    assert(t@.subrange(n as int, n as int) == Seq::<char>::empty());
                },
            }
        } else {
            out.push(t[i]);
            i = i + 1;
            assert(out@ == out0 + seq![cur[0]]);
        }
    }
    assert(t@.subrange(n as int, n as int) == Seq::<char>::empty());
    string_from(out.as_slice())
}


/// The text of message `key` with its placeholders filled by `args`.
pub open spec fn message(lang: Language, key: Seq<char>, args: Seq<Seq<char>>) -> Seq<char> {
    fill(translation(lang, key), args, 0)
}

/// Message `key` in `lang`, without arguments.
pub fn t0(lang: Language, key: &str) -> (r: String)
    ensures
        r@ == translation(lang, key@),
{
    translate(lang, key)
}

/// Message `key` in `lang` with one argument.
pub fn t1(lang: Language, key: &str, a: &str) -> (r: String)
    ensures
        r@ == message(lang, key@, seq![a@]),
{
    let tpl = translate(lang, key);
    let mut args: Vec<String> = Vec::new();
    args.push(a.to_owned());
    assert(views(args@) == seq![a@]);
    format_translation(tpl.as_str(), args.as_slice())
}

/// Message `key` in `lang` with two arguments.
pub fn t2(lang: Language, key: &str, a: &str, b: &str) -> (r: String)
    ensures
        r@ == message(lang, key@, seq![a@, b@]),
{
    let tpl = translate(lang, key);
    let mut args: Vec<String> = Vec::new();
    args.push(a.to_owned());
    args.push(b.to_owned());
    assert(views(args@) == seq![a@, b@]);
    format_translation(tpl.as_str(), args.as_slice())
}

/// Once the arguments are used up, filling leaves the rest of a template
/// unchanged: in particular a template filled with no arguments is the
/// template itself.
pub proof fn lemma_fill_without_args(template: Seq<char>, args: Seq<Seq<char>>, idx: int)
    requires
        idx >= args.len(),
    ensures
        fill(template, args, idx) == template,
    decreases template.len(),
{
    if template.len() == 0 {
    } else if template[0] == '{' {
        let body = template.drop_first();
        lemma_find_from_found(body, seq!['}'], 0);
        match find(body, seq!['}']) {
            Some(k) => {
                if 0 <= k < body.len() {
                    let rest = body.subrange(k + 1, body.len() as int);
                    lemma_fill_without_args(rest, args, idx);
                    assert(body[k] == '}') by {
                        assert(body.subrange(k, k + 1) == seq!['}']);
                        assert(body.subrange(k, k + 1)[0] == body[k]);
                    }
                    assert(template == seq!['{'] + body.subrange(0, k) + seq!['}'] + rest);
                }
            },
            None => {},
        }
    } else {
        lemma_fill_without_args(template.drop_first(), args, idx);
        assert(template == seq![template[0]] + template.drop_first());
    }
}

/// Formatting a message with no arguments gives the message back unchanged.
pub proof fn lemma_format_no_args_identity(template: Seq<char>)
    ensures
        fill(template, Seq::<Seq<char>>::empty(), 0) == template,
{
    lemma_fill_without_args(template, Seq::<Seq<char>>::empty(), 0);
}

} // verus!
