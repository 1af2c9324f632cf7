//! A user's BIO page: the profile fields rendered as markdown, the group
//! list, the file it is saved under, and the limits on how often profiles are
//! fetched.
use vstd::prelude::*;

use crate::i18n::{t0, views, Language};
use crate::markdown::{
    cat2, cat3, cat5, joined, join_lines, lemma_split_joined, push_line, push_lines,
};
use crate::report::{msg, name_char, or_empty, or_na};
use crate::stamps::{elapsed, elapsed_since, StampMap};
use crate::text::{
    append_str, chars_of, decimal, replace_char, replace_char_chars, split_chars, split_on,
    string_from, trim, trim_chars, u64_text,
};
use crate::translations::eq_lit;

verus! {

/// An element of a JSON list, with what the page reads of it: an object
/// (its compact JSON text and its text fields `badgeName`,
/// `badgeDescription`, `name`, `groupId` and `description`, absent when
/// missing or not texts), a string, or any other value (its JSON text).
#[derive(Debug)]
pub enum JsonItem {
    Object {
        text: String,
        badge_name: Option<String>,
        badge_description: Option<String>,
        name: Option<String>,
        group_id: Option<String>,
        description: Option<String>,
    },
    Text(String),
    Other(String),
}

/// A profile field's value: a list, an object (its pretty-printed JSON
/// text), a string, or any other value (its JSON text).
#[derive(Debug)]
pub enum FieldValue {
    Array(Vec<JsonItem>),
    Object(String),
    Text(String),
    Scalar(String),
}

/// The label of a profile field: its translated name, or the key itself for
/// a field without one.
pub open spec fn key_label(lang: Language, key: Seq<char>) -> Seq<char> {
    if key == "ageVerificationStatus"@ {
        msg(lang, "age_verification_status"@)
    } else if key == "ageVerified"@ {
        msg(lang, "age_verified"@)
    } else if key == "badges"@ {
        msg(lang, "badges"@)
    } else if key == "bio"@ {
        msg(lang, "bio"@)
    } else if key == "bioLinks"@ {
        msg(lang, "bio_links"@)
    } else if key == "currentAvatarImageUrl"@ {
        msg(lang, "current_avatar_image_url"@)
    } else if key == "date_joined"@ {
        msg(lang, "date_joined"@)
    } else if key == "displayName"@ {
        msg(lang, "display_name"@)
    } else if key == "id"@ {
        msg(lang, "user_id"@)
    } else {
        key
    }
}

/// Each profile field the page knows is labelled with its own message: the
/// age verification status, age verified, badges, bio, bio links, avatar
/// image, join date, display name and user id each get the translation of
/// their message in the page's language; any other field keeps its key.
pub proof fn lemma_field_labels(lang: Language, key: Seq<char>)
    ensures
        key_label(lang, "ageVerificationStatus"@) == crate::i18n::translation(
            lang,
            "age_verification_status"@,
        ),
        key_label(lang, "ageVerified"@) == crate::i18n::translation(lang, "age_verified"@),
        key_label(lang, "badges"@) == crate::i18n::translation(lang, "badges"@),
        key_label(lang, "bio"@) == crate::i18n::translation(lang, "bio"@),
        key_label(lang, "bioLinks"@) == crate::i18n::translation(lang, "bio_links"@),
        key_label(lang, "currentAvatarImageUrl"@) == crate::i18n::translation(
            lang,
            "current_avatar_image_url"@,
        ),
        key_label(lang, "date_joined"@) == crate::i18n::translation(lang, "date_joined"@),
        key_label(lang, "displayName"@) == crate::i18n::translation(lang, "display_name"@),
        key_label(lang, "id"@) == crate::i18n::translation(lang, "user_id"@),
        !allowed_fields().contains(key) ==> key_label(lang, key) == key,
{
    reveal_strlit("ageVerificationStatus");
    reveal_strlit("ageVerified");
    reveal_strlit("badges");
    reveal_strlit("bio");
    reveal_strlit("bioLinks");
    reveal_strlit("currentAvatarImageUrl");
    reveal_strlit("date_joined");
    reveal_strlit("displayName");
    reveal_strlit("id");
    assert("ageVerificationStatus"@.len() == 21 && "ageVerificationStatus"@[0] == 'a');
    assert("ageVerified"@.len() == 11 && "ageVerified"@[0] == 'a' && "ageVerified"@[1] == 'g');
    assert("badges"@.len() == 6);
    assert("bio"@.len() == 3);
    assert("bioLinks"@.len() == 8);
    assert("currentAvatarImageUrl"@.len() == 21 && "currentAvatarImageUrl"@[0] == 'c');
    assert("date_joined"@.len() == 11 && "date_joined"@[0] == 'd' && "date_joined"@[1] == 'a');
    assert("displayName"@.len() == 11 && "displayName"@[0] == 'd' && "displayName"@[1] == 'i');
    assert("id"@.len() == 2);
    if !allowed_fields().contains(key) {
        assert(allowed_fields()[0] == "id"@);
        assert(allowed_fields()[1] == "displayName"@);
        assert(allowed_fields()[2] == "date_joined"@);
        assert(allowed_fields()[3] == "currentAvatarImageUrl"@);
        assert(allowed_fields()[4] == "bioLinks"@);
        assert(allowed_fields()[5] == "bio"@);
        assert(allowed_fields()[6] == "badges"@);
        assert(allowed_fields()[7] == "ageVerificationStatus"@);
        assert(allowed_fields()[8] == "ageVerified"@);
    }
}

/// The label of a profile field.
pub fn translate_key(lang: Language, key: &str) -> (r: String)
    ensures
        r@ == key_label(lang, key@),
{
    let k = chars_of(key);
    let s = k.as_slice();
    if eq_lit(s, "ageVerificationStatus") {
        t0(lang, "age_verification_status")
    } else if eq_lit(s, "ageVerified") {
        t0(lang, "age_verified")
    } else if eq_lit(s, "badges") {
        t0(lang, "badges")
    } else if eq_lit(s, "bio") {
        t0(lang, "bio")
    } else if eq_lit(s, "bioLinks") {
        t0(lang, "bio_links")
    } else if eq_lit(s, "currentAvatarImageUrl") {
        t0(lang, "current_avatar_image_url")
    } else if eq_lit(s, "date_joined") {
        t0(lang, "date_joined")
    } else if eq_lit(s, "displayName") {
        t0(lang, "display_name")
    } else if eq_lit(s, "id") {
        t0(lang, "user_id")
    } else {
        key.to_owned()
    }
}

/// The list line of one element: a badge as `- **name**: description`, any
/// other object or value as its JSON text, a string as itself.
pub open spec fn item_line(item: JsonItem) -> Seq<char> {
    match item {
        JsonItem::Object { text, badge_name, badge_description, .. } => match badge_name {
            Some(n) => "- **"@ + n@ + "**: "@ + or_empty(badge_description),
            None => "- "@ + text@,
        },
        JsonItem::Text(s) => "- "@ + s@,
        JsonItem::Other(t) => "- "@ + t@,
    }
}

/// A JSON text without its surrounding quotes, when it has them.
pub open spec fn unquoted(s: Seq<char>) -> Seq<char> {
    if s.len() >= 2 && s[0] == '"' && s.last() == '"' {
        s.subrange(1, s.len() - 1)
    } else {
        s
    }
}

/// The lines of one profile field.
pub open spec fn field_lines(lang: Language, key: Seq<char>, value: FieldValue) -> Seq<Seq<char>> {
    let e = Seq::<char>::empty();
    let head = "**"@ + key_label(lang, key) + "**: "@;
    match value {
        FieldValue::Array(items) => if items@.len() == 0 {
            seq![head + msg(lang, "no_data"@), e]
        } else {
            seq![head, e] + items@.map_values(|it: JsonItem| item_line(it)) + seq![e]
        },
        FieldValue::Object(pretty) => seq![head, e, "```json"@] + split_on(pretty@, '\n') + seq![
            "```"@,
            e,
        ],
        FieldValue::Text(s) => if key == "bio"@ {
            seq![head, e] + split_on(s@, '\n').map_values(|l: Seq<char>| l + "  "@) + seq![e]
        } else {
            seq![head + replace_char(s@, '\n', "<br>"@), e]
        },
        FieldValue::Scalar(t) => seq![head + unquoted(t@), e],
    }
}

fn item_text(item: &JsonItem) -> (r: String)
    ensures
        r@ == item_line(*item),
{
    match item {
        JsonItem::Object { text, badge_name, badge_description, .. } => match badge_name {
            Some(n) => {
                let d = match badge_description {
                    Some(d) => d.clone(),
                    None => String::new(),
                };
                let r = cat5("- **", n.as_str(), "**: ", d.as_str(), "");
                proof {
                    reveal_strlit("");
                }
                r
            },
            None => cat2("- ", text.as_str()),
        },
        JsonItem::Text(s) => cat2("- ", s.as_str()),
        JsonItem::Other(t) => cat2("- ", t.as_str()),
    }
}

fn parts_of(text: &str, c: char) -> (r: Vec<String>)
    ensures
        views(r@) == split_on(text@, c),
{
    let ch = chars_of(text);
    let parts = split_chars(ch.as_slice(), c);
    let mut out: Vec<String> = Vec::new();
    let mut i: usize = 0;
    while i < parts.len()
        invariant
            i <= parts@.len(),
            parts@.len() == split_on(text@, c).len(),
            forall|k: int| 0 <= k < parts@.len() ==> #[trigger] parts@[k]@ == split_on(text@, c)[k],
            views(out@) == split_on(text@, c).take(i as int),
        decreases parts@.len() - i,
    {
        push_line(&mut out, string_from(parts[i].as_slice()));
        assert(split_on(text@, c).take(i + 1) == split_on(text@, c).take(i as int).push(
            split_on(text@, c)[i as int],
        ));
        i = i + 1;
    }
    assert(split_on(text@, c).take(split_on(text@, c).len() as int) == split_on(text@, c));
    out
}

/// The lines of one profile field under its label.
pub fn format_field(lang: Language, key: &str, value: &FieldValue) -> (r: Vec<String>)
    ensures
        views(r@) == field_lines(lang, key@, *value),
{
    let label = translate_key(lang, key);
    let head = cat3("**", label.as_str(), "**: ");
    let mut md: Vec<String> = Vec::new();
    match value {
        FieldValue::Array(items) => {
            if items.len() == 0 {
                push_line(&mut md, cat2(head.as_str(), t0(lang, "no_data").as_str()));
                push_line(&mut md, String::new());
            } else {
                push_line(&mut md, head);
                push_line(&mut md, String::new());
                let ghost top = views(md@);
                let mut i: usize = 0;
                while i < items.len()
                    invariant
                        i <= items@.len(),
                        views(md@) == top + items@.take(i as int).map_values(
                            |it: JsonItem| item_line(it),
                        ),
                    decreases items@.len() - i,
                {
                    push_line(&mut md, item_text(&items[i]));
                    assert(items@.take(i + 1).map_values(|it: JsonItem| item_line(it))
                        =~= items@.take(i as int).map_values(|it: JsonItem| item_line(it)).push(
                        item_line(items@[i as int]),
                    ));
                    i = i + 1;
                }
                assert(items@.take(items@.len() as int) == items@);
                push_line(&mut md, String::new());
            }
        },
        FieldValue::Object(pretty) => {
            push_line(&mut md, head);
            push_line(&mut md, String::new());
            push_line(&mut md, "```json".to_owned());
            push_lines(&mut md, parts_of(pretty.as_str(), '\n'));
            push_line(&mut md, "```".to_owned());
            push_line(&mut md, String::new());
        },
        FieldValue::Text(s) => {
            let k = chars_of(key);
            if eq_lit(k.as_slice(), "bio") {
                push_line(&mut md, head);
                push_line(&mut md, String::new());
                let parts = parts_of(s.as_str(), '\n');
                let ghost top = views(md@);
                let ghost ps = split_on(s@, '\n');
                let mut i: usize = 0;
                while i < parts.len()
                    invariant
                        i <= parts@.len(),
                        views(parts@) == ps,
                        views(md@) == top + ps.take(i as int).map_values(|l: Seq<char>| l + "  "@),
                    decreases parts@.len() - i,
                {
                    assert(views(parts@)[i as int] == parts@[i as int]@);
                    push_line(&mut md, cat2(parts[i].as_str(), "  "));
                    assert(ps.take(i + 1).map_values(|l: Seq<char>| l + "  "@) =~= ps.take(
                        i as int,
                    ).map_values(|l: Seq<char>| l + "  "@).push(ps[i as int] + "  "@));
                    i = i + 1;
                }
                assert(ps.take(ps.len() as int) == ps);
                push_line(&mut md, String::new());
            } else {
                let c = chars_of(s.as_str());
                let br = chars_of("<br>");
                let replaced = replace_char_chars(c.as_slice(), '\n', br.as_slice());
                push_line(&mut md, cat2(head.as_str(), string_from(replaced.as_slice()).as_str()));
                push_line(&mut md, String::new());
            }
        },
        FieldValue::Scalar(t) => {
            let c = chars_of(t.as_str());
            let n = c.len();
            let shown = if n >= 2 && c[0] == '"' && c[n - 1] == '"' {
                let mut inner: Vec<char> = Vec::new();
                let mut i: usize = 1;
                while i < n - 1
                    invariant
                        n == c@.len() >= 2,
                        1 <= i <= n - 1,
                        inner@ == c@.subrange(1, i as int),
                    decreases n - 1 - i,
                {
                    inner.push(c[i]);
                    assert(c@.subrange(1, i + 1) == c@.subrange(1, i as int).push(c@[i as int]));
                    i = i + 1;
                }
                string_from(inner.as_slice())
            } else {
                t.clone()
            };
            push_line(&mut md, cat2(head.as_str(), shown.as_str()));
            push_line(&mut md, String::new());
        },
    }
    assert(views(md@) =~= field_lines(lang, key@, *value));
    md
}

/// The value of field `key` of a profile object (its first entry with that
/// key).
pub open spec fn field_of(fields: Seq<(String, FieldValue)>, key: Seq<char>) -> Option<FieldValue>
    decreases fields.len(),
{
    if fields.len() == 0 {
        None
    } else if fields[0].0@ == key {
        Some(fields[0].1)
    } else {
        field_of(fields.drop_first(), key)
    }
}

/// The fields of a profile that is an object.
pub open spec fn fields_view(fields: Option<Vec<(String, FieldValue)>>) -> Option<Seq<(String, FieldValue)>> {
    match fields {
        Some(v) => Some(v@),
        None => None,
    }
}

/// The field `key` of a profile object.
pub fn lookup_field<'a>(fields: &'a Vec<(String, FieldValue)>, key: &str) -> (r: Option<&'a FieldValue>)
    ensures
        match r {
            Some(v) => field_of(fields@, key@) == Some(*v),
            None => field_of(fields@, key@) is None,
        },
{
    let k = chars_of(key);
    let mut i: usize = 0;
    assert(fields@.subrange(0, fields@.len() as int) == fields@);
    while i < fields.len()
        invariant
            k@ == key@,
            i <= fields@.len(),
            field_of(fields@, key@) == field_of(fields@.subrange(i as int, fields@.len() as int), key@),
        decreases fields@.len() - i,
    {
        let ghost rest = fields@.subrange(i as int, fields@.len() as int);
        assert(rest[0] == fields@[i as int]);
        if eq_lit(k.as_slice(), fields[i].0.as_str()) {
            return Some(&fields[i].1);
        }
        assert(rest.drop_first() == fields@.subrange(i + 1, fields@.len() as int));
        i = i + 1;
    }
    None
}

/// The texts of a list of keys.
pub open spec fn key_views(keys: Seq<&str>) -> Seq<Seq<char>> {
    keys.map_values(|k: &str| k@)
}

fn holds_key(keys: &[&str], key: &str) -> (r: bool)
    ensures
        r == key_views(keys@).contains(key@),
{
    let k = chars_of(key);
    let mut i: usize = 0;
    while i < keys.len()
        invariant
            k@ == key@,
            i <= keys@.len(),
            forall|j: int| 0 <= j < i ==> keys@[j]@ != key@,
        decreases keys@.len() - i,
    {
        if eq_lit(k.as_slice(), keys[i]) {
            assert(key_views(keys@)[i as int] == key@);
            return true;
        }
        i = i + 1;
    }
    assert forall|j: int| 0 <= j < key_views(keys@).len() implies key_views(keys@)[j] != key@ by {
        assert(key_views(keys@)[j] == keys@[j]@);
    }
    false
}

/// The lines of the priority fields, in the order of `keys`: each present one
/// that is also allowed.
pub open spec fn priority_lines(
    lang: Language,
    fields: Seq<(String, FieldValue)>,
    keys: Seq<Seq<char>>,
    allowed: Seq<Seq<char>>,
) -> Seq<Seq<char>>
    decreases keys.len(),
{
    if keys.len() == 0 {
        seq![]
    } else {
        priority_lines(lang, fields, keys.drop_last(), allowed) + match field_of(fields, keys.last()) {
            Some(v) => if allowed.contains(keys.last()) {
                field_lines(lang, keys.last(), v)
            } else {
                seq![]
            },
            None => seq![],
        }
    }
}

/// The lines of the other allowed fields, in the order of `keys`: each present
/// one that is not a priority field.
pub open spec fn other_lines(
    lang: Language,
    fields: Seq<(String, FieldValue)>,
    keys: Seq<Seq<char>>,
    priority: Seq<Seq<char>>,
) -> Seq<Seq<char>>
    decreases keys.len(),
{
    if keys.len() == 0 {
        seq![]
    } else {
        other_lines(lang, fields, keys.drop_last(), priority) + if priority.contains(keys.last()) {
            seq![]
        } else {
            match field_of(fields, keys.last()) {
                Some(v) => field_lines(lang, keys.last(), v),
                None => seq![],
            }
        }
    }
}

/// The body of a BIO page: the priority fields first, then the other allowed
/// fields; nothing when the profile is no object.
pub open spec fn md_body(
    lang: Language,
    fields: Option<Seq<(String, FieldValue)>>,
    allowed: Seq<Seq<char>>,
    priority: Seq<Seq<char>>,
) -> Seq<Seq<char>> {
    match fields {
        Some(f) => priority_lines(lang, f, priority, allowed) + other_lines(lang, f, allowed, priority),
        None => seq![],
    }
}

/// The body lines of a BIO page.
pub fn generate_md_body(
    lang: Language,
    fields: &Option<Vec<(String, FieldValue)>>,
    allowed_keys: &[&str],
    priority_keys: &[&str],
) -> (r: Vec<String>)
    ensures
        views(r@) == md_body(
            lang,
            fields_view(*fields),
            key_views(allowed_keys@),
            key_views(priority_keys@),
        ),
{
    let mut md: Vec<String> = Vec::new();
    match fields {
        None => {
            assert(views(md@) =~= Seq::<Seq<char>>::empty());
        },
        Some(f) => {
            let ghost allowed = key_views(allowed_keys@);
            let ghost priority = key_views(priority_keys@);
            let mut i: usize = 0;
            assert(views(md@) =~= priority_lines(lang, f@, priority.take(0), allowed));
            while i < priority_keys.len()
                invariant
                    allowed == key_views(allowed_keys@),
                    priority == key_views(priority_keys@),
                    i <= priority_keys@.len(),
                    views(md@) == priority_lines(lang, f@, priority.take(i as int), allowed),
                decreases priority_keys@.len() - i,
            {
                let key = priority_keys[i];
                assert(priority.take(i + 1).drop_last() == priority.take(i as int));
                assert(priority.take(i + 1).last() == key@);
                match lookup_field(f, key) {
                    Some(v) => {
                        if holds_key(allowed_keys, key) {
                            push_lines(&mut md, format_field(lang, key, v));
                        }
                    },
                    None => {},
                }
                i = i + 1;
            }
            assert(priority.take(priority.len() as int) == priority);
            let ghost first = views(md@);
            let mut j: usize = 0;
            assert(other_lines(lang, f@, allowed.take(0), priority) =~= Seq::<Seq<char>>::empty());
            while j < allowed_keys.len()
                invariant
                    allowed == key_views(allowed_keys@),
                    priority == key_views(priority_keys@),
                    j <= allowed_keys@.len(),
                    views(md@) == first + other_lines(lang, f@, allowed.take(j as int), priority),
                decreases allowed_keys@.len() - j,
            {
                let key = allowed_keys[j];
                assert(allowed.take(j + 1).drop_last() == allowed.take(j as int));
                assert(allowed.take(j + 1).last() == key@);
                if !holds_key(priority_keys, key) {
                    match lookup_field(f, key) {
                        Some(v) => {
                            push_lines(&mut md, format_field(lang, key, v));
                        },
                        None => {},
                    }
                }
                assert(views(md@) =~= first + other_lines(lang, f@, allowed.take(j + 1), priority));
                j = j + 1;
            }
            assert(allowed.take(allowed.len() as int) == allowed);
        },
    }
    md
}

/// The character class of the characters Windows forbids in file names.
pub const FORBIDDEN_CLASS: &'static str = "[\\\\/:*?\"<>|]";

/// Replaces every match of the regular expression `pattern` in `text` by `rep`
/// (`regex::Regex::new`, then `Regex::replace_all`). Called with the class of
/// the characters Windows forbids in file names and the replacement `"_"`
/// (no `$`, so taken literally), the pattern compiles and each such character
/// becomes `'_'`.
#[verifier::external_body]
fn regex_replace_all(pattern: &str, text: &str, rep: &str) -> (r: Option<String>)
    requires
        pattern@ == FORBIDDEN_CLASS@,
        rep@ == "_"@,
    ensures
        r is Some,
        r.unwrap()@ == text@.map_values(|c: char| name_char(c)),
{
    match regex::Regex::new(pattern) {
        Ok(re) => Some(re.replace_all(text, rep).to_string()),
        Err(_) => None,
    }
}

/// A display name made safe for a file name: trimmed, with the characters
/// Windows forbids replaced by `'_'`.
pub open spec fn safe_display_name(name: Seq<char>) -> Seq<char> {
    trim(name).map_values(|c: char| name_char(c))
}

/// Makes a display name safe for a file name.
pub fn safe_file_stem(display_name: &str) -> (r: String)
    ensures
        r@ == safe_display_name(display_name@),
{
    let c = chars_of(display_name);
    let t = string_from(trim_chars(c.as_slice()).as_slice());
    match regex_replace_all(FORBIDDEN_CLASS, t.as_str(), "_") {
        Some(s) => s,
        None => t,
    }
}

/// Each line of a description as a quoted line.
pub open spec fn quote_lines(parts: Seq<Seq<char>>) -> Seq<Seq<char>> {
    parts.map_values(|p: Seq<char>| "> "@ + p)
}

/// The lines of one group on a BIO page: heading, id, description (each of
/// its lines a quoted line of its own), and a rule.
pub open spec fn bio_group_block(lang: Language, item: JsonItem) -> Seq<Seq<char>> {
    let e = Seq::<char>::empty();
    let (name, gid, desc) = match item {
        JsonItem::Object { name, group_id, description, .. } => (
            or_na(name),
            or_na(group_id),
            or_empty(description),
        ),
        _ => ("N/A"@, "N/A"@, e),
    };
    seq![
        "## "@ + name,
        "- **"@ + msg(lang, "group_id"@) + "**: `"@ + gid + "`"@,
        "- **"@ + msg(lang, "description"@) + "**:"@,
    ] + quote_lines(split_on(desc, '\n')) + seq![e, "---"@, e]
}

/// The group blocks of a BIO page.
pub open spec fn bio_group_blocks(lang: Language, items: Seq<JsonItem>) -> Seq<Seq<char>>
    decreases items.len(),
{
    if items.len() == 0 {
        seq![]
    } else {
        bio_group_blocks(lang, items.drop_last()) + bio_group_block(lang, items.last())
    }
}

/// The groups listed on a BIO page: the elements of the profile's `groups`
/// list.
pub open spec fn page_groups(fields: Option<Seq<(String, FieldValue)>>) -> Seq<JsonItem> {
    match fields {
        Some(f) => match field_of(f, "groups"@) {
            Some(FieldValue::Array(items)) => items@,
            _ => seq![],
        },
        None => seq![],
    }
}

/// The display name a BIO page is filed under: the profile's, else
/// `unknown_user`.
pub open spec fn page_name(fields: Option<Seq<(String, FieldValue)>>) -> Seq<char> {
    match fields {
        Some(f) => match field_of(f, "displayName"@) {
            Some(FieldValue::Text(s)) => s@,
            _ => "unknown_user"@,
        },
        None => "unknown_user"@,
    }
}

/// The fields a BIO page shows, in order of preference.
pub open spec fn allowed_fields() -> Seq<Seq<char>> {
    seq![
        "id"@,
        "displayName"@,
        "date_joined"@,
        "currentAvatarImageUrl"@,
        "bioLinks"@,
        "bio"@,
        "badges"@,
        "ageVerificationStatus"@,
        "ageVerified"@,
    ]
}

/// The fields a BIO page shows first.
pub open spec fn priority_fields() -> Seq<Seq<char>> {
    seq!["displayName"@, "bio"@, "bioLinks"@]
}

/// All lines of a BIO page.
pub open spec fn page_lines(
    lang: Language,
    fields: Option<Seq<(String, FieldValue)>>,
    retrieved_at: Seq<char>,
) -> Seq<Seq<char>> {
    let e = Seq::<char>::empty();
    seq![msg(lang, "user_info_title"@), e] + md_body(lang, fields, allowed_fields(), priority_fields())
        + seq!["---"@, "> Retrieval Time: "@ + retrieved_at, "---"@, e] + seq![
        msg(lang, "user_info_groups_title"@),
        e,
    ] + bio_group_blocks(lang, page_groups(fields))
}

/// A rendered BIO page: its text, the safe display name it is filed under,
/// and (counted in lines from 1) where the profile ends and the groups start
/// and end.
#[derive(Debug)]
pub struct BioPage {
    pub content: String,
    pub safe_name: String,
    pub bio_end_line: usize,
    pub groups_start_line: usize,
    pub groups_end_line: usize,
}

/// The file name of a BIO page.
pub open spec fn page_file(p: BioPage) -> Seq<char> {
    p.safe_name@ + "_L1-L"@ + decimal(p.bio_end_line as nat) + "_BIO_L"@ + decimal(
        p.groups_start_line as nat,
    ) + "-L"@ + decimal(p.groups_end_line as nat) + "_GROUPS.md"@
}

fn bio_group_lines(lang: Language, item: &JsonItem) -> (r: Vec<String>)
    ensures
        views(r@) == bio_group_block(lang, *item),
{
    let (name, gid, desc) = match item {
        JsonItem::Object { name, group_id, description, .. } => (
            match name {
                Some(n) => n.clone(),
                None => "N/A".to_owned(),
            },
            match group_id {
                Some(g) => g.clone(),
                None => "N/A".to_owned(),
            },
            match description {
                Some(d) => d.clone(),
                None => String::new(),
            },
        ),
        _ => ("N/A".to_owned(), "N/A".to_owned(), String::new()),
    };
    let mut v: Vec<String> = Vec::new();
    push_line(&mut v, cat2("## ", name.as_str()));
    push_line(&mut v, cat5("- **", t0(lang, "group_id").as_str(), "**: `", gid.as_str(), "`"));
    push_line(&mut v, cat3("- **", t0(lang, "description").as_str(), "**:"));
    let ghost head = views(v@);
    let dc = chars_of(desc.as_str());
    let parts = split_chars(dc.as_slice(), '\n');
    let ghost ps = split_on(desc@, '\n');
    let mut k: usize = 0;
    while k < parts.len()
        invariant
            k <= parts@.len() == ps.len(),
            dc@ == desc@,
            forall|i: int| 0 <= i < parts@.len() ==> #[trigger] parts@[i]@ == ps[i],
            views(v@) == head + quote_lines(ps.take(k as int)),
        decreases parts@.len() - k,
    {
        let part = string_from(parts[k].as_slice());
        push_line(&mut v, cat2("> ", part.as_str()));
        assert(quote_lines(ps.take(k + 1)) =~= quote_lines(ps.take(k as int)).push("> "@ + ps[k as int]));
        k = k + 1;
    }
    assert(ps.take(ps.len() as int) =~= ps);
    push_line(&mut v, String::new());
    push_line(&mut v, "---".to_owned());
    push_line(&mut v, String::new());
    assert(views(v@) =~= bio_group_block(lang, *item));
    v
}

/// Renders the BIO page of a profile (`None` when the profile is no object),
/// retrieved at `retrieved_at`.
#[verifier::rlimit(50)]
#[verifier::spinoff_prover]
pub fn render_bio_page(
    lang: Language,
    fields: &Option<Vec<(String, FieldValue)>>,
    retrieved_at: &str,
) -> (r: BioPage)
    ensures
        ({
            let f = fields_view(*fields);
            let all = page_lines(lang, f, retrieved_at@);
            let body = md_body(lang, f, allowed_fields(), priority_fields());
            &&& r.content@ == joined(all)
            &&& r.safe_name@ == safe_display_name(page_name(f))
            &&& r.bio_end_line == 2 + body.len()
            &&& r.groups_start_line == 2 + body.len() + 5
            &&& r.groups_end_line == split_on(r.content@, '\n').len()
            &&& (forall|i: int| 0 <= i < all.len() ==> !(#[trigger] all[i]).contains('\n'))
                ==> r.groups_end_line == all.len()
            &&& all.subrange(0, r.bio_end_line as int) == seq![
                msg(lang, "user_info_title"@),
                Seq::<char>::empty(),
            ] + body
            &&& all[r.groups_start_line - 1] == msg(lang, "user_info_groups_title"@)
        }),
{
    let ghost f = fields_view(*fields);
    let name = match fields {
        Some(fs) => match lookup_field(fs, "displayName") {
            Some(FieldValue::Text(s)) => s.clone(),
            _ => "unknown_user".to_owned(),
        },
        None => "unknown_user".to_owned(),
    };
    assert(name@ == page_name(f));
    let safe_name = safe_file_stem(name.as_str());
    let allowed: [&str; 9] = [
        "id",
        "displayName",
        "date_joined",
        "currentAvatarImageUrl",
        "bioLinks",
        "bio",
        "badges",
        "ageVerificationStatus",
        "ageVerified",
    ];
    let priority: [&str; 3] = ["displayName", "bio", "bioLinks"];
    assert(key_views(allowed@) =~= allowed_fields());
    assert(key_views(priority@) =~= priority_fields());
    let mut md: Vec<String> = Vec::new();
    push_line(&mut md, t0(lang, "user_info_title"));
    push_line(&mut md, String::new());
    let body = generate_md_body(lang, fields, allowed.as_slice(), priority.as_slice());
    assert(body@.len() == views(body@).len());
    push_lines(&mut md, body);
    let bio_end_line = md.len();
    push_line(&mut md, "---".to_owned());
    push_line(&mut md, cat2("> Retrieval Time: ", retrieved_at));
    push_line(&mut md, "---".to_owned());
    push_line(&mut md, String::new());
    push_line(&mut md, t0(lang, "user_info_groups_title"));
    let groups_start_line = md.len();
    push_line(&mut md, String::new());
    let ghost top = views(md@);
    let groups = match fields {
        Some(fs) => match lookup_field(fs, "groups") {
            Some(FieldValue::Array(items)) => Some(items),
            _ => None,
        },
        None => None,
    };
    match groups {
        Some(items) => {
            assert(items@ == page_groups(f));
            let mut k: usize = 0;
            while k < items.len()
                invariant
                    k <= items@.len(),
                    views(md@) == top + bio_group_blocks(lang, items@.take(k as int)),
                decreases items@.len() - k,
            {
                assert(items@.take(k + 1).drop_last() == items@.take(k as int));
                push_lines(&mut md, bio_group_lines(lang, &items[k]));
                assert(views(md@) =~= top + bio_group_blocks(lang, items@.take(k + 1)));
                k = k + 1;
            }
            assert(items@.take(items@.len() as int) == items@);
        },
        None => {
            assert(page_groups(f) =~= Seq::<JsonItem>::empty());
            assert(views(md@) =~= top + bio_group_blocks(lang, page_groups(f)));
        },
    }
    assert(views(md@) =~= page_lines(lang, f, retrieved_at@));
    assert(md@.len() == views(md@).len());
    let content = join_lines(&md);
    let content_chars = chars_of(content.as_str());
    let groups_end_line = split_chars(content_chars.as_slice(), '\n').len();
    proof {
        let all = views(md@);
        if forall|i: int| 0 <= i < all.len() ==> !(#[trigger] all[i]).contains('\n') {
            lemma_split_joined(all);
        }
    }
    BioPage {
        content,
        safe_name,
        bio_end_line,
        groups_start_line,
        groups_end_line,
    }
}

/// The file name of a BIO page.
pub fn bio_file_name(p: &BioPage) -> (r: String)
    ensures
        r@ == page_file(*p),
{
    let mut v: Vec<char> = Vec::new();
    append_str(&mut v, p.safe_name.as_str());
    append_str(&mut v, "_L1-L");
    append_str(&mut v, u64_text(p.bio_end_line as u64).as_str());
    append_str(&mut v, "_BIO_L");
    append_str(&mut v, u64_text(p.groups_start_line as u64).as_str());
    append_str(&mut v, "-L");
    append_str(&mut v, u64_text(p.groups_end_line as u64).as_str());
    append_str(&mut v, "_GROUPS.md");
    string_from(v.as_slice())
}

/// A text field of a profile object, or `default` when the profile is no
/// object or the field is missing or no text.
pub open spec fn text_field_or(
    fields: Option<Seq<(String, FieldValue)>>,
    key: Seq<char>,
    default: Seq<char>,
) -> Seq<char> {
    match fields {
        Some(f) => match field_of(f, key) {
            Some(FieldValue::Text(s)) => s@,
            _ => default,
        },
        None => default,
    }
}

/// A text field of a profile, or `default`.
pub fn profile_text(fields: &Option<Vec<(String, FieldValue)>>, key: &str, default: &str) -> (r: String)
    ensures
        r@ == text_field_or(fields_view(*fields), key@, default@),
{
    match fields {
        Some(fs) => match lookup_field(fs, key) {
            Some(FieldValue::Text(s)) => s.clone(),
            _ => default.to_owned(),
        },
        None => default.to_owned(),
    }
}

/// A saved BIO page of the user `stem` names: its file name starts with
/// `<stem>_L1-` and ends with `.md`.
pub open spec fn is_bio_file_of(name: Seq<char>, stem: Seq<char>) -> bool {
    crate::watcher::starts_with(name, stem + "_L1-"@) && crate::watcher::ends_with(name, ".md"@)
}

/// The first of the saved file `names` that is a BIO page of the user with
/// this display name.
pub fn find_existing_bio_file(names: &[String], display_name: &str) -> (r: Option<usize>)
    ensures
        match r {
            Some(i) => i < names@.len() && is_bio_file_of(
                names@[i as int]@,
                safe_display_name(display_name@),
            ) && forall|j: int|
                0 <= j < i ==> !is_bio_file_of(
                    #[trigger] names@[j]@,
                    safe_display_name(display_name@),
                ),
            None => forall|j: int|
                0 <= j < names@.len() ==> !is_bio_file_of(
                    #[trigger] names@[j]@,
                    safe_display_name(display_name@),
                ),
        },
{
    let stem = safe_file_stem(display_name);
    let mut pat: Vec<char> = Vec::new();
    append_str(&mut pat, stem.as_str());
    append_str(&mut pat, "_L1-");
    let md = chars_of(".md");
    let mut i: usize = 0;
    while i < names.len()
        invariant
            pat@ == safe_display_name(display_name@) + "_L1-"@,
            md@ == ".md"@,
            i <= names@.len(),
            forall|j: int|
                0 <= j < i ==> !is_bio_file_of(#[trigger] names@[j]@, safe_display_name(display_name@)),
        decreases names@.len() - i,
    {
        let n = chars_of(names[i].as_str());
        let ends = n.len() >= md.len() && crate::text::occurs_at_exec(
            n.as_slice(),
            md.as_slice(),
            n.len() - md.len(),
        );
        if ends && crate::text::occurs_at_exec(n.as_slice(), pat.as_slice(), 0) {
            return Some(i);
        }
        i = i + 1;
    }
    None
}

/// The least time between two fetches of any profile: 6 s.
pub const BIO_GLOBAL_GAP_NANOS: u64 = 6_000_000_000;

/// The least time between two fetches of one user's profile: a minute.
pub const BIO_USER_GAP_NANOS: u64 = 60_000_000_000;

/// A fetch at `now` comes less than 6 s after the last one.
pub open spec fn global_wait(last: Option<u64>, now: u64) -> bool {
    last matches Some(t) && elapsed(now, t) < BIO_GLOBAL_GAP_NANOS
}

/// A fetch of `user` at `now` comes less than a minute after its last one.
pub open spec fn user_wait(users: Map<Seq<char>, u64>, user: Seq<char>, now: u64) -> bool {
    users.contains_key(user) && elapsed(now, users[user]) < BIO_USER_GAP_NANOS
}

/// A rate check of `user` at `now`: the last fetch time and the per-user
/// times after it, and whether the fetch may go ahead. Refused for the
/// global gap, nothing changes; refused for the user's gap, the attempt still
/// counts as the last fetch.
pub open spec fn rate_check(
    last: Option<u64>,
    users: Map<Seq<char>, u64>,
    user: Seq<char>,
    now: u64,
) -> (Option<u64>, Map<Seq<char>, u64>, bool) {
    if global_wait(last, now) {
        (last, users, false)
    } else if user_wait(users, user, now) {
        (Some(now), users, false)
    } else {
        (Some(now), users.insert(user, now), true)
    }
}

/// The limits on fetching profiles: when the last fetch was, and when each
/// user's profile was last fetched.
#[derive(Debug)]
pub struct BioRateLimiter {
    pub last_global_fetch: Option<u64>,
    pub user_requests: StampMap,
}

impl BioRateLimiter {
    /// Each user is remembered once.
    pub open spec fn wf(&self) -> bool {
        self.user_requests.wf()
    }

    /// No fetch yet.
    pub fn new() -> (r: BioRateLimiter)
        ensures
            r.wf(),
            r.last_global_fetch is None,
            r.user_requests@ == Map::<Seq<char>, u64>::empty(),
    {
        BioRateLimiter { last_global_fetch: None, user_requests: StampMap::new() }
    }

    /// Checks whether the profile of `user_id` may be fetched at `now`
    /// (nanoseconds on a monotonic clock), and records the fetch.
    pub fn check_rate_limit(&mut self, user_id: &str, now: u64) -> (r: Result<(), String>)
        requires
            old(self).wf(),
        ensures
            final(self).wf(),
            (final(self).last_global_fetch, final(self).user_requests@, r is Ok) == rate_check(
                old(self).last_global_fetch,
                old(self).user_requests@,
                user_id@,
                now,
            ),
            r matches Err(m) ==> m@ == (if global_wait(old(self).last_global_fetch, now) {
                "Rate limit reached: Minimum 6s between any BIO fetches"@
            } else {
                "Rate limit reached for user "@ + user_id@ + " (1/min)"@
            }),
    {
        match self.last_global_fetch {
            Some(t) => {
                if elapsed_since(now, t) < BIO_GLOBAL_GAP_NANOS {
                    return Err("Rate limit reached: Minimum 6s between any BIO fetches".to_owned());
                }
            },
            None => {},
        }
        self.last_global_fetch = Some(now);
        match self.user_requests.get(user_id) {
            Some(t) => {
                if elapsed_since(now, t) < BIO_USER_GAP_NANOS {
                    return Err(cat3("Rate limit reached for user ", user_id, " (1/min)"));
                }
            },
            None => {},
        }
        self.user_requests.set(user_id, now);
        Ok(())
    }
}

/// Two granted fetches are at least 6 s apart: after a granted fetch at `t1`,
/// any fetch from `t1` to less than 6 s later is refused, whoever it is for.
pub proof fn lemma_fetches_spaced(
    last: Option<u64>,
    users: Map<Seq<char>, u64>,
    u1: Seq<char>,
    t1: u64,
    u2: Seq<char>,
    t2: u64,
)
    requires
        rate_check(last, users, u1, t1).2,
        t1 <= t2 < t1 + BIO_GLOBAL_GAP_NANOS,
    ensures
        !rate_check(rate_check(last, users, u1, t1).0, rate_check(last, users, u1, t1).1, u2, t2).2,
{
}

/// A user's profile is fetched at most once a minute: while a user's last
/// fetch was less than a minute ago, a fetch for that user is refused, and
/// checks for other users leave that time as it is.
pub proof fn lemma_user_fetch_once_a_minute(
    last: Option<u64>,
    users: Map<Seq<char>, u64>,
    u: Seq<char>,
    t1: u64,
    other: Seq<char>,
    t2: u64,
)
    requires
        users.contains_key(u),
        users[u] == t1,
        t1 <= t2 < t1 + BIO_USER_GAP_NANOS,
    ensures
        !rate_check(last, users, u, t2).2,
        other != u ==> rate_check(last, users, other, t2).1.contains_key(u)
            && rate_check(last, users, other, t2).1[u] == t1,
{
}

} // verus!
