//! The per-user report: a profile section, the last month of VRCX timeline
//! records (newest first), and the user's groups, rendered as markdown whose
//! file name tells where each section starts and ends.
use vstd::prelude::*;

use crate::i18n::{t0, translation, views, Language};
use crate::markdown::{
    bold_kv, bold_kv_line, cat2, cat3, cat5, cat7, join_lines, joined, lemma_split_joined, push_line,
    push_lines,
};
use crate::session::is_forbidden;
use crate::text::{
    append_chars, append_str, chars_of, lemma_trim_end_shape, lemma_trim_start_shape,
    lines, lines_of, replace_char, replace_char_chars, string_from, trim, trim_chars, trim_start, decimal, split_on, u64_text,
};
use crate::translations::eq_lit;
use crate::watcher::opt_view;

verus! {

/// The kind of a timeline record.
#[derive(Debug, Clone, Copy, PartialEq, Eq, Structural)]
pub enum TimelineKind {
    Location,
    Online,
    Offline,
    Bio,
    Status,
    Avatar,
}

/// The label of a timeline kind in the report's table.
pub open spec fn kind_label(kind: TimelineKind) -> Seq<char> {
    match kind {
        TimelineKind::Location => "位置"@,
        TimelineKind::Online => "上线"@,
        TimelineKind::Offline => "下线"@,
        TimelineKind::Bio => "简介"@,
        TimelineKind::Status => "状态"@,
        TimelineKind::Avatar => "模型"@,
    }
}

impl TimelineKind {
    /// The label shown in the report's table.
    pub fn label(self) -> (r: &'static str)
        ensures
            r@ == kind_label(self),
    {
        match self {
            TimelineKind::Location => "位置",
            TimelineKind::Online => "上线",
            TimelineKind::Offline => "下线",
            TimelineKind::Bio => "简介",
            TimelineKind::Status => "状态",
            TimelineKind::Avatar => "模型",
        }
    }
}

/// An ASCII letter or digit (`char::is_ascii_alphanumeric`).
pub open spec fn is_ascii_alnum(c: char) -> bool {
    ('0' <= c && c <= '9') || ('a' <= c && c <= 'z') || ('A' <= c && c <= 'Z')
}

/// The VRCX table prefix of an account: its user id with everything but ASCII
/// letters and digits removed.
pub open spec fn table_prefix(user_id: Seq<char>) -> Seq<char> {
    user_id.filter(|c: char| is_ascii_alnum(c))
}

/// The VRCX table prefix of the account `user_id`.
pub fn normalize_table_prefix(user_id: &str) -> (r: String)
    ensures
        r@ == table_prefix(user_id@),
{
    let c = chars_of(user_id);
    let mut out: Vec<char> = Vec::new();
    let mut i: usize = 0;
    while i < c.len()
        invariant
            i <= c@.len(),
            out@ == c@.take(i as int).filter(|c: char| is_ascii_alnum(c)),
        decreases c@.len() - i,
    {
        let x = c[i];
        if ('0' <= x && x <= '9') || ('a' <= x && x <= 'z') || ('A' <= x && x <= 'Z') {
            out.push(x);
        }
        proof {
            reveal_with_fuel(Seq::filter, 1);
            assert(c@.take(i + 1).drop_last() == c@.take(i as int));
        }
        i = i + 1;
    }
    assert(c@.take(c@.len() as int) == c@);
    string_from(out.as_slice())
}

/// The VRCX table of `suffix` for the account whose prefix is `prefix`.
pub open spec fn table_of(prefix: Seq<char>, suffix: Seq<char>) -> Seq<char> {
    prefix + seq!['_'] + suffix
}

/// The name of the VRCX table `suffix` of an account (`<prefix>_<suffix>`).
pub fn table_name(prefix: &str, suffix: &str) -> (r: String)
    ensures
        r@ == table_of(prefix@, suffix@),
{
    let mut v: Vec<char> = Vec::new();
    append_str(&mut v, prefix);
    v.push('_');
    append_str(&mut v, suffix);
    string_from(v.as_slice())
}

/// A character that may stand in a folder name: the ones Windows forbids
/// become `'_'`.
pub open spec fn name_char(c: char) -> char {
    if is_forbidden(c) {
        '_'
    } else {
        c
    }
}

/// A display name made safe for a folder name: trimmed, with the characters
/// Windows forbids replaced by `'_'`; a blank name becomes `unknown_user`.
pub open spec fn safe_name(name: Seq<char>) -> Seq<char> {
    if trim(name).len() == 0 {
        "unknown_user"@
    } else {
        trim(name).map_values(|c: char| name_char(c))
    }
}

/// Makes a display name safe for a folder and file name.
pub fn sanitize_name(name: &str) -> (r: String)
    ensures
        r@ == safe_name(name@),
{
    let c = chars_of(name);
    let t = trim_chars(c.as_slice());
    if t.len() == 0 {
        return "unknown_user".to_owned();
    }
    let mut out: Vec<char> = Vec::new();
    let mut i: usize = 0;
    while i < t.len()
        invariant
            i <= t@.len(),
            out@ == t@.take(i as int).map_values(|c: char| name_char(c)),
        decreases t@.len() - i,
    {
        let x = t[i];
        if x == '\\' || x == '/' || x == ':' || x == '*' || x == '?' || x == '"' || x == '<' || x
            == '>' || x == '|' {
            out.push('_');
        } else {
            out.push(x);
        }
        assert(t@.take(i + 1) == t@.take(i as int).push(x));
        i = i + 1;
    }
    assert(t@.take(t@.len() as int) == t@);
    string_from(out.as_slice())
}

/// Text that starts and ends with a character other than white space is its
/// own trim.
proof fn lemma_trim_fixed(s: Seq<char>)
    requires
        s.len() > 0,
        !crate::text::is_white(s[0]),
        !crate::text::is_white(s.last()),
    ensures
        trim(s) == s,
{
    assert(trim_start(s) == s);
}

/// A safe name is never blank, holds no character Windows forbids, and making
/// it safe again changes nothing.
pub proof fn lemma_safe_name_is_stable(name: Seq<char>)
    ensures
        safe_name(name).len() > 0,
        forall|i: int| 0 <= i < safe_name(name).len() ==> !is_forbidden(#[trigger] safe_name(name)[i]),
        safe_name(safe_name(name)) == safe_name(name),
{
    reveal_strlit("unknown_user");
    let t = trim(name);
    if t.len() == 0 {
        let u = "unknown_user"@;
        lemma_trim_fixed(u);
        assert(u.map_values(|c: char| name_char(c)) == u);
    } else {
        lemma_trim_start_shape(name);
        lemma_trim_end_shape(trim_start(name));
        let m = t.map_values(|c: char| name_char(c));
        assert(!crate::text::is_white(t[0]));
        assert(!crate::text::is_white(m[0]));
        assert(!crate::text::is_white(m.last()));
        lemma_trim_fixed(m);
        assert(m.map_values(|c: char| name_char(c)) == m);
    }
}

/// A table cell: every `'|'` escaped as `"\|"`.
pub open spec fn escaped_cell(value: Seq<char>) -> Seq<char> {
    replace_char(value, '|', seq!['\\', '|'])
}

/// Escapes the `'|'` characters of a table cell.
pub fn escape_table(value: &str) -> (r: String)
    ensures
        r@ == escaped_cell(value@),
{
    let c = chars_of(value);
    if c.len() == 0 {
        return String::new();
    }
    let mut rep: Vec<char> = Vec::new();
    rep.push('\\');
    rep.push('|');
    assert(rep@ == seq!['\\', '|']);
    let r = replace_char_chars(c.as_slice(), '|', rep.as_slice());
    string_from(r.as_slice())
}

/// The first of `ls`, trimmed, that is not blank (empty when there is none).
pub open spec fn first_nonblank(ls: Seq<Seq<char>>) -> Seq<char>
    decreases ls.len(),
{
    if ls.len() == 0 {
        seq![]
    } else if trim(ls[0]).len() > 0 {
        trim(ls[0])
    } else {
        first_nonblank(ls.drop_first())
    }
}

/// A one-line summary of a bio: its first non-blank line, trimmed, with `'|'`
/// as `'/'`, cut to 32 characters followed by `"..."` when longer.
pub open spec fn bio_summary(value: Seq<char>) -> Seq<char> {
    let s = replace_char(first_nonblank(lines(value)), '|', seq!['/']);
    if s.len() > 32 {
        s.take(32) + "..."@
    } else {
        s
    }
}

/// Summarizes a bio in one line.
pub fn summarize_bio(value: &str) -> (r: String)
    ensures
        r@ == bio_summary(value@),
{
    let c = chars_of(value);
    let ls = lines_of(c.as_slice());
    let mut first: Vec<char> = Vec::new();
    let mut found = false;
    let mut i: usize = 0;
    let ghost all = lines(value@);
    assert(all.subrange(0, all.len() as int) == all);
    while i < ls.len() && !found
        invariant
            i <= ls@.len() == all.len(),
            all == lines(value@),
            forall|k: int| 0 <= k < ls@.len() ==> #[trigger] ls@[k]@ == all[k],
            !found ==> first@.len() == 0 && first_nonblank(all) == first_nonblank(
                all.subrange(i as int, all.len() as int),
            ),
            found ==> first@ == first_nonblank(all),
        decreases ls@.len() - i + (if found { 0int } else { 1int }),
    {
        let t = trim_chars(ls[i].as_slice());
        let ghost rest = all.subrange(i as int, all.len() as int);
        assert(rest[0] == all[i as int]);
        if t.len() > 0 {
            first = t;
            found = true;
        } else {
            assert(rest.drop_first() == all.subrange(i + 1, all.len() as int));
            i = i + 1;
        }
    }
    proof {
        if !found {
            assert(all.subrange(i as int, all.len() as int).len() == 0);
        }
    }
    assert(first@ == first_nonblank(all));
    let mut slash: Vec<char> = Vec::new();
    slash.push('/');
    assert(slash@ == seq!['/']);
    let s = replace_char_chars(first.as_slice(), '|', slash.as_slice());
    if s.len() > 32 {
        let mut cut: Vec<char> = Vec::new();
        let mut k: usize = 0;
        while k < 32
            invariant
                k <= 32 < s@.len(),
                cut@ == s@.take(k as int),
            decreases 32 - k,
        {
            cut.push(s[k]);
            assert(s@.take(k + 1) == s@.take(k as int).push(s@[k as int]));
            k = k + 1;
        }
        append_str(&mut cut, "...");
        string_from(cut.as_slice())
    } else {
        string_from(s.as_slice())
    }
}

/// The detail of a bio change: what was added, what was cleared, or what
/// became what.
pub open spec fn bio_detail(current: Seq<char>, previous: Seq<char>) -> Seq<char> {
    let cur = bio_summary(current);
    let prev = bio_summary(previous);
    if prev.len() == 0 && cur.len() > 0 {
        "新增: "@ + cur
    } else if prev.len() > 0 && cur.len() == 0 {
        "清空: "@ + prev
    } else if prev.len() > 0 && cur.len() > 0 {
        "由「"@ + prev + "」改为「"@ + cur + "」"@
    } else {
        "简介已变更"@
    }
}

/// Describes a bio change.
pub fn format_bio_detail(current: &str, previous: &str) -> (r: String)
    ensures
        r@ == bio_detail(current@, previous@),
{
    let cur = summarize_bio(current);
    let prev = summarize_bio(previous);
    let cur_empty = cur.as_str().is_empty();
    let prev_empty = prev.as_str().is_empty();
    let mut v: Vec<char> = Vec::new();
    if prev_empty && !cur_empty {
        append_str(&mut v, "新增: ");
        append_str(&mut v, cur.as_str());
    } else if !prev_empty && cur_empty {
        append_str(&mut v, "清空: ");
        append_str(&mut v, prev.as_str());
    } else if !prev_empty && !cur_empty {
        append_str(&mut v, "由「");
        append_str(&mut v, prev.as_str());
        append_str(&mut v, "」改为「");
        append_str(&mut v, cur.as_str());
        append_str(&mut v, "」");
    } else {
        append_str(&mut v, "简介已变更");
    }
    string_from(v.as_slice())
}

/// The name a status is shown with.
pub open spec fn status_name(status: Seq<char>) -> Seq<char> {
    if status == "active"@ {
        "在线"@
    } else if status == "join me"@ {
        "跟随我"@
    } else if status == "ask me"@ {
        "请先询问"@
    } else if status == "busy"@ {
        "忙碌"@
    } else if status == "offline"@ {
        "离线"@
    } else {
        status
    }
}

/// The detail of a status record: `[name]`, followed by the trimmed
/// description when it is not blank.
pub open spec fn status_detail(status: Seq<char>, description: Seq<char>) -> Seq<char> {
    if trim(description).len() == 0 {
        "["@ + status_name(status) + "]"@
    } else {
        "["@ + status_name(status) + "] "@ + trim(description)
    }
}

/// Describes a status record.
pub fn format_status_detail(status: &str, description: &str) -> (r: String)
    ensures
        r@ == status_detail(status@, description@),
{
    let s = chars_of(status);
    let mut v: Vec<char> = Vec::new();
    append_str(&mut v, "[");
    if eq_lit(s.as_slice(), "active") {
        append_str(&mut v, "在线");
    } else if eq_lit(s.as_slice(), "join me") {
        append_str(&mut v, "跟随我");
    } else if eq_lit(s.as_slice(), "ask me") {
        append_str(&mut v, "请先询问");
    } else if eq_lit(s.as_slice(), "busy") {
        append_str(&mut v, "忙碌");
    } else if eq_lit(s.as_slice(), "offline") {
        append_str(&mut v, "离线");
    } else {
        append_chars(&mut v, s.as_slice());
    }
    let d = chars_of(description);
    let t = trim_chars(d.as_slice());
    if t.len() > 0 {
        append_str(&mut v, "] ");
        append_chars(&mut v, t.as_slice());
    } else {
        append_str(&mut v, "]");
    }
    string_from(v.as_slice())
}

/// A JSON value as a report shows it: `null`, a string, or any other value
/// in its compact JSON text.
#[derive(Debug)]
pub enum JsonField {
    Null,
    Text(String),
    Raw(String),
}

/// How a JSON value is shown: `null` as "no data", a string as itself, any
/// other value as its JSON text.
pub open spec fn json_text(lang: Language, value: JsonField) -> Seq<char> {
    match value {
        JsonField::Null => translation(lang, "no_data"@),
        JsonField::Text(s) => s@,
        JsonField::Raw(s) => s@,
    }
}

/// Shows a JSON value.
pub fn value_to_string(lang: Language, value: &JsonField) -> (r: String)
    ensures
        r@ == json_text(lang, *value),
{
    match value {
        JsonField::Null => t0(lang, "no_data"),
        JsonField::Text(s) => s.clone(),
        JsonField::Raw(s) => s.clone(),
    }
}


/// The instant an RFC 3339 timestamp names, as whole seconds since the Unix
/// epoch and nanoseconds within that second; none when it is not a valid
/// RFC 3339 timestamp.
pub uninterp spec fn rfc3339_instant(text: Seq<char>) -> Option<(i64, u32)>;

/// A wall-clock time as the report shows it, `MM/DD hh:mm:ss`: month, day,
/// hour, minute and second, each as two decimal digits.
pub open spec fn clock_text(s: Seq<char>) -> bool {
    &&& s.len() == 14
    &&& s[2] == '/' && s[5] == ' ' && s[8] == ':' && s[11] == ':'
    &&& forall|i: int|
        0 <= i < 14 && i != 2 && i != 5 && i != 8 && i != 11 ==> '0' <= #[trigger] s[i] <= '9'
}

/// Parses an RFC 3339 timestamp (`chrono::DateTime::parse_from_rfc3339`):
/// the instant it names, by `rfc3339_instant`, and its wall-clock time in the
/// machine's time zone, formatted `%m/%d %H:%M:%S` (each field zero-padded to
/// two digits). Which wall-clock time that is depends on the machine's time
/// zone, so only the text's shape is claimed.
#[verifier::external_body]
fn parse_instant(text: &str) -> (r: Option<(i64, u32, String)>)
    ensures
        match r {
            Some((secs, nanos, clock)) => rfc3339_instant(text@) == Some((secs, nanos))
                && clock_text(clock@),
            None => rfc3339_instant(text@) is None,
        },
{
    match chrono::DateTime::parse_from_rfc3339(text) {
        Ok(d) => Some(
            (
                d.timestamp(),
                d.timestamp_subsec_nanos(),
                d.with_timezone(&chrono::Local).format("%m/%d %H:%M:%S").to_string(),
            ),
        ),
        Err(_) => None,
    }
}

/// One timeline record: when it happened (seconds since the Unix epoch and
/// nanoseconds), its wall-clock time as the report shows it, its kind and its
/// detail.
#[derive(Debug)]
pub struct TimelineEvent {
    pub occurred_secs: i64,
    pub occurred_nanos: u32,
    pub local_time: String,
    pub kind: TimelineKind,
    pub detail: String,
}

/// The message of a record whose timestamp cannot be read.
pub open spec fn bad_timestamp_message(created_at: Seq<char>) -> Seq<char> {
    "Invalid VRCX timestamp: "@ + created_at
}

impl TimelineEvent {
    /// A record created at the RFC 3339 timestamp `created_at`; an error when
    /// the timestamp cannot be read.
    pub fn new(created_at: String, kind: TimelineKind, detail: String) -> (r: Result<
        TimelineEvent,
        String,
    >)
        ensures
            match r {
                Ok(e) => rfc3339_instant(created_at@) == Some((e.occurred_secs, e.occurred_nanos))
                    && e.kind == kind && e.detail == detail && clock_text(e.local_time@),
                Err(m) => rfc3339_instant(created_at@) is None && m@ == bad_timestamp_message(
                    created_at@,
                ),
            },
    {
        match parse_instant(created_at.as_str()) {
            Some((secs, nanos, local_time)) => Ok(
                TimelineEvent { occurred_secs: secs, occurred_nanos: nanos, local_time, kind, detail },
            ),
            None => {
                let mut v: Vec<char> = Vec::new();
                append_str(&mut v, "Invalid VRCX timestamp: ");
                append_str(&mut v, created_at.as_str());
                Err(string_from(v.as_slice()))
            },
        }
    }
}

/// The rows read from the VRCX feed tables of one user (a table that does not
/// exist gives no rows), each as the table holds it, newest first:
/// `gps` (created at, world name), `online` (created at, type),
/// `bio` (created at, bio, previous bio), `status` (created at, status,
/// description), `avatar` (created at, avatar name).
#[derive(Debug)]
pub struct FeedRows {
    pub gps: Vec<(String, Option<String>)>,
    pub online: Vec<(String, String)>,
    pub bio: Vec<(String, Option<String>, Option<String>)>,
    pub status: Vec<(String, Option<String>, Option<String>)>,
    pub avatar: Vec<(String, Option<String>)>,
}

/// A feed row that becomes a timeline record: its timestamp, kind and detail.
pub struct FeedEntry {
    pub created_at: String,
    pub kind: TimelineKind,
    pub detail: String,
}

/// The mathematical value of a feed entry.
pub open spec fn entry_view(e: FeedEntry) -> (Seq<char>, TimelineKind, Seq<char>) {
    (e.created_at@, e.kind, e.detail@)
}

/// The values of a list of feed entries.
pub open spec fn entry_views(s: Seq<FeedEntry>) -> Seq<(Seq<char>, TimelineKind, Seq<char>)> {
    s.map_values(|e: FeedEntry| entry_view(e))
}

/// An optional text, empty when absent.
pub open spec fn or_empty(o: Option<String>) -> Seq<char> {
    match o {
        Some(s) => s@,
        None => seq![],
    }
}

/// The location records: rows with a world name.
pub open spec fn gps_entries(rows: Seq<(String, Option<String>)>) -> Seq<
    (Seq<char>, TimelineKind, Seq<char>),
>
    decreases rows.len(),
{
    if rows.len() == 0 {
        seq![]
    } else {
        gps_entries(rows.drop_last()) + match rows.last().1 {
            Some(w) => seq![(rows.last().0@, TimelineKind::Location, w@)],
            None => seq![],
        }
    }
}

/// The online and offline records: rows whose type is `Online` or `Offline`.
pub open spec fn online_entries(rows: Seq<(String, String)>) -> Seq<
    (Seq<char>, TimelineKind, Seq<char>),
>
    decreases rows.len(),
{
    if rows.len() == 0 {
        seq![]
    } else {
        online_entries(rows.drop_last()) + if rows.last().1@ == "Online"@ {
            seq![(rows.last().0@, TimelineKind::Online, Seq::<char>::empty())]
        } else if rows.last().1@ == "Offline"@ {
            seq![(rows.last().0@, TimelineKind::Offline, Seq::<char>::empty())]
        } else {
            seq![]
        }
    }
}

/// The online and offline records follow the rows one by one: the records of
/// two runs of rows are those of the first then those of the second, and a
/// single row gives an `Online` record when its type is `Online`, an
/// `Offline` record when its type is `Offline` (at its time, with no detail),
/// and none for any other type.
pub proof fn lemma_online_entries_by_row(
    rows: Seq<(String, String)>,
    more: Seq<(String, String)>,
    created_at: String,
    kind: String,
)
    ensures
        online_entries(rows + more) == online_entries(rows) + online_entries(more),
        kind@ == "Online"@ ==> online_entries(seq![(created_at, kind)]) == seq![
            (created_at@, TimelineKind::Online, Seq::<char>::empty()),
        ],
        kind@ == "Offline"@ ==> online_entries(seq![(created_at, kind)]) == seq![
            (created_at@, TimelineKind::Offline, Seq::<char>::empty()),
        ],
        kind@ != "Online"@ && kind@ != "Offline"@ ==> online_entries(seq![(created_at, kind)]).len()
            == 0,
    decreases more.len(),
{
    reveal_strlit("Online");
    reveal_strlit("Offline");
    assert("Online"@.len() == 6 && "Offline"@.len() == 7);
    let one = seq![(created_at, kind)];
    assert(one.drop_last() =~= Seq::<(String, String)>::empty());
    assert(one.last() == (created_at, kind));
    let none = Seq::<(Seq<char>, TimelineKind, Seq<char>)>::empty();
    assert(online_entries(one.drop_last()) == none);
    if kind@ == "Online"@ {
        assert(online_entries(one) =~= none + seq![(created_at@, TimelineKind::Online, Seq::<char>::empty())]);
    } else if kind@ == "Offline"@ {
        assert(online_entries(one) =~= none + seq![(created_at@, TimelineKind::Offline, Seq::<char>::empty())]);
    } else {
        assert(online_entries(one) =~= none + none);
    }
    if more.len() == 0 {
        assert(rows + more =~= rows);
    } else {
        lemma_online_entries_by_row(rows, more.drop_last(), created_at, kind);
        assert((rows + more).drop_last() =~= rows + more.drop_last());
        assert((rows + more).last() == more.last());
    }
}

/// The bio records: rows whose bio differs from the previous one.
pub open spec fn bio_entries(rows: Seq<(String, Option<String>, Option<String>)>) -> Seq<
    (Seq<char>, TimelineKind, Seq<char>),
>
    decreases rows.len(),
{
    if rows.len() == 0 {
        seq![]
    } else {
        let r = rows.last();
        bio_entries(rows.drop_last()) + if or_empty(r.1) != or_empty(r.2) {
            seq![(r.0@, TimelineKind::Bio, bio_detail(or_empty(r.1), or_empty(r.2)))]
        } else {
            seq![]
        }
    }
}

/// The status records: every row.
pub open spec fn status_entries(rows: Seq<(String, Option<String>, Option<String>)>) -> Seq<
    (Seq<char>, TimelineKind, Seq<char>),
>
    decreases rows.len(),
{
    if rows.len() == 0 {
        seq![]
    } else {
        let r = rows.last();
        status_entries(rows.drop_last()) + seq![
            (r.0@, TimelineKind::Status, status_detail(or_empty(r.1), or_empty(r.2))),
        ]
    }
}

/// The avatar records: rows with an avatar name.
pub open spec fn avatar_entries(rows: Seq<(String, Option<String>)>) -> Seq<
    (Seq<char>, TimelineKind, Seq<char>),
>
    decreases rows.len(),
{
    if rows.len() == 0 {
        seq![]
    } else {
        avatar_entries(rows.drop_last()) + match rows.last().1 {
            Some(a) => seq![(rows.last().0@, TimelineKind::Avatar, a@)],
            None => seq![],
        }
    }
}

/// The feed rows that become timeline records, table by table.
pub open spec fn feed_entries(rows: FeedRows) -> Seq<(Seq<char>, TimelineKind, Seq<char>)> {
    gps_entries(rows.gps@) + online_entries(rows.online@) + bio_entries(rows.bio@)
        + status_entries(rows.status@) + avatar_entries(rows.avatar@)
}

fn push_entry(out: &mut Vec<FeedEntry>, created_at: &String, kind: TimelineKind, detail: String)
    ensures
        entry_views(final(out)@) == entry_views(old(out)@).push((created_at@, kind, detail@)),
{
    let ghost before = out@;
    out.push(FeedEntry { created_at: created_at.clone(), kind, detail });
    assert(entry_views(out@) =~= entry_views(before).push((created_at@, kind, detail@)));
}

/// The timeline records of the location rows.
fn collect_gps(out: &mut Vec<FeedEntry>, rows: &Vec<(String, Option<String>)>)
    ensures
        entry_views(final(out)@) == entry_views(old(out)@) + gps_entries(rows@),
{
    let mut i: usize = 0;
    while i < rows.len()
        invariant
            i <= rows@.len(),
            entry_views(out@) == entry_views(old(out)@) + gps_entries(rows@.take(i as int)),
        decreases rows@.len() - i,
    {
        let ghost pre = rows@.take(i as int);
        assert(rows@.take(i + 1).drop_last() == pre);
        match &rows[i].1 {
            Some(w) => push_entry(out, &rows[i].0, TimelineKind::Location, w.clone()),
            None => {},
        }
        i = i + 1;
    }
    assert(rows@.take(rows@.len() as int) == rows@);
}

/// The timeline records of the online and offline rows.
fn collect_online(out: &mut Vec<FeedEntry>, rows: &Vec<(String, String)>)
    ensures
        entry_views(final(out)@) == entry_views(old(out)@) + online_entries(rows@),
{
    let mut i: usize = 0;
    while i < rows.len()
        invariant
            i <= rows@.len(),
            entry_views(out@) == entry_views(old(out)@) + online_entries(rows@.take(i as int)),
        decreases rows@.len() - i,
    {
        let ghost pre = rows@.take(i as int);
        assert(rows@.take(i + 1).drop_last() == pre);
        let t = chars_of(rows[i].1.as_str());
        if eq_lit(t.as_slice(), "Online") {
            push_entry(out, &rows[i].0, TimelineKind::Online, String::new());
        } else if eq_lit(t.as_slice(), "Offline") {
            push_entry(out, &rows[i].0, TimelineKind::Offline, String::new());
        }
        i = i + 1;
    }
    assert(rows@.take(rows@.len() as int) == rows@);
}

fn text_or_empty(o: &Option<String>) -> (r: String)
    ensures
        r@ == or_empty(*o),
{
    match o {
        Some(s) => s.clone(),
        None => String::new(),
    }
}

/// The timeline records of the bio rows.
fn collect_bio(out: &mut Vec<FeedEntry>, rows: &Vec<(String, Option<String>, Option<String>)>)
    ensures
        entry_views(final(out)@) == entry_views(old(out)@) + bio_entries(rows@),
{
    let mut i: usize = 0;
    while i < rows.len()
        invariant
            i <= rows@.len(),
            entry_views(out@) == entry_views(old(out)@) + bio_entries(rows@.take(i as int)),
        decreases rows@.len() - i,
    {
        let ghost pre = rows@.take(i as int);
        assert(rows@.take(i + 1).drop_last() == pre);
        let bio = text_or_empty(&rows[i].1);
        let previous = text_or_empty(&rows[i].2);
        if bio != previous {
            let detail = format_bio_detail(bio.as_str(), previous.as_str());
            push_entry(out, &rows[i].0, TimelineKind::Bio, detail);
        }
        i = i + 1;
    }
    assert(rows@.take(rows@.len() as int) == rows@);
}

/// The timeline records of the status rows.
fn collect_status(out: &mut Vec<FeedEntry>, rows: &Vec<(String, Option<String>, Option<String>)>)
    ensures
        entry_views(final(out)@) == entry_views(old(out)@) + status_entries(rows@),
{
    let mut i: usize = 0;
    while i < rows.len()
        invariant
            i <= rows@.len(),
            entry_views(out@) == entry_views(old(out)@) + status_entries(rows@.take(i as int)),
        decreases rows@.len() - i,
    {
        let ghost pre = rows@.take(i as int);
        assert(rows@.take(i + 1).drop_last() == pre);
        let status = text_or_empty(&rows[i].1);
        let description = text_or_empty(&rows[i].2);
        let detail = format_status_detail(status.as_str(), description.as_str());
        push_entry(out, &rows[i].0, TimelineKind::Status, detail);
        i = i + 1;
    }
    assert(rows@.take(rows@.len() as int) == rows@);
}

/// The timeline records of the avatar rows.
fn collect_avatar(out: &mut Vec<FeedEntry>, rows: &Vec<(String, Option<String>)>)
    ensures
        entry_views(final(out)@) == entry_views(old(out)@) + avatar_entries(rows@),
{
    let mut i: usize = 0;
    while i < rows.len()
        invariant
            i <= rows@.len(),
            entry_views(out@) == entry_views(old(out)@) + avatar_entries(rows@.take(i as int)),
        decreases rows@.len() - i,
    {
        let ghost pre = rows@.take(i as int);
        assert(rows@.take(i + 1).drop_last() == pre);
        match &rows[i].1 {
            Some(a) => push_entry(out, &rows[i].0, TimelineKind::Avatar, a.clone()),
            None => {},
        }
        i = i + 1;
    }
    assert(rows@.take(rows@.len() as int) == rows@);
}

/// The feed rows that become timeline records, in table order.
pub fn feed_records(rows: &FeedRows) -> (r: Vec<FeedEntry>)
    ensures
        entry_views(r@) == feed_entries(*rows),
{
    let mut out: Vec<FeedEntry> = Vec::new();
    assert(entry_views(out@) =~= Seq::<(Seq<char>, TimelineKind, Seq<char>)>::empty());
    collect_gps(&mut out, &rows.gps);
    collect_online(&mut out, &rows.online);
    collect_bio(&mut out, &rows.bio);
    collect_status(&mut out, &rows.status);
    collect_avatar(&mut out, &rows.avatar);
    out
}

/// Instant `a` is later than instant `b`.
pub open spec fn later(a: (i64, u32), b: (i64, u32)) -> bool {
    a.0 > b.0 || (a.0 == b.0 && a.1 > b.1)
}

/// Newest first, index `a` of `keys` comes before index `b`: it is later, or
/// equally late and earlier in the list.
pub open spec fn ranks_before(keys: Seq<(i64, u32)>, a: int, b: int) -> bool {
    later(keys[a], keys[b]) || (keys[a] == keys[b] && a < b)
}

/// `order` lists the indices of `keys` newest first, each once, keeping the
/// list order among equal instants.
pub open spec fn is_newest_first(order: Seq<usize>, keys: Seq<(i64, u32)>) -> bool {
    &&& order.len() == keys.len()
    &&& forall|p: int| 0 <= p < order.len() ==> #[trigger] order[p] < keys.len()
    &&& forall|p: int, q: int|
        0 <= p < q < order.len() ==> ranks_before(keys, #[trigger] order[p] as int, #[trigger] order[q] as int)
}

fn is_later(a: (i64, u32), b: (i64, u32)) -> (r: bool)
    ensures
        r == later(a, b),
{
    a.0 > b.0 || (a.0 == b.0 && a.1 > b.1)
}

/// The indices of `keys`, newest first; a stable sort.
pub fn newest_first_order(keys: &[(i64, u32)]) -> (r: Vec<usize>)
    ensures
        is_newest_first(r@, keys@),
{
    let mut order: Vec<usize> = Vec::new();
    let mut i: usize = 0;
    while i < keys.len()
        invariant
            i <= keys@.len(),
            order@.len() == i,
            forall|p: int| 0 <= p < order@.len() ==> #[trigger] order@[p] < i,
            forall|p: int, q: int|
                0 <= p < q < order@.len() ==> ranks_before(
                    keys@,
                    #[trigger] order@[p] as int,
                    #[trigger] order@[q] as int,
                ),
        decreases keys@.len() - i,
    {
        let mut pos: usize = 0;
        while pos < order.len() && !is_later(keys[i], keys[order[pos]])
            invariant
                i < keys@.len(),
                pos <= order@.len() == i,
                forall|p: int| 0 <= p < order@.len() ==> #[trigger] order@[p] < i,
                forall|p: int| 0 <= p < pos ==> !later(keys@[i as int], keys@[#[trigger] order@[p] as int]),
            decreases order@.len() - pos,
        {
            pos = pos + 1;
        }
        let ghost before = order@;
        order.insert(pos, i);
        assert forall|p: int, q: int| 0 <= p < q < order@.len() implies ranks_before(
            keys@,
            #[trigger] order@[p] as int,
            #[trigger] order@[q] as int,
        ) by {
            if q < pos {
                assert(order@[p] == before[p] && order@[q] == before[q]);
            } else if q == pos {
                assert(order@[p] == before[p]);
                assert(!later(keys@[i as int], keys@[before[p] as int]));
            } else if p < pos {
                assert(order@[p] == before[p] && order@[q] == before[q - 1]);
            } else if p == pos {
                assert(order@[q] == before[q - 1]);
                assert(later(keys@[i as int], keys@[before[pos as int] as int]));
                if q - 1 > pos {
                    assert(ranks_before(keys@, before[pos as int] as int, before[q - 1] as int));
                }
            } else {
                assert(order@[p] == before[p - 1] && order@[q] == before[q - 1]);
            }
        }
        i = i + 1;
    }
    order
}

/// Every timestamp of `entries` can be read.
pub open spec fn all_readable(entries: Seq<(Seq<char>, TimelineKind, Seq<char>)>) -> bool {
    forall|i: int| 0 <= i < entries.len() ==> (#[trigger] rfc3339_instant(entries[i].0)) is Some
}

/// `i` is the first entry whose timestamp cannot be read.
pub open spec fn first_unreadable(entries: Seq<(Seq<char>, TimelineKind, Seq<char>)>, i: int) -> bool {
    &&& 0 <= i < entries.len()
    &&& rfc3339_instant(entries[i].0) is None
    &&& forall|j: int| 0 <= j < i ==> (#[trigger] rfc3339_instant(entries[j].0)) is Some
}

/// The instant of a readable timestamp.
pub open spec fn instant_of(created_at: Seq<char>) -> (i64, u32) {
    match rfc3339_instant(created_at) {
        Some(t) => t,
        None => (0, 0),
    }
}

/// The instants of the entries.
pub open spec fn instants(entries: Seq<(Seq<char>, TimelineKind, Seq<char>)>) -> Seq<(i64, u32)> {
    entries.map_values(|e: (Seq<char>, TimelineKind, Seq<char>)| instant_of(e.0))
}

/// Record `e` is the entry `entry` read, its wall-clock time in the report's shape.
pub open spec fn record_of(e: TimelineEvent, entry: (Seq<char>, TimelineKind, Seq<char>)) -> bool {
    rfc3339_instant(entry.0) == Some((e.occurred_secs, e.occurred_nanos)) && e.kind == entry.1
        && e.detail@ == entry.2 && clock_text(e.local_time@)
}

/// `events` are the records of `entries`, newest first, records of the same
/// instant in their feed order.
pub open spec fn timeline_of(
    events: Seq<TimelineEvent>,
    entries: Seq<(Seq<char>, TimelineKind, Seq<char>)>,
) -> bool {
    &&& all_readable(entries)
    &&& events.len() == entries.len()
    &&& exists|order: Seq<usize>|
        is_newest_first(order, instants(entries)) && forall|p: int|
            0 <= p < events.len() ==> #[trigger] record_of(events[p], entries[order[p] as int])
}

fn copy_event(e: &TimelineEvent) -> (r: TimelineEvent)
    ensures
        r == *e,
{
    TimelineEvent {
        occurred_secs: e.occurred_secs,
        occurred_nanos: e.occurred_nanos,
        local_time: e.local_time.clone(),
        kind: e.kind,
        detail: e.detail.clone(),
    }
}

/// The timeline of a user from the feed rows: every record, newest first; an
/// error naming the first timestamp that cannot be read.
pub fn build_timeline(rows: &FeedRows) -> (r: Result<Vec<TimelineEvent>, String>)
    ensures
        match r {
            Ok(events) => timeline_of(events@, feed_entries(*rows)),
            Err(m) => exists|i: int|
                first_unreadable(feed_entries(*rows), i) && m@ == bad_timestamp_message(
                    feed_entries(*rows)[i].0,
                ),
        },
{
    let entries = feed_records(rows);
    let ghost es = feed_entries(*rows);
    let mut events: Vec<TimelineEvent> = Vec::new();
    let mut keys: Vec<(i64, u32)> = Vec::new();
    let mut k: usize = 0;
    while k < entries.len()
        invariant
            es == entry_views(entries@),
            es == feed_entries(*rows),
            k <= entries@.len(),
            events@.len() == k,
            keys@.len() == k,
            forall|j: int| 0 <= j < k ==> (#[trigger] rfc3339_instant(es[j].0)) is Some,
            forall|j: int| 0 <= j < k ==> #[trigger] record_of(events@[j], es[j]),
            forall|j: int| 0 <= j < k ==> #[trigger] keys@[j] == instant_of(es[j].0),
        decreases entries@.len() - k,
    {
        assert(es[k as int] == entry_view(entries@[k as int]));
        let e = &entries[k];
        match TimelineEvent::new(e.created_at.clone(), e.kind, e.detail.clone()) {
            Ok(ev) => {
                keys.push((ev.occurred_secs, ev.occurred_nanos));
                events.push(ev);
            },
            Err(m) => {
                assert(first_unreadable(es, k as int) && m@ == bad_timestamp_message(es[k as int].0));
                return Err(m);
            },
        }
        k = k + 1;
    }
    assert(keys@ =~= instants(es));
    let order = newest_first_order(keys.as_slice());
    let mut out: Vec<TimelineEvent> = Vec::new();
    let mut p: usize = 0;
    while p < order.len()
        invariant
            es == entry_views(entries@),
            events@.len() == es.len(),
            keys@ == instants(es),
            is_newest_first(order@, keys@),
            forall|j: int| 0 <= j < es.len() ==> #[trigger] record_of(events@[j], es[j]),
            p <= order@.len(),
            out@.len() == p,
            forall|q: int| 0 <= q < p ==> #[trigger] record_of(out@[q], es[order@[q] as int]),
        decreases order@.len() - p,
    {
        assert(order@[p as int] < keys@.len());
        let e = copy_event(&events[order[p]]);
        out.push(e);
        p = p + 1;
    }
    assert(timeline_of(out@, es));
    Ok(out)
}

/// What VRCX remembers of a user when the API gives no profile.
#[derive(Debug)]
pub struct UserSnapshot {
    pub display_name: Option<String>,
    pub bio: Option<String>,
    pub current_avatar_image_url: Option<String>,
    pub group_names: Vec<String>,
}

/// The latest rows VRCX holds of a user: the latest bio record (display name,
/// bio), the latest avatar record (display name, image URL), up to ten latest
/// location records with a group (display name, group name), and the display
/// name of the latest online record. A table that does not exist, or has no
/// row for the user, gives none.
#[derive(Debug)]
pub struct SnapshotRows {
    pub bio: Option<(Option<String>, Option<String>)>,
    pub avatar: Option<(Option<String>, Option<String>)>,
    pub gps: Vec<(Option<String>, String)>,
    pub online_name: Option<String>,
}

/// The first of two optional texts that is present.
pub open spec fn first_of(a: Option<Seq<char>>, b: Option<Seq<char>>) -> Option<Seq<char>> {
    if a is Some {
        a
    } else {
        b
    }
}

/// The first display name the location rows give, after `start`.
pub open spec fn gps_name(start: Option<Seq<char>>, rows: Seq<(Option<String>, String)>) -> Option<
    Seq<char>,
>
    decreases rows.len(),
{
    if rows.len() == 0 {
        start
    } else {
        first_of(gps_name(start, rows.drop_last()), opt_view(rows.last().0))
    }
}

/// The group names of the location rows, each once, in order of first
/// appearance.
pub open spec fn distinct_groups(rows: Seq<(Option<String>, String)>) -> Seq<Seq<char>>
    decreases rows.len(),
{
    if rows.len() == 0 {
        seq![]
    } else {
        let d = distinct_groups(rows.drop_last());
        if d.contains(rows.last().1@) {
            d
        } else {
            d.push(rows.last().1@)
        }
    }
}

/// The display name VRCX remembers: from the bio record, else the avatar
/// record, else a location record, else the online record.
pub open spec fn snapshot_name(rows: SnapshotRows) -> Option<Seq<char>> {
    let from_bio = match rows.bio {
        Some(b) => opt_view(b.0),
        None => None,
    };
    let from_avatar = match rows.avatar {
        Some(a) => first_of(from_bio, opt_view(a.0)),
        None => from_bio,
    };
    first_of(gps_name(from_avatar, rows.gps@), opt_view(rows.online_name))
}

/// Whether `names` holds `name`.
fn holds_name(names: &Vec<String>, name: &String) -> (r: bool)
    ensures
        r == views(names@).contains(name@),
{
    let mut i: usize = 0;
    while i < names.len()
        invariant
            i <= names@.len(),
            forall|j: int| 0 <= j < i ==> names@[j]@ != name@,
        decreases names@.len() - i,
    {
        if names[i] == *name {
            assert(views(names@)[i as int] == name@);
            return true;
        }
        i = i + 1;
    }
    assert forall|j: int| 0 <= j < views(names@).len() implies views(names@)[j] != name@ by {
        assert(views(names@)[j] == names@[j]@);
    }
    false
}

fn opt_clone(o: &Option<String>) -> (r: Option<String>)
    ensures
        r == *o,
{
    match o {
        Some(s) => Some(s.clone()),
        None => None,
    }
}

/// What VRCX remembers of a user, from its latest rows.
pub fn build_user_snapshot(rows: &SnapshotRows) -> (r: UserSnapshot)
    ensures
        opt_view(r.display_name) == snapshot_name(*rows),
        r.bio == match rows.bio {
            Some(b) => b.1,
            None => None,
        },
        r.current_avatar_image_url == match rows.avatar {
            Some(a) => a.1,
            None => None,
        },
        views(r.group_names@) == distinct_groups(rows.gps@),
{
    let mut name: Option<String> = None;
    let mut bio: Option<String> = None;
    let mut avatar_url: Option<String> = None;
    match &rows.bio {
        Some(b) => {
            name = opt_clone(&b.0);
            bio = opt_clone(&b.1);
        },
        None => {},
    }
    match &rows.avatar {
        Some(a) => {
            if name.is_none() {
                name = opt_clone(&a.0);
            }
            avatar_url = opt_clone(&a.1);
        },
        None => {},
    }
    let ghost start = opt_view(name);
    let mut groups: Vec<String> = Vec::new();
    let mut i: usize = 0;
    while i < rows.gps.len()
        invariant
            i <= rows.gps@.len(),
            opt_view(name) == gps_name(start, rows.gps@.take(i as int)),
            views(groups@) == distinct_groups(rows.gps@.take(i as int)),
        decreases rows.gps@.len() - i,
    {
        assert(rows.gps@.take(i + 1).drop_last() == rows.gps@.take(i as int));
        let row = &rows.gps[i];
        if name.is_none() {
            name = opt_clone(&row.0);
        }
        if !holds_name(&groups, &row.1) {
            let ghost before = groups@;
            groups.push(row.1.clone());
            assert(views(groups@) =~= views(before).push(row.1@));
        }
        i = i + 1;
    }
    assert(rows.gps@.take(rows.gps@.len() as int) == rows.gps@);
    if name.is_none() {
        name = opt_clone(&rows.online_name);
    }
    UserSnapshot { display_name: name, bio, current_avatar_image_url: avatar_url, group_names: groups }
}

/// A badge of a profile: its name and description, where they are texts.
#[derive(Debug)]
pub struct Badge {
    pub name: Option<String>,
    pub description: Option<String>,
}

/// A group of a profile: its name, id and description, where they are texts.
#[derive(Debug)]
pub struct GroupInfo {
    pub name: Option<String>,
    pub group_id: Option<String>,
    pub description: Option<String>,
}

/// The fields of a VRChat profile the report shows. A text field is absent
/// when the profile lacks it or holds no text there; a list is absent when the
/// profile holds no list there, and a link is absent when it is no text.
#[derive(Debug)]
pub struct ProfileView {
    pub display_name: Option<String>,
    pub bio: Option<String>,
    pub bio_links: Option<Vec<Option<String>>>,
    pub date_joined: Option<String>,
    pub current_avatar_image_url: Option<String>,
    pub badges: Option<Vec<Badge>>,
    pub age_verification_status: Option<JsonField>,
    pub age_verified: Option<JsonField>,
    pub groups: Option<Vec<GroupInfo>>,
}

/// The text of message `key`.
pub open spec fn msg(lang: Language, key: Seq<char>) -> Seq<char> {
    translation(lang, key)
}

/// An optional text, or "no data".
pub open spec fn text_or_no_data(lang: Language, v: Option<Seq<char>>) -> Seq<char> {
    match v {
        Some(s) => s,
        None => msg(lang, "no_data"@),
    }
}

/// The bio lines: each line of the bio followed by two spaces (a markdown
/// line break), or "no data" for an empty bio.
pub open spec fn bio_block(lang: Language, bio: Seq<char>) -> Seq<Seq<char>> {
    if bio.len() == 0 {
        seq![msg(lang, "no_data"@)]
    } else {
        lines(bio).map_values(|l: Seq<char>| l + "  "@)
    }
}

/// A list item per link that is a text.
pub open spec fn link_lines(items: Seq<Option<String>>) -> Seq<Seq<char>>
    decreases items.len(),
{
    if items.len() == 0 {
        seq![]
    } else {
        link_lines(items.drop_last()) + match items.last() {
            Some(l) => seq!["- "@ + l@],
            None => seq![],
        }
    }
}

/// The link lines, or "no data" when there is no list or it is empty.
pub open spec fn links_block(lang: Language, links: Option<Seq<Option<String>>>) -> Seq<Seq<char>> {
    match links {
        Some(items) => if items.len() == 0 {
            seq![msg(lang, "no_data"@)]
        } else {
            link_lines(items)
        },
        None => seq![msg(lang, "no_data"@)],
    }
}

/// A list item per badge with a name: `- **name**: description`.
pub open spec fn badge_lines(badges: Seq<Badge>) -> Seq<Seq<char>>
    decreases badges.len(),
{
    if badges.len() == 0 {
        seq![]
    } else {
        badge_lines(badges.drop_last()) + match badges.last().name {
            Some(n) => seq!["- **"@ + n@ + "**: "@ + or_empty(badges.last().description)],
            None => seq![],
        }
    }
}

/// The badge lines, or "no data" when there is no list or it is empty.
pub open spec fn badges_block(lang: Language, badges: Option<Seq<Badge>>) -> Seq<Seq<char>> {
    match badges {
        Some(bs) => if bs.len() == 0 {
            seq![msg(lang, "no_data"@)]
        } else {
            badge_lines(bs)
        },
        None => seq![msg(lang, "no_data"@)],
    }
}

/// A JSON field of the profile as shown, or "no data" when absent.
pub open spec fn field_text(lang: Language, f: Option<JsonField>) -> Seq<char> {
    match f {
        Some(v) => json_text(lang, v),
        None => msg(lang, "no_data"@),
    }
}

/// The bio the report shows: the profile's, else the one VRCX remembers.
pub open spec fn shown_bio(profile: Option<ProfileView>, fallback: UserSnapshot) -> Seq<char> {
    let from_profile = match profile {
        Some(p) => opt_view(p.bio),
        None => None,
    };
    match first_of(from_profile, opt_view(fallback.bio)) {
        Some(b) => b,
        None => seq![],
    }
}

/// The first lines of the profile section.
pub open spec fn profile_head(lang: Language, display_name: Seq<char>) -> Seq<Seq<char>> {
    let e = Seq::<char>::empty();
    seq![
        msg(lang, "user_info_title"@),
        e,
        bold_kv(msg(lang, "display_name"@), display_name),
        e,
        bold_kv(msg(lang, "bio"@), e),
        e,
    ]
}

/// The heading of the links.
pub open spec fn links_head(lang: Language) -> Seq<Seq<char>> {
    let e = Seq::<char>::empty();
    seq![e, bold_kv(msg(lang, "bio_links"@), e), e]
}

/// The user id, join date and avatar lines, and the heading of the badges.
pub open spec fn profile_mid(
    lang: Language,
    user_id: Seq<char>,
    joined: Seq<char>,
    avatar: Seq<char>,
) -> Seq<Seq<char>> {
    let e = Seq::<char>::empty();
    seq![
        e,
        bold_kv(msg(lang, "user_id"@), user_id),
        e,
        bold_kv(msg(lang, "date_joined"@), joined),
        e,
        bold_kv(msg(lang, "current_avatar_image_url"@), avatar),
        e,
        bold_kv(msg(lang, "badges"@), e),
        e,
    ]
}

/// The age verification lines.
pub open spec fn profile_tail(lang: Language, status: Seq<char>, verified: Seq<char>) -> Seq<
    Seq<char>,
> {
    let e = Seq::<char>::empty();
    seq![
        e,
        bold_kv(msg(lang, "age_verification_status"@), status),
        e,
        bold_kv(msg(lang, "age_verified"@), verified),
        e,
    ]
}

/// The profile section of the report.
pub open spec fn profile_section(
    lang: Language,
    user_id: Seq<char>,
    display_name: Seq<char>,
    profile: Option<ProfileView>,
    fallback: UserSnapshot,
) -> Seq<Seq<char>> {
    let links = match profile {
        Some(p) => match p.bio_links {
            Some(v) => Some(v@),
            None => None,
        },
        None => None,
    };
    let joined = match profile {
        Some(p) => opt_view(p.date_joined),
        None => None,
    };
    let avatar = first_of(
        match profile {
            Some(p) => opt_view(p.current_avatar_image_url),
            None => None,
        },
        opt_view(fallback.current_avatar_image_url),
    );
    let badges = match profile {
        Some(p) => match p.badges {
            Some(v) => Some(v@),
            None => None,
        },
        None => None,
    };
    let status = match profile {
        Some(p) => p.age_verification_status,
        None => None,
    };
    let verified = match profile {
        Some(p) => p.age_verified,
        None => None,
    };
    profile_head(lang, display_name) + bio_block(lang, shown_bio(profile, fallback)) + links_head(
        lang,
    ) + links_block(lang, links) + profile_mid(
        lang,
        user_id,
        text_or_no_data(lang, joined),
        text_or_no_data(lang, avatar),
    ) + badges_block(lang, badges) + profile_tail(
        lang,
        field_text(lang, status),
        field_text(lang, verified),
    )
}

/// The lines between the profile and the timeline: a rule, the retrieval
/// date, a rule and an empty line.
pub open spec fn divider(retrieved: Seq<char>) -> Seq<Seq<char>> {
    seq!["---"@, "> 检索时间: "@ + retrieved, "---"@, Seq::<char>::empty()]
}

/// The header row of the timeline table.
pub open spec fn timeline_header(lang: Language) -> Seq<char> {
    "| "@ + msg(lang, "user_report_table_time"@) + " | "@ + msg(lang, "user_report_table_type"@)
        + " | "@ + msg(lang, "user_report_table_detail"@) + " |"@
}

/// The table row of one timeline record.
pub open spec fn timeline_row(e: TimelineEvent) -> Seq<char> {
    "| "@ + e.local_time@ + " | "@ + kind_label(e.kind) + " | "@ + escaped_cell(e.detail@) + " |"@
}

/// The timeline section of the report.
pub open spec fn timeline_section(
    lang: Language,
    events: Seq<TimelineEvent>,
    generated_at: Seq<char>,
) -> Seq<Seq<char>> {
    let e = Seq::<char>::empty();
    seq![
        msg(lang, "user_report_timeline_title"@),
        e,
        bold_kv(msg(lang, "user_report_query_range"@), msg(lang, "user_report_last_30_days"@)),
        bold_kv(msg(lang, "user_report_generated_at"@), generated_at),
        e,
    ] + if events.len() == 0 {
        seq![msg(lang, "user_report_no_timeline"@)]
    } else {
        seq![timeline_header(lang), "| ------------ | ---- | -------- |"@] + events.map_values(
            |ev: TimelineEvent| timeline_row(ev),
        )
    }
}

/// The lines between the timeline and the groups.
pub open spec fn separator() -> Seq<Seq<char>> {
    seq![Seq::<char>::empty(), "---"@, Seq::<char>::empty()]
}

/// An optional text, or `N/A`.
pub open spec fn or_na(o: Option<String>) -> Seq<char> {
    match o {
        Some(s) => s@,
        None => "N/A"@,
    }
}

/// The quoted lines of a group description, or a quoted "no data".
pub open spec fn description_lines(lang: Language, description: Seq<char>) -> Seq<Seq<char>> {
    if description.len() == 0 {
        seq!["> "@ + msg(lang, "no_data"@)]
    } else {
        lines(description).map_values(|l: Seq<char>| "> "@ + l)
    }
}

/// The lines of one group: its name as a heading, its id, its description.
pub open spec fn group_block(lang: Language, g: GroupInfo) -> Seq<Seq<char>> {
    seq![
        "## "@ + or_na(g.name),
        "- **"@ + msg(lang, "group_id"@) + "**: `"@ + or_na(g.group_id) + "`"@,
        "- **"@ + msg(lang, "description"@) + "**:"@,
    ] + description_lines(lang, or_empty(g.description)) + seq![Seq::<char>::empty()]
}

/// The lines of the groups, one block each.
pub open spec fn group_blocks(lang: Language, gs: Seq<GroupInfo>) -> Seq<Seq<char>>
    decreases gs.len(),
{
    if gs.len() == 0 {
        seq![]
    } else {
        group_blocks(lang, gs.drop_last()) + group_block(lang, gs.last())
    }
}

/// A heading per group name VRCX remembers.
pub open spec fn name_blocks(names: Seq<String>) -> Seq<Seq<char>>
    decreases names.len(),
{
    if names.len() == 0 {
        seq![]
    } else {
        name_blocks(names.drop_last()) + seq!["## "@ + names.last()@, Seq::<char>::empty()]
    }
}

/// The groups section: the profile's groups, else the group names VRCX
/// remembers, else "no data".
pub open spec fn groups_section(
    lang: Language,
    profile: Option<ProfileView>,
    fallback: UserSnapshot,
) -> Seq<Seq<char>> {
    let groups = match profile {
        Some(p) => match p.groups {
            Some(v) => Some(v@),
            None => None,
        },
        None => None,
    };
    seq![msg(lang, "user_info_groups_title"@), Seq::<char>::empty()] + match groups {
        Some(gs) => if gs.len() == 0 {
            seq![msg(lang, "no_data"@)]
        } else {
            group_blocks(lang, gs)
        },
        None => if fallback.group_names@.len() == 0 {
            seq![msg(lang, "no_data"@)]
        } else {
            name_blocks(fallback.group_names@)
        },
    }
}

/// All lines of the report.
pub open spec fn report_lines(
    lang: Language,
    user_id: Seq<char>,
    display_name: Seq<char>,
    profile: Option<ProfileView>,
    fallback: UserSnapshot,
    events: Seq<TimelineEvent>,
    retrieved: Seq<char>,
    generated_at: Seq<char>,
) -> Seq<Seq<char>> {
    profile_section(lang, user_id, display_name, profile, fallback) + divider(retrieved)
        + timeline_section(lang, events, generated_at) + separator() + groups_section(
        lang,
        profile,
        fallback,
    )
}

/// A rendered report: its text and, counted in lines from 1, its length and
/// where its sections end and start.
#[derive(Debug)]
pub struct RenderedReport {
    pub content: String,
    pub total_lines: usize,
    pub profile_end_line: usize,
    pub timeline_start_line: usize,
    pub timeline_end_line: usize,
    pub groups_start_line: usize,
    pub groups_end_line: usize,
}

fn no_data(lang: Language) -> (r: String)
    ensures
        r@ == msg(lang, "no_data"@),
{
    t0(lang, "no_data")
}

fn single(line: String) -> (r: Vec<String>)
    ensures
        views(r@) == seq![line@],
{
    let mut v: Vec<String> = Vec::new();
    push_line(&mut v, line);
    assert(views(v@) =~= seq![v@[0]@]);
    v
}

fn profile_head_lines(lang: Language, display_name: &str) -> (r: Vec<String>)
    ensures
        views(r@) == profile_head(lang, display_name@),
{
    let mut v: Vec<String> = Vec::new();
    push_line(&mut v, t0(lang, "user_info_title"));
    push_line(&mut v, String::new());
    push_line(&mut v, bold_kv_line(t0(lang, "display_name").as_str(), display_name));
    push_line(&mut v, String::new());
    push_line(&mut v, bold_kv_line(t0(lang, "bio").as_str(), ""));
    push_line(&mut v, String::new());
    proof {
        reveal_strlit("");
    }
    assert(views(v@) =~= profile_head(lang, display_name@));
    v
}

/// Each line of `text` (as `str::lines` gives them) with `prefix` before and
/// `suffix` after it.
pub open spec fn framed_lines(text: Seq<char>, prefix: Seq<char>, suffix: Seq<char>) -> Seq<
    Seq<char>,
> {
    lines(text).map_values(|l: Seq<char>| prefix + l + suffix)
}

fn framed(text: &str, prefix: &str, suffix: &str) -> (r: Vec<String>)
    ensures
        views(r@) == framed_lines(text@, prefix@, suffix@),
{
    let c = chars_of(text);
    let ls = lines_of(c.as_slice());
    let ghost all = lines(text@);
    let mut out: Vec<String> = Vec::new();
    let mut i: usize = 0;
    while i < ls.len()
        invariant
            all == lines(text@),
            ls@.len() == all.len(),
            forall|k: int| 0 <= k < ls@.len() ==> #[trigger] ls@[k]@ == all[k],
            i <= ls@.len(),
            views(out@) == all.take(i as int).map_values(|l: Seq<char>| prefix@ + l + suffix@),
        decreases ls@.len() - i,
    {
        let body = string_from(ls[i].as_slice());
        push_line(&mut out, cat3(prefix, body.as_str(), suffix));
        assert(all.take(i + 1).map_values(|l: Seq<char>| prefix@ + l + suffix@) =~= all.take(
            i as int,
        ).map_values(|l: Seq<char>| prefix@ + l + suffix@).push(prefix@ + all[i as int] + suffix@));
        i = i + 1;
    }
    assert(all.take(all.len() as int) == all);
    out
}

fn bio_lines(lang: Language, bio: &str) -> (r: Vec<String>)
    ensures
        views(r@) == bio_block(lang, bio@),
{
    if bio.is_empty() {
        return single(no_data(lang));
    }
    let r = framed(bio, "", "  ");
    proof {
        reveal_strlit("");
        assert(framed_lines(bio@, ""@, "  "@) =~= lines(bio@).map_values(|l: Seq<char>| l + "  "@));
    }
    r
}

fn links_head_lines(lang: Language) -> (r: Vec<String>)
    ensures
        views(r@) == links_head(lang),
{
    let mut v: Vec<String> = Vec::new();
    push_line(&mut v, String::new());
    push_line(&mut v, bold_kv_line(t0(lang, "bio_links").as_str(), ""));
    push_line(&mut v, String::new());
    proof {
        reveal_strlit("");
    }
    assert(views(v@) =~= links_head(lang));
    v
}

fn link_list(lang: Language, links: &Option<Vec<Option<String>>>) -> (r: Vec<String>)
    ensures
        views(r@) == links_block(
            lang,
            match *links {
                Some(v) => Some(v@),
                None => None,
            },
        ),
{
    match links {
        None => single(no_data(lang)),
        Some(items) => {
            if items.len() == 0 {
                return single(no_data(lang));
            }
            let mut out: Vec<String> = Vec::new();
            let mut i: usize = 0;
            while i < items.len()
                invariant
                    i <= items@.len(),
                    views(out@) == link_lines(items@.take(i as int)),
                decreases items@.len() - i,
            {
                assert(items@.take(i + 1).drop_last() == items@.take(i as int));
                match &items[i] {
                    Some(l) => push_line(&mut out, cat2("- ", l.as_str())),
                    None => {},
                }
                i = i + 1;
            }
            assert(items@.take(items@.len() as int) == items@);
            out
        },
    }
}

fn profile_mid_lines(lang: Language, user_id: &str, joined: &str, avatar: &str) -> (r: Vec<String>)
    ensures
        views(r@) == profile_mid(lang, user_id@, joined@, avatar@),
{
    let mut v: Vec<String> = Vec::new();
    push_line(&mut v, String::new());
    push_line(&mut v, bold_kv_line(t0(lang, "user_id").as_str(), user_id));
    push_line(&mut v, String::new());
    push_line(&mut v, bold_kv_line(t0(lang, "date_joined").as_str(), joined));
    push_line(&mut v, String::new());
    push_line(&mut v, bold_kv_line(t0(lang, "current_avatar_image_url").as_str(), avatar));
    push_line(&mut v, String::new());
    push_line(&mut v, bold_kv_line(t0(lang, "badges").as_str(), ""));
    push_line(&mut v, String::new());
    proof {
        reveal_strlit("");
    }
    assert(views(v@) =~= profile_mid(lang, user_id@, joined@, avatar@));
    v
}

fn badge_list(lang: Language, badges: &Option<Vec<Badge>>) -> (r: Vec<String>)
    ensures
        views(r@) == badges_block(
            lang,
            match *badges {
                Some(v) => Some(v@),
                None => None,
            },
        ),
{
    match badges {
        None => single(no_data(lang)),
        Some(items) => {
            if items.len() == 0 {
                return single(no_data(lang));
            }
            let mut out: Vec<String> = Vec::new();
            let mut i: usize = 0;
            while i < items.len()
                invariant
                    i <= items@.len(),
                    views(out@) == badge_lines(items@.take(i as int)),
                decreases items@.len() - i,
            {
                assert(items@.take(i + 1).drop_last() == items@.take(i as int));
                match &items[i].name {
                    Some(n) => {
                        let d = text_or_empty(&items[i].description);
                        push_line(&mut out, cat5("- **", n.as_str(), "**: ", d.as_str(), ""));
                        proof {
                            reveal_strlit("");
                        }
                    },
                    None => {},
                }
                i = i + 1;
            }
            assert(items@.take(items@.len() as int) == items@);
            out
        },
    }
}

fn profile_tail_lines(lang: Language, status: &str, verified: &str) -> (r: Vec<String>)
    ensures
        views(r@) == profile_tail(lang, status@, verified@),
{
    let mut v: Vec<String> = Vec::new();
    push_line(&mut v, String::new());
    push_line(&mut v, bold_kv_line(t0(lang, "age_verification_status").as_str(), status));
    push_line(&mut v, String::new());
    push_line(&mut v, bold_kv_line(t0(lang, "age_verified").as_str(), verified));
    push_line(&mut v, String::new());
    assert(views(v@) =~= profile_tail(lang, status@, verified@));
    v
}

fn first_text(a: Option<&String>, b: &Option<String>) -> (r: Option<String>)
    ensures
        opt_view(r) == first_of(
            match a {
                Some(s) => Some(s@),
                None => None,
            },
            opt_view(*b),
        ),
{
    match a {
        Some(s) => Some(s.clone()),
        None => opt_clone(b),
    }
}

fn text_or(lang: Language, v: Option<String>) -> (r: String)
    ensures
        r@ == text_or_no_data(lang, opt_view(v)),
{
    match v {
        Some(s) => s,
        None => no_data(lang),
    }
}

fn field_or(lang: Language, f: &Option<JsonField>) -> (r: String)
    ensures
        r@ == field_text(lang, *f),
{
    match f {
        Some(v) => value_to_string(lang, v),
        None => no_data(lang),
    }
}

/// The lines of the profile section.
fn profile_lines(
    lang: Language,
    user_id: &str,
    display_name: &str,
    profile: &Option<ProfileView>,
    fallback: &UserSnapshot,
) -> (r: Vec<String>)
    ensures
        views(r@) == profile_section(lang, user_id@, display_name@, *profile, *fallback),
{
    let mut md = profile_head_lines(lang, display_name);
    let bio_opt = match profile {
        Some(p) => first_text(
            match &p.bio {
                Some(b) => Some(b),
                None => None,
            },
            &fallback.bio,
        ),
        None => opt_clone(&fallback.bio),
    };
    let bio = text_or_empty(&bio_opt);
    push_lines(&mut md, bio_lines(lang, bio.as_str()));
    push_lines(&mut md, links_head_lines(lang));
    let none_links: Option<Vec<Option<String>>> = None;
    let none_badges: Option<Vec<Badge>> = None;
    let none_field: Option<JsonField> = None;
    let (links, joined, avatar_p, badges, status, verified) = match profile {
        Some(p) => (
            &p.bio_links,
            opt_clone(&p.date_joined),
            match &p.current_avatar_image_url {
                Some(a) => Some(a),
                None => None,
            },
            &p.badges,
            &p.age_verification_status,
            &p.age_verified,
        ),
        None => (&none_links, None, None, &none_badges, &none_field, &none_field),
    };
    push_lines(&mut md, link_list(lang, links));
    let joined_text = text_or(lang, joined);
    let avatar_text = text_or(lang, first_text(avatar_p, &fallback.current_avatar_image_url));
    push_lines(&mut md, profile_mid_lines(lang, user_id, joined_text.as_str(), avatar_text.as_str()));
    push_lines(&mut md, badge_list(lang, badges));
    let status_text = field_or(lang, status);
    let verified_text = field_or(lang, verified);
    push_lines(&mut md, profile_tail_lines(lang, status_text.as_str(), verified_text.as_str()));
    md
}

fn divider_lines(retrieved: &str) -> (r: Vec<String>)
    ensures
        views(r@) == divider(retrieved@),
{
    let mut v: Vec<String> = Vec::new();
    push_line(&mut v, "---".to_owned());
    push_line(&mut v, cat2("> 检索时间: ", retrieved));
    push_line(&mut v, "---".to_owned());
    push_line(&mut v, String::new());
    assert(views(v@) =~= divider(retrieved@));
    v
}

/// The lines of the timeline section.
fn timeline_lines(lang: Language, events: &[TimelineEvent], generated_at: &str) -> (r: Vec<String>)
    ensures
        views(r@) == timeline_section(lang, events@, generated_at@),
{
    let mut v: Vec<String> = Vec::new();
    push_line(&mut v, t0(lang, "user_report_timeline_title"));
    push_line(&mut v, String::new());
    push_line(
        &mut v,
        bold_kv_line(
            t0(lang, "user_report_query_range").as_str(),
            t0(lang, "user_report_last_30_days").as_str(),
        ),
    );
    push_line(&mut v, bold_kv_line(t0(lang, "user_report_generated_at").as_str(), generated_at));
    push_line(&mut v, String::new());
    let ghost head = views(v@);
    if events.len() == 0 {
        push_line(&mut v, t0(lang, "user_report_no_timeline"));
        assert(views(v@) =~= timeline_section(lang, events@, generated_at@));
        return v;
    }
    let header = cat7(
        "| ",
        t0(lang, "user_report_table_time").as_str(),
        " | ",
        t0(lang, "user_report_table_type").as_str(),
        " | ",
        t0(lang, "user_report_table_detail").as_str(),
        " |",
    );
    push_line(&mut v, header);
    push_line(&mut v, "| ------------ | ---- | -------- |".to_owned());
    let ghost top = views(v@);
    let mut k: usize = 0;
    while k < events.len()
        invariant
            k <= events@.len(),
            views(v@) == top + events@.take(k as int).map_values(
                |ev: TimelineEvent| timeline_row(ev),
            ),
        decreases events@.len() - k,
    {
        let e = &events[k];
        let detail = escape_table(e.detail.as_str());
        let row = cat7(
            "| ",
            e.local_time.as_str(),
            " | ",
            e.kind.label(),
            " | ",
            detail.as_str(),
            " |",
        );
        push_line(&mut v, row);
        assert(events@.take(k + 1).map_values(|ev: TimelineEvent| timeline_row(ev)) =~= events@.take(
            k as int,
        ).map_values(|ev: TimelineEvent| timeline_row(ev)).push(timeline_row(events@[k as int])));
        k = k + 1;
    }
    assert(events@.take(events@.len() as int) == events@);
    assert(views(v@) =~= timeline_section(lang, events@, generated_at@));
    v
}

fn separator_lines() -> (r: Vec<String>)
    ensures
        views(r@) == separator(),
{
    let mut v: Vec<String> = Vec::new();
    push_line(&mut v, String::new());
    push_line(&mut v, "---".to_owned());
    push_line(&mut v, String::new());
    assert(views(v@) =~= separator());
    v
}

fn text_or_na(o: &Option<String>) -> (r: String)
    ensures
        r@ == or_na(*o),
{
    match o {
        Some(s) => s.clone(),
        None => "N/A".to_owned(),
    }
}

fn group_lines(lang: Language, g: &GroupInfo) -> (r: Vec<String>)
    ensures
        views(r@) == group_block(lang, *g),
{
    let mut v: Vec<String> = Vec::new();
    push_line(&mut v, cat2("## ", text_or_na(&g.name).as_str()));
    push_line(
        &mut v,
        cat5("- **", t0(lang, "group_id").as_str(), "**: `", text_or_na(&g.group_id).as_str(), "`"),
    );
    push_line(&mut v, cat3("- **", t0(lang, "description").as_str(), "**:"));
    let desc = text_or_empty(&g.description);
    if desc.as_str().is_empty() {
        push_line(&mut v, cat2("> ", no_data(lang).as_str()));
    } else {
        let q = framed(desc.as_str(), "> ", "");
        proof {
            reveal_strlit("");
            assert(framed_lines(desc@, "> "@, ""@) =~= lines(desc@).map_values(
                |l: Seq<char>| "> "@ + l,
            ));
        }
        push_lines(&mut v, q);
    }
    push_line(&mut v, String::new());
    assert(views(v@) =~= group_block(lang, *g));
    v
}

/// The lines of the groups section.
fn groups_lines(lang: Language, profile: &Option<ProfileView>, fallback: &UserSnapshot) -> (r: Vec<
    String,
>)
    ensures
        views(r@) == groups_section(lang, *profile, *fallback),
{
    let mut v: Vec<String> = Vec::new();
    push_line(&mut v, t0(lang, "user_info_groups_title"));
    push_line(&mut v, String::new());
    let ghost head = views(v@);
    let groups = match profile {
        Some(p) => match &p.groups {
            Some(gs) => Some(gs),
            None => None,
        },
        None => None,
    };
    match groups {
        Some(gs) => {
            if gs.len() == 0 {
                push_line(&mut v, no_data(lang));
            } else {
                let mut k: usize = 0;
                while k < gs.len()
                    invariant
                        k <= gs@.len(),
                        views(v@) == head + group_blocks(lang, gs@.take(k as int)),
                    decreases gs@.len() - k,
                {
                    assert(gs@.take(k + 1).drop_last() == gs@.take(k as int));
                    let ghost before = views(v@);
                    push_lines(&mut v, group_lines(lang, &gs[k]));
                    assert(views(v@) =~= head + group_blocks(lang, gs@.take(k + 1)));
                    k = k + 1;
                }
                assert(gs@.take(gs@.len() as int) == gs@);
            }
        },
        None => {
            let names = &fallback.group_names;
            if names.len() == 0 {
                push_line(&mut v, no_data(lang));
            } else {
                let mut k: usize = 0;
                while k < names.len()
                    invariant
                        k <= names@.len(),
                        views(v@) == head + name_blocks(names@.take(k as int)),
                    decreases names@.len() - k,
                {
                    assert(names@.take(k + 1).drop_last() == names@.take(k as int));
                    push_line(&mut v, cat2("## ", names[k].as_str()));
                    push_line(&mut v, String::new());
                    assert(views(v@) =~= head + name_blocks(names@.take(k + 1)));
                    k = k + 1;
                }
                assert(names@.take(names@.len() as int) == names@);
            }
        },
    }
    assert(views(v@) =~= groups_section(lang, *profile, *fallback));
    v
}

/// Renders the report of a user: the profile (the API's, else what VRCX
/// remembers), the divider with the retrieval date, the timeline generated
/// at `generated_at`, and the groups; the line numbers tell where the
/// sections are.
pub fn render_markdown(
    lang: Language,
    user_id: &str,
    display_name: &str,
    profile: &Option<ProfileView>,
    fallback: &UserSnapshot,
    timeline: &[TimelineEvent],
    retrieved: &str,
    generated_at: &str,
) -> (r: RenderedReport)
    ensures
        ({
            let all = report_lines(
                lang,
                user_id@,
                display_name@,
                *profile,
                *fallback,
                timeline@,
                retrieved@,
                generated_at@,
            );
            let p = profile_section(lang, user_id@, display_name@, *profile, *fallback);
            let t = timeline_section(lang, timeline@, generated_at@);
            let g = groups_section(lang, *profile, *fallback);
            &&& r.content@ == joined(all)
            &&& r.total_lines == all.len()
            &&& r.profile_end_line == p.len()
            &&& r.timeline_start_line == p.len() + 5
            &&& r.timeline_end_line == p.len() + 4 + t.len()
            &&& r.groups_start_line == p.len() + 4 + t.len() + 4
            &&& r.groups_end_line == all.len()
            &&& all.subrange(0, r.profile_end_line as int) == p
            &&& all.subrange(r.timeline_start_line - 1, r.timeline_end_line as int) == t
            &&& all.subrange(r.groups_start_line - 1, r.groups_end_line as int) == g
        }),
{
    let mut md = profile_lines(lang, user_id, display_name, profile, fallback);
    let profile_end_line = md.len();
    push_lines(&mut md, divider_lines(retrieved));
    let before_timeline = md.len();
    push_lines(&mut md, timeline_lines(lang, timeline, generated_at));
    let timeline_end_line = md.len();
    push_lines(&mut md, separator_lines());
    let before_groups = md.len();
    let ghost mid = md@;
    let gl = groups_lines(lang, profile, fallback);
    assert(gl@.len() == views(gl@).len());
    push_lines(&mut md, gl);
    assert(md@.len() == views(md@).len() && mid.len() == views(mid).len());
    let total_lines = md.len();
    assert(groups_section(lang, *profile, *fallback).len() >= 2);
    let timeline_start_line = before_timeline + 1;
    let groups_start_line = before_groups + 1;
    let content = join_lines(&md);
    let ghost all = report_lines(
        lang,
        user_id@,
        display_name@,
        *profile,
        *fallback,
        timeline@,
        retrieved@,
        generated_at@,
    );
    let ghost p = profile_section(lang, user_id@, display_name@, *profile, *fallback);
    let ghost t = timeline_section(lang, timeline@, generated_at@);
    let ghost g = groups_section(lang, *profile, *fallback);
    assert(views(md@) == all);
    assert(all.subrange(0, p.len() as int) =~= p);
    assert(all.subrange(p.len() + 4int, p.len() + t.len() + 4int) =~= t);
    assert(all.subrange(p.len() + t.len() + 7int, all.len() as int) =~= g);
    RenderedReport {
        content,
        total_lines,
        profile_end_line,
        timeline_start_line,
        timeline_end_line,
        groups_start_line,
        groups_end_line: total_lines,
    }
}

/// The line ranges of a report point at its sections in the file's text:
/// split at its line breaks, the text gives back the report's lines, so lines
/// `1..=profile_end_line`, `timeline_start_line..=timeline_end_line` and
/// `groups_start_line..=groups_end_line` are the profile, the timeline and the
/// groups. This holds when no line of the report holds a line break (a
/// profile text with a line break outside the bio and descriptions breaks it).
pub proof fn lemma_report_sections_in_file(
    lang: Language,
    user_id: Seq<char>,
    display_name: Seq<char>,
    profile: Option<ProfileView>,
    fallback: UserSnapshot,
    events: Seq<TimelineEvent>,
    retrieved: Seq<char>,
    generated_at: Seq<char>,
)
    requires
        forall|i: int|
            0 <= i < report_lines(
                lang,
                user_id,
                display_name,
                profile,
                fallback,
                events,
                retrieved,
                generated_at,
            ).len() ==> !(#[trigger] report_lines(
                lang,
                user_id,
                display_name,
                profile,
                fallback,
                events,
                retrieved,
                generated_at,
            )[i]).contains('\n'),
    ensures
        ({
            let all = report_lines(
                lang,
                user_id,
                display_name,
                profile,
                fallback,
                events,
                retrieved,
                generated_at,
            );
            let p = profile_section(lang, user_id, display_name, profile, fallback);
            let t = timeline_section(lang, events, generated_at);
            let g = groups_section(lang, profile, fallback);
            let file_lines = split_on(joined(all), '\n');
            &&& file_lines == all
            &&& file_lines.subrange(0, p.len() as int) == p
            &&& file_lines.subrange(p.len() + 4int, p.len() + t.len() + 4int) == t
            &&& file_lines.subrange(p.len() + t.len() + 7int, file_lines.len() as int) == g
        }),
{
    let all = report_lines(lang, user_id, display_name, profile, fallback, events, retrieved, generated_at);
    let p = profile_section(lang, user_id, display_name, profile, fallback);
    let t = timeline_section(lang, events, generated_at);
    let g = groups_section(lang, profile, fallback);
    assert(all.len() > 0);
    lemma_split_joined(all);
    assert(all.subrange(0, p.len() as int) =~= p);
    assert(all.subrange(p.len() + 4int, p.len() + t.len() + 4int) =~= t);
    assert(all.subrange(p.len() + t.len() + 7int, all.len() as int) =~= g);
}

/// The name the report is filed under: the profile's display name, else the
/// one VRCX remembers, else the user id.
pub open spec fn shown_name(user_id: Seq<char>, profile: Option<ProfileView>, fallback: UserSnapshot) -> Seq<char> {
    let from_profile = match profile {
        Some(p) => opt_view(p.display_name),
        None => None,
    };
    match first_of(from_profile, opt_view(fallback.display_name)) {
        Some(n) => n,
        None => user_id,
    }
}

/// The display name of the user the report is about.
pub fn report_display_name(user_id: &str, profile: &Option<ProfileView>, fallback: &UserSnapshot) -> (r: String)
    ensures
        r@ == shown_name(user_id@, *profile, *fallback),
{
    let from_profile = match profile {
        Some(p) => match &p.display_name {
            Some(n) => Some(n),
            None => None,
        },
        None => None,
    };
    match first_text(from_profile, &fallback.display_name) {
        Some(n) => n,
        None => user_id.to_owned(),
    }
}

/// The file name of a report: the safe display name and the line ranges of
/// the whole report and of its profile, timeline and groups sections.
pub open spec fn report_file(safe_name: Seq<char>, r: RenderedReport) -> Seq<char> {
    safe_name + "_L1-L"@ + decimal(r.total_lines as nat) + "_PROFILE_L1-L"@ + decimal(
        r.profile_end_line as nat,
    ) + "_TIMELINE_L"@ + decimal(r.timeline_start_line as nat) + "-L"@ + decimal(
        r.timeline_end_line as nat,
    ) + "_GROUPS_L"@ + decimal(r.groups_start_line as nat) + "-L"@ + decimal(
        r.groups_end_line as nat,
    ) + ".md"@
}

/// The file name of a rendered report.
pub fn report_file_name(safe_name: &str, r: &RenderedReport) -> (f: String)
    ensures
        f@ == report_file(safe_name@, *r),
{
    let mut v: Vec<char> = Vec::new();
    append_str(&mut v, safe_name);
    append_str(&mut v, "_L1-L");
    append_str(&mut v, u64_text(r.total_lines as u64).as_str());
    append_str(&mut v, "_PROFILE_L1-L");
    append_str(&mut v, u64_text(r.profile_end_line as u64).as_str());
    append_str(&mut v, "_TIMELINE_L");
    append_str(&mut v, u64_text(r.timeline_start_line as u64).as_str());
    append_str(&mut v, "-L");
    append_str(&mut v, u64_text(r.timeline_end_line as u64).as_str());
    append_str(&mut v, "_GROUPS_L");
    append_str(&mut v, u64_text(r.groups_start_line as u64).as_str());
    append_str(&mut v, "-L");
    append_str(&mut v, u64_text(r.groups_end_line as u64).as_str());
    append_str(&mut v, ".md");
    string_from(v.as_slice())
}

} // verus!
