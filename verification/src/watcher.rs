//! Reading VRChat's output log: lines become events, partial lines wait for
//! the rest of their text, and the watcher follows the newest log file.
use vstd::prelude::*;
use vstd::utf8::{encode_utf8, is_char_boundary};

use crate::text::{
    append_str, chars_of, contains, contains_bytes, contains_str, find, find_chars,
    lemma_find_from_found, lines, lines_of, occurs_at, string_from, suffix_from, trim,
    trim_chars, find_from, first_newline, lemma_find_single, strip_cr,
};

verus! {

/// An event read from one log line.
#[derive(Debug, Clone)]
pub enum LogEvent {
    Location { world_name: String, timestamp: String },
    LocationInstance { location: String, timestamp: String },
    PlayerJoined { display_name: String, user_id: Option<String>, timestamp: String },
    PlayerLeft { display_name: String, user_id: Option<String>, timestamp: String },
    VoiceReady { timestamp: String },
}

/// The mathematical value of a `LogEvent`.
pub enum EventModel {
    Location { world_name: Seq<char>, timestamp: Seq<char> },
    LocationInstance { location: Seq<char>, timestamp: Seq<char> },
    PlayerJoined { display_name: Seq<char>, user_id: Option<Seq<char>>, timestamp: Seq<char> },
    PlayerLeft { display_name: Seq<char>, user_id: Option<Seq<char>>, timestamp: Seq<char> },
    VoiceReady { timestamp: Seq<char> },
}

/// The view of an optional string.
pub open spec fn opt_view(o: Option<String>) -> Option<Seq<char>> {
    match o {
        Some(s) => Some(s@),
        None => None,
    }
}

impl View for LogEvent {
    type V = EventModel;

    open spec fn view(&self) -> EventModel {
        match self {
            LogEvent::Location { world_name, timestamp } => EventModel::Location {
                world_name: world_name@,
                timestamp: timestamp@,
            },
            LogEvent::LocationInstance { location, timestamp } => EventModel::LocationInstance {
                location: location@,
                timestamp: timestamp@,
            },
            LogEvent::PlayerJoined { display_name, user_id, timestamp } => EventModel::PlayerJoined {
                display_name: display_name@,
                user_id: opt_view(*user_id),
                timestamp: timestamp@,
            },
            LogEvent::PlayerLeft { display_name, user_id, timestamp } => EventModel::PlayerLeft {
                display_name: display_name@,
                user_id: opt_view(*user_id),
                timestamp: timestamp@,
            },
            LogEvent::VoiceReady { timestamp } => EventModel::VoiceReady { timestamp: timestamp@ },
        }
    }
}

/// The views of a list of events.
pub open spec fn event_views(v: Seq<LogEvent>) -> Seq<EventModel> {
    v.map_values(|e: LogEvent| e@)
}

/// The pattern that splits a player entry into display name and user id.
pub open spec fn player_pattern() -> Seq<char> {
    "(.+) \\((usr_[a-f0-9-]+)\\)"@
}

/// What the regex crate finds for `pattern` in `text`: the first and second
/// capture groups of its leftmost match (`None` when the pattern does not
/// compile, does not match, or a group takes no part in the match).
pub uninterp spec fn pattern_captures(pattern: Seq<char>, text: Seq<char>) -> Option<
    (Seq<char>, Seq<char>),
>;

/// `regex::Regex::new` then `Regex::captures`: the contract claims that the
/// two groups returned are what `pattern_captures` names for these arguments.
#[verifier::external_body]
fn capture_pair(pattern: &str, text: &str) -> (r: Option<(String, String)>)
    ensures
        r matches Some(p) ==> pattern_captures(pattern@, text@) == Some((p.0@, p.1@)),
        r is None ==> pattern_captures(pattern@, text@) is None,
{
    let re = regex::Regex::new(pattern).ok()?;
    let caps = re.captures(text)?;
    Some((caps.get(1)?.as_str().to_string(), caps.get(2)?.as_str().to_string()))
}

/// What `String::from_utf8_lossy` makes of `bytes`.
pub uninterp spec fn utf8_lossy(bytes: Seq<u8>) -> Seq<char>;

/// `String::from_utf8_lossy`: the contract claims that the text is the lossy
/// decoding of the bytes (a function of the bytes alone).
#[verifier::external_body]
pub(crate) fn decode_lossy_text(bytes: &[u8]) -> (r: String)
    ensures
        r@ == utf8_lossy(bytes@),
{
    String::from_utf8_lossy(bytes).into_owned()
}

/// An ASCII decimal digit byte.
pub open spec fn is_digit_byte(b: u8) -> bool {
    48 <= b <= 57
}

/// The timestamp at the start of a log line, `"2026.03.08 01:14:09"` rewritten
/// as `"2026-03-08T01:14:09"`; empty when the line does not start with one.
pub open spec fn timestamp_of(bytes: Seq<u8>) -> Seq<char> {
    if bytes.len() >= 19 && is_char_boundary(bytes, 19) && is_digit_byte(bytes[0]) {
        Seq::new(
            19,
            |i: int|
                if i == 4 || i == 7 {
                    '-'
                } else if i == 10 {
                    'T'
                } else {
                    bytes[i] as char
                },
        )
    } else {
        seq![]
    }
}

/// The display name and user id of a player entry: from the pattern's captures
/// when it matches, else the whole entry trimmed and no id.
pub open spec fn player_fields(pattern: Seq<char>, parts: Seq<char>) -> (Seq<char>, Option<Seq<char>>) {
    match pattern_captures(pattern, parts) {
        Some(c) => (c.0, Some(c.1)),
        None => (trim(parts), None),
    }
}

/// The event a log line describes, if any.
pub open spec fn parse_line_model(pattern: Seq<char>, line: Seq<char>) -> Option<EventModel> {
    let ts = timestamp_of(encode_utf8(line));
    let n = line.len() as int;
    match find(line, "] Entering Room: "@) {
        Some(p) => Some(EventModel::Location { world_name: line.subrange(p + 17, n), timestamp: ts }),
        None => match find(line, "] Joining wrld_"@) {
            Some(p) => Some(
                EventModel::LocationInstance { location: line.subrange(p + 10, n), timestamp: ts },
            ),
            None => match find(line, "] OnPlayerJoined "@) {
                Some(p) => {
                    let f = player_fields(pattern, line.subrange(p + 17, n));
                    Some(EventModel::PlayerJoined { display_name: f.0, user_id: f.1, timestamp: ts })
                },
                None => {
                    let left = find(line, "] OnPlayerLeft "@);
                    if left is Some && !contains(line, "OnPlayerLeftRoom"@) {
                        let f = player_fields(pattern, line.subrange(left->0 + 15, n));
                        Some(
                            EventModel::PlayerLeft { display_name: f.0, user_id: f.1, timestamp: ts },
                        )
                    } else if contains(line, "uSpeak"@) && contains(line, "Start Microphone"@) {
                        Some(EventModel::VoiceReady { timestamp: ts })
                    } else {
                        None
                    }
                },
            },
        },
    }
}

/// The content ends with a line break (`'\n'` or `'\r'`).
pub open spec fn ends_with_break(content: Seq<char>) -> bool {
    content.len() > 0 && (content.last() == '\n' || content.last() == '\r')
}

/// The complete lines of a read: all its lines, but the last one when the
/// content does not end with a line break.
pub open spec fn chunk_complete(content: Seq<char>) -> Seq<Seq<char>> {
    if !ends_with_break(content) && lines(content).len() > 0 {
        lines(content).drop_last()
    } else {
        lines(content)
    }
}

/// The unfinished last line of a read, kept for the next read (empty when the
/// content ends with a line break).
pub open spec fn chunk_rest(content: Seq<char>) -> Seq<char> {
    if !ends_with_break(content) && lines(content).len() > 0 {
        lines(content).last()
    } else {
        seq![]
    }
}

/// The events of a list of complete lines: each line is trimmed, and each
/// non-empty trimmed line that describes an event gives that event.
pub open spec fn line_events(pattern: Seq<char>, ls: Seq<Seq<char>>) -> Seq<EventModel>
    decreases ls.len(),
{
    if ls.len() == 0 {
        seq![]
    } else {
        let prev = line_events(pattern, ls.drop_last());
        let t = trim(ls.last());
        if t.len() > 0 {
            match parse_line_model(pattern, t) {
                Some(e) => prev.push(e),
                None => prev,
            }
        } else {
            prev
        }
    }
}


proof fn lemma_first_newline_prefix(x: Seq<char>, b: Seq<char>, i: int)
    requires
        0 <= i,
        find_from(x, seq!['\n'], i) is Some,
    ensures
        find_from(x + b, seq!['\n'], i) == find_from(x, seq!['\n'], i),
    decreases x.len() - i,
{
    let nl = seq!['\n'];
    if i + 1 <= x.len() {
        assert((x + b).subrange(i, i + 1) == x.subrange(i, i + 1));
    }
    if i + nl.len() > x.len() {
    } else if occurs_at(x, nl, i) {
    } else {
        lemma_first_newline_prefix(x, b, i + 1);
    }
}

proof fn lemma_lines_split(x: Seq<char>, k: int)
    requires
        first_newline(x) == Some(k),
    ensures
        0 <= k < x.len(),
        x[k] == '\n',
        lines(x) == seq![strip_cr(x.subrange(0, k))] + lines(x.subrange(k + 1, x.len() as int)),
{
    lemma_find_from_found(x, seq!['\n'], 0);
    assert(x.subrange(k, k + 1)[0] == x[k]);
}

/// Lines of text that ends with a line feed, followed by more text.
proof fn lemma_lines_append_break(x: Seq<char>, b: Seq<char>)
    requires
        x.len() > 0,
        x.last() == '\n',
    ensures
        lines(x + b) == lines(x) + lines(b),
    decreases x.len(),
{
    let nl = seq!['\n'];
    assert(occurs_at(x, nl, x.len() - 1)) by {
        assert(x.subrange(x.len() - 1, x.len() as int) == nl);
    }
    lemma_find_some(x, nl, 0, x.len() - 1);
    let k = first_newline(x)->0;
    lemma_lines_split(x, k);
    lemma_first_newline_prefix(x, b, 0);
    lemma_lines_split(x + b, k);
    let xr = x.subrange(k + 1, x.len() as int);
    assert((x + b).subrange(0, k) == x.subrange(0, k));
    assert((x + b).subrange(k + 1, (x + b).len() as int) == xr + b);
    if xr.len() == 0 {
        assert(xr + b == b);
        assert(lines(xr) == Seq::<Seq<char>>::empty());
    } else {
        assert(xr.last() == x.last());
        lemma_lines_append_break(xr, b);
    }
}

/// Text that does not end with a line feed, followed by more text: its last
/// line continues into the text that follows.
proof fn lemma_lines_append_open(x: Seq<char>, b: Seq<char>)
    requires
        x.len() > 0,
        x.last() != '\n',
    ensures
        lines(x).len() > 0,
        lines(x).last().len() > 0,
        lines(x).last().last() == x.last(),
        lines(x + b) == lines(x).drop_last() + lines(lines(x).last() + b),
    decreases x.len(),
{
    match first_newline(x) {
        None => {
            assert(lines(x) == seq![x]);
        },
        Some(k) => {
            lemma_lines_split(x, k);
            lemma_first_newline_prefix(x, b, 0);
            lemma_lines_split(x + b, k);
            let xr = x.subrange(k + 1, x.len() as int);
            assert(k != x.len() - 1);
            assert(xr.last() == x.last());
            lemma_lines_append_open(xr, b);
            assert((x + b).subrange(0, k) == x.subrange(0, k));
            assert((x + b).subrange(k + 1, (x + b).len() as int) == xr + b);
            assert(lines(x).drop_last() == seq![strip_cr(x.subrange(0, k))] + lines(xr).drop_last());
        },
    }
}

proof fn lemma_find_some<A>(h: Seq<A>, n: Seq<A>, i: int, j: int)
    requires
        0 <= i <= j,
        occurs_at(h, n, j),
    ensures
        find_from(h, n, i) is Some,
    decreases j - i,
{
    if occurs_at(h, n, i) {
    } else {
        lemma_find_some(h, n, i + 1, j);
    }
}

/// The events of two lists of lines are the events of each, in order.
pub proof fn lemma_line_events_append(pattern: Seq<char>, l1: Seq<Seq<char>>, l2: Seq<Seq<char>>)
    ensures
        line_events(pattern, l1 + l2) == line_events(pattern, l1) + line_events(pattern, l2),
    decreases l2.len(),
{
    if l2.len() == 0 {
        assert(l1 + l2 == l1);
    } else {
        lemma_line_events_append(pattern, l1, l2.drop_last());
        assert((l1 + l2).drop_last() == l1 + l2.drop_last());
        assert((l1 + l2).last() == l2.last());
    }
}

/// Reading a log in two pieces gives the same events, in the same order, and
/// keeps the same unfinished line as reading it in one piece; the one
/// exception is a first piece that ends with a bare `'\r'`, which is a line
/// break when it ends a read but not when a `'\n'` follows.
pub proof fn lemma_chunked_reading(
    pattern: Seq<char>,
    pending: Seq<char>,
    a: Seq<char>,
    b: Seq<char>,
)
    requires
        (pending + a).len() == 0 || (pending + a).last() != '\r',
    ensures
        line_events(pattern, chunk_complete(pending + a)) + line_events(
            pattern,
            chunk_complete(chunk_rest(pending + a) + b),
        ) == line_events(pattern, chunk_complete(pending + a + b)),
        chunk_rest(chunk_rest(pending + a) + b) == chunk_rest(pending + a + b),
{
    let c1 = pending + a;
    let r1 = chunk_rest(c1);
    let c = c1 + b;
    if c1.len() == 0 {
        assert(lines(c1) == Seq::<Seq<char>>::empty());
        assert(r1 + b == c);
    } else if c1.last() == '\n' {
        lemma_lines_append_break(c1, b);
        assert(r1 + b == b);
        if b.len() == 0 {
            assert(c == c1);
            assert(lines(b) == Seq::<Seq<char>>::empty());
        } else {
            assert(c.last() == b.last());
            assert(lines(b).len() > 0) by {
                if first_newline(b) is Some {
                    lemma_lines_split(b, first_newline(b)->0);
                }
            }
            assert((lines(c1) + lines(b)).drop_last() == lines(c1) + lines(b).drop_last());
        }
        lemma_line_events_append(pattern, chunk_complete(c1), chunk_complete(r1 + b));
    } else {
        lemma_lines_append_open(c1, b);
        let d = lines(c1).drop_last();
        let rb = r1 + b;
        assert(rb.len() > 0);
        assert(lines(rb).len() > 0) by {
            if first_newline(rb) is Some {
                lemma_lines_split(rb, first_newline(rb)->0);
            }
        }
        if b.len() == 0 {
            assert(rb == r1);
            assert(c == c1);
        } else {
            assert(c.last() == b.last());
            assert(rb.last() == b.last());
        }
        assert((d + lines(rb)).drop_last() == d + lines(rb).drop_last());
        lemma_line_events_append(pattern, d, chunk_complete(rb));
    }
}


/// `name` begins with `prefix`.
pub open spec fn starts_with(name: Seq<char>, prefix: Seq<char>) -> bool {
    prefix.len() <= name.len() && name.subrange(0, prefix.len() as int) == prefix
}

/// `name` ends with `suffix`.
pub open spec fn ends_with(name: Seq<char>, suffix: Seq<char>) -> bool {
    suffix.len() <= name.len() && name.subrange(name.len() - suffix.len(), name.len() as int)
        == suffix
}

/// A VRChat log file name: `output_log_*.txt`.
pub open spec fn is_log_name(name: Seq<char>) -> bool {
    starts_with(name, "output_log_"@) && ends_with(name, ".txt"@)
}

/// Modification times ordered as `Option` orders them: an unknown time comes
/// before every known one.
pub open spec fn time_lt(a: Option<i128>, b: Option<i128>) -> bool {
    match (a, b) {
        (None, Some(_)) => true,
        (Some(x), Some(y)) => x < y,
        _ => false,
    }
}

/// Entry `k` is the newest log file of the directory listing: a log file whose
/// modification time no log file exceeds, and the first such in the listing.
pub open spec fn is_newest_log(names: Seq<Seq<char>>, modified: Seq<Option<i128>>, k: int) -> bool {
    &&& 0 <= k < names.len()
    &&& is_log_name(names[k])
    &&& forall|j: int| 0 <= j < names.len() && is_log_name(names[j]) ==> !time_lt(modified[k], modified[j])
    &&& forall|j: int| 0 <= j < k && is_log_name(names[j]) ==> time_lt(modified[j], modified[k])
}

/// The marker of the line that records entering a room.
pub open spec fn room_marker() -> Seq<u8> {
    encode_utf8("[Behaviour] Entering Room:"@)
}

/// Where the first line of `b` ends: after its first line feed, or at the end.
pub open spec fn first_line_end(b: Seq<u8>) -> int {
    match find(b, seq![10u8]) {
        Some(k) => k + 1,
        None => b.len() as int,
    }
}

/// Scans the lines of `b`, which starts at byte `offset` of the file, keeping
/// the offset of the last line that holds the room marker.
pub open spec fn room_scan(b: Seq<u8>, offset: int, found: Option<int>) -> Option<int>
    decreases b.len(),
{
    if b.len() == 0 {
        found
    } else {
        let e = first_line_end(b);
        if 0 < e <= b.len() {
            let line = b.subrange(0, e);
            room_scan(
                b.subrange(e, b.len() as int),
                offset + e,
                if contains(line, room_marker()) {
                    Some(offset)
                } else {
                    found
                },
            )
        } else {
            found
        }
    }
}

/// The byte offset of the last line of a log that records entering a room (0
/// when there is none).
pub open spec fn last_room_offset_of(b: Seq<u8>) -> int {
    match room_scan(b, 0, None) {
        Some(o) => o,
        None => 0,
    }
}

/// Copies the bytes of `b` in `[from, to)`.
fn slice_bytes(b: &[u8], from: usize, to: usize) -> (r: Vec<u8>)
    requires
        from <= to <= b@.len(),
    ensures
        r@ == b@.subrange(from as int, to as int),
{
    let mut r: Vec<u8> = Vec::new();
    let mut k: usize = from;
    while k < to
        invariant
            from <= k <= to <= b@.len(),
            r@ == b@.subrange(from as int, k as int),
        decreases to - k,
    {
        r.push(b[k]);
        k = k + 1;
        assert(b@.subrange(from as int, k as int) == b@.subrange(from as int, k - 1).push(
            b@[k - 1],
        ));
    }
    r
}

/// The byte offset of the last line of a log that records entering a room (0
/// when there is none); every line is read, whatever its encoding.
pub fn last_room_offset(content: &[u8]) -> (r: u64)
    ensures
        r == last_room_offset_of(content@),
{
    let mark = "[Behaviour] Entering Room:".as_bytes();
    let n = content.len();
    let mut pos: usize = 0;
    let mut found: Option<u64> = None;
    assert(content@.subrange(0, n as int) == content@);
    while pos < n
        invariant
            pos <= n == content@.len(),
            mark@ == room_marker(),
            room_scan(content@, 0, None) == room_scan(
                content@.subrange(pos as int, n as int),
                pos as int,
                match found {
                    Some(o) => Some(o as int),
                    None => None,
                },
            ),
        ensures
            room_scan(content@, 0, None) == match found {
                Some(o) => Some(o as int),
                None => None,
            },
        decreases n - pos,
    {
        let ghost rest = content@.subrange(pos as int, n as int);
        let mut end: usize = pos;
        while end < n && content[end] != 10u8
            invariant
                pos <= end <= n == content@.len(),
                forall|j: int| pos <= j < end ==> content@[j] != 10u8,
            decreases n - end,
        {
            end = end + 1;
        }
        proof {
            lemma_find_single(rest, 10u8, 0, end - pos);
        }
        if end < n {
            end = end + 1;
        }
        assert(first_line_end(rest) == end - pos);
        let line = slice_bytes(content, pos, end);
        assert(line@ == rest.subrange(0, end - pos));
        assert(rest.len() > 0);
        if contains_bytes(line.as_slice(), mark) {
            found = Some(pos as u64);
        }
        assert(rest.subrange(end - pos, rest.len() as int) == content@.subrange(end as int, n as int));
        pos = end;
    }
    match found {
        Some(o) => o,
        None => 0,
    }
}

/// The index of the newest log file in a directory listing (names with their
/// modification times), if the listing holds a log file.
pub fn latest_log_index(names: &[String], modified: &[Option<i128>]) -> (r: Option<usize>)
    requires
        names@.len() == modified@.len(),
    ensures
        r matches Some(k) ==> is_newest_log(names@.map_values(|s: String| s@), modified@, k as int),
        r is None ==> forall|j: int|
            0 <= j < names@.len() ==> !is_log_name(#[trigger] names@[j]@),
{
    let ghost nv = names@.map_values(|s: String| s@);
    let prefix = chars_of("output_log_");
    let suffix = chars_of(".txt");
    let mut best: Option<usize> = None;
    let mut i: usize = 0;
    while i < names.len()
        invariant
            i <= names@.len() == modified@.len() == nv.len(),
            nv == names@.map_values(|s: String| s@),
            prefix@ == "output_log_"@,
            suffix@ == ".txt"@,
            best matches Some(k) ==> k < i && is_log_name(nv[k as int])
                && (forall|j: int| 0 <= j < i && is_log_name(nv[j]) ==> !time_lt(modified@[k as int], modified@[j]))
                && (forall|j: int| 0 <= j < k && is_log_name(nv[j]) ==> time_lt(modified@[j], modified@[k as int])),
            best is None ==> forall|j: int| 0 <= j < i ==> !is_log_name(nv[j]),
        decreases names@.len() - i,
    {
        let name = chars_of(names[i].as_str());
        assert(name@ == nv[i as int]);
        let is_log = name.len() >= prefix.len() && name.len() >= suffix.len()
            && crate::text::occurs_at_exec(name.as_slice(), prefix.as_slice(), 0)
            && crate::text::occurs_at_exec(name.as_slice(), suffix.as_slice(), name.len() - suffix.len());
        if is_log {
            let newer = match best {
                None => true,
                Some(k) => match (modified[k], modified[i]) {
                    (None, Some(_)) => true,
                    (Some(x), Some(y)) => x < y,
                    _ => false,
                },
            };
            if newer {
                best = Some(i);
            }
        }
        i = i + 1;
    }
    assert(forall|j: int| 0 <= j < names@.len() ==> nv[j] == #[trigger] names@[j]@);
    best
}

/// Follows a VRChat log file: where reading stopped and the unfinished line
/// read so far.
pub struct LogWatcher {
    pub log_dir: String,
    pub current_log_file: Option<String>,
    pub last_read_pos: u64,
    pub incomplete_line: String,
    pub player_re: String,
}

/// Appends a character to a string built so far.
fn push_marker_char(v: &mut Vec<char>, c: char)
    ensures
        final(v)@ == old(v)@.push(c),
{
    v.push(c);
}

impl LogWatcher {
    /// A watcher of the logs in `log_dir`, with no file chosen yet.
    pub fn new(log_dir: String) -> (r: LogWatcher)
        ensures
            r.log_dir == log_dir,
            r.current_log_file is None,
            r.last_read_pos == 0,
            r.incomplete_line@ == Seq::<char>::empty(),
            r.player_re@ == player_pattern(),
    {
        LogWatcher {
            log_dir,
            current_log_file: None,
            last_read_pos: 0,
            incomplete_line: String::new(),
            player_re: "(.+) \\((usr_[a-f0-9-]+)\\)".to_owned(),
        }
    }

    /// The timestamp at the start of a log line (see `timestamp_of`).
    pub fn parse_timestamp(line: &str) -> (r: String)
        ensures
            r@ == timestamp_of(encode_utf8(line@)),
    {
        let b = line.as_bytes();
        if b.len() >= 19 && line.is_char_boundary(19) && 48 <= b[0] && b[0] <= 57 {
            let mut s = String::new();
            let mut i: usize = 0;
            while i < 19
                invariant
                    i <= 19,
                    b@ == encode_utf8(line@),
                    b@.len() >= 19,
                    s@.len() == i,
                    forall|j: int| 0 <= j < i ==> s@[j] == timestamp_of(b@)[j],
                    is_char_boundary(b@, 19) && is_digit_byte(b@[0]),
                decreases 19 - i,
            {
                let c = if i == 4 || i == 7 {
                    '-'
                } else if i == 10 {
                    'T'
                } else {
                    b[i] as char
                };
                crate::text::push_char(&mut s, c);
                i = i + 1;
            }
            assert(s@ == timestamp_of(b@));
            s
        } else {
            String::new()
        }
    }

    /// The event a log line describes, if any.
    pub fn parse_line(&self, line: &str) -> (r: Option<LogEvent>)
        ensures
            (match r {
                Some(e) => Some(e@),
                None => None,
            }) == parse_line_model(self.player_re@, line@),
    {
        let l = chars_of(line);
        let n = l.len();
        let ghost ts = timestamp_of(encode_utf8(line@));
        proof {
            reveal_strlit("] Entering Room: ");
            reveal_strlit("] Joining wrld_");
            reveal_strlit("] OnPlayerJoined ");
            reveal_strlit("] OnPlayerLeft ");
        }
        let m1 = chars_of("] Entering Room: ");
        if let Some(pos) = find_chars(l.as_slice(), m1.as_slice()) {
            proof {
                lemma_find_from_found(l@, m1@, 0);
            }
            let world = suffix_from(l.as_slice(), pos + 17);
            return Some(
                LogEvent::Location {
                    world_name: string_from(world.as_slice()),
                    timestamp: Self::parse_timestamp(line),
                },
            );
        }
        let m2 = chars_of("] Joining wrld_");
        if let Some(pos) = find_chars(l.as_slice(), m2.as_slice()) {
            proof {
                lemma_find_from_found(l@, m2@, 0);
            }
            let loc = suffix_from(l.as_slice(), pos + 10);
            return Some(
                LogEvent::LocationInstance {
                    location: string_from(loc.as_slice()),
                    timestamp: Self::parse_timestamp(line),
                },
            );
        }
        let m3 = chars_of("] OnPlayerJoined ");
        if let Some(pos) = find_chars(l.as_slice(), m3.as_slice()) {
            proof {
                lemma_find_from_found(l@, m3@, 0);
            }
            let parts = suffix_from(l.as_slice(), pos + 17);
            let (name, uid) = self.player_fields_of(parts.as_slice());
            return Some(
                LogEvent::PlayerJoined {
                    display_name: name,
                    user_id: uid,
                    timestamp: Self::parse_timestamp(line),
                },
            );
        }
        let m4 = chars_of("] OnPlayerLeft ");
        if let Some(pos) = find_chars(l.as_slice(), m4.as_slice()) {
            proof {
                lemma_find_from_found(l@, m4@, 0);
            }
            if !contains_str(l.as_slice(), "OnPlayerLeftRoom") {
                let parts = suffix_from(l.as_slice(), pos + 15);
                let (name, uid) = self.player_fields_of(parts.as_slice());
                return Some(
                    LogEvent::PlayerLeft {
                        display_name: name,
                        user_id: uid,
                        timestamp: Self::parse_timestamp(line),
                    },
                );
            }
        }
        if contains_str(l.as_slice(), "uSpeak") && contains_str(l.as_slice(), "Start Microphone") {
            return Some(LogEvent::VoiceReady { timestamp: Self::parse_timestamp(line) });
        }
        None
    }

    /// Display name and user id of a player entry (see `player_fields`).
    fn player_fields_of(&self, parts: &[char]) -> (r: (String, Option<String>))
        ensures
            (r.0@, opt_view(r.1)) == player_fields(self.player_re@, parts@),
    {
        let text = string_from(parts);
        match capture_pair(self.player_re.as_str(), text.as_str()) {
            Some((name, id)) => (name, Some(id)),
            None => {
                let t = trim_chars(parts);
                (string_from(t.as_slice()), None)
            },
        }
    }

    /// Takes newly read text: the unfinished line kept from the last read comes
    /// first; complete lines become events, and an unfinished last line is kept.
    pub fn take_chunk(&mut self, decoded: &str) -> (evs: Vec<LogEvent>)
        ensures
            event_views(evs@) == line_events(
                old(self).player_re@,
                chunk_complete(old(self).incomplete_line@ + decoded@),
            ),
            final(self).incomplete_line@ == chunk_rest(old(self).incomplete_line@ + decoded@),
            final(self).player_re == old(self).player_re,
            final(self).log_dir == old(self).log_dir,
            final(self).current_log_file == old(self).current_log_file,
            final(self).last_read_pos == old(self).last_read_pos,
    {
        let mut content = chars_of(self.incomplete_line.as_str());
        append_str(&mut content, decoded);
        let ghost c = content@;
        self.incomplete_line = String::new();
        let trailing = content.len() > 0 && (content[content.len() - 1] == '\n'
            || content[content.len() - 1] == '\r');
        let ls = lines_of(content.as_slice());
        let ghost lm = lines(c);
        let count = if !trailing && ls.len() > 0 {
            ls.len() - 1
        } else {
            ls.len()
        };
        assert(chunk_complete(c) == lm.take(count as int));
        let mut evs: Vec<LogEvent> = Vec::new();
        let mut i: usize = 0;
        while i < count
            invariant
                count <= ls@.len() == lm.len(),
                forall|j: int| 0 <= j < ls@.len() ==> #[trigger] ls@[j]@ == lm[j],
                i <= count,
                event_views(evs@) == line_events(self.player_re@, lm.take(i as int)),
            decreases count - i,
        {
            let t = trim_chars(ls[i].as_slice());
            assert(lm.take(i + 1).drop_last() == lm.take(i as int));
            assert(lm.take(i + 1).last() == lm[i as int]);
            if t.len() > 0 {
                let s = string_from(t.as_slice());
                match self.parse_line(s.as_str()) {
                    Some(e) => {
                        let ghost before = evs@;
                        evs.push(e);
                        assert(event_views(evs@) == event_views(before).push(e@));
                    },
                    None => {},
                }
            }
            i = i + 1;
        }
        if count < ls.len() {
            self.incomplete_line = string_from(ls[count].as_slice());
        }
        evs
    }

    /// Where reading starts for a file of `file_size` bytes: a file shorter than
    /// the position read so far was truncated or rotated and is read from its
    /// start. Returns how many bytes are new (`None` when none are).
    pub fn begin_read(&mut self, file_size: u64) -> (r: Option<u64>)
        ensures
            final(self).last_read_pos == (if file_size < old(self).last_read_pos {
                0
            } else {
                old(self).last_read_pos
            }),
            r == (if file_size == final(self).last_read_pos {
                None
            } else {
                Some((file_size - final(self).last_read_pos) as u64)
            }),
            final(self).incomplete_line == old(self).incomplete_line,
            final(self).player_re == old(self).player_re,
            final(self).log_dir == old(self).log_dir,
            final(self).current_log_file == old(self).current_log_file,
    {
        if file_size < self.last_read_pos {
            self.last_read_pos = 0;
        }
        if file_size == self.last_read_pos {
            None
        } else {
            Some(file_size - self.last_read_pos)
        }
    }

    /// Takes the bytes read up to `file_size`: the position moves to the end of
    /// the file and the bytes, decoded, are taken as by `take_chunk`.
    pub fn finish_read(&mut self, file_size: u64, buffer: &[u8]) -> (evs: Vec<LogEvent>)
        ensures
            final(self).last_read_pos == file_size,
            event_views(evs@) == line_events(
                old(self).player_re@,
                chunk_complete(old(self).incomplete_line@ + utf8_lossy(buffer@)),
            ),
            final(self).incomplete_line@ == chunk_rest(
                old(self).incomplete_line@ + utf8_lossy(buffer@),
            ),
            final(self).player_re == old(self).player_re,
            final(self).log_dir == old(self).log_dir,
            final(self).current_log_file == old(self).current_log_file,
    {
        self.last_read_pos = file_size;
        let text = decode_lossy_text(buffer);
        self.take_chunk(text.as_str())
    }

    /// Follows `latest`, the newest log file, when it differs from the file
    /// followed so far; a new file is read from its start. Returns whether the
    /// file changed.
    pub fn follow_latest(&mut self, latest: Option<String>) -> (changed: bool)
        ensures
            changed == (latest is Some && opt_view(old(self).current_log_file) != opt_view(latest)),
            changed ==> opt_view(final(self).current_log_file) == opt_view(latest)
                && final(self).last_read_pos == 0,
            !changed ==> final(self).current_log_file == old(self).current_log_file
                && final(self).last_read_pos == old(self).last_read_pos,
            final(self).incomplete_line == old(self).incomplete_line,
            final(self).player_re == old(self).player_re,
            final(self).log_dir == old(self).log_dir,
    {
        match latest {
            Some(l) => {
                let same = match &self.current_log_file {
                    Some(c) => *c == l,
                    None => false,
                };
                if same {
                    false
                } else {
                    self.current_log_file = Some(l);
                    self.last_read_pos = 0;
                    true
                }
            },
            None => false,
        }
    }
}

} // verus!
