//! A recording session's timeline: the markdown written when a room visit
//! starts, a row per player event, and the full timeline written at its end.
use vstd::prelude::*;

use crate::i18n::{message, t0, t1, t2, translation, Language};
use crate::recorder::is_process_running;
use crate::text::{
    append_chars, append_str, chars_of, decimal, decimal2, lemma_trim_chars_from, lemma_trim_idempotent,
    string_from, trim, trim_chars, u64_text, u64_text2,
};

verus! {

/// Whether a player joined or left.
#[derive(Debug, Clone, Copy, PartialEq, Eq, Structural)]
pub enum PlayerEventType {
    Joined,
    Left,
}

/// One player event of a session: the local clock time (`HH:MM:SS`) and the
/// whole seconds since the session started.
#[derive(Debug)]
pub struct PlayerEvent {
    pub time: String,
    pub offset_secs: u64,
    pub event_type: PlayerEventType,
    pub display_name: String,
    pub user_id: Option<String>,
}

/// A character Windows does not allow in a file name.
pub open spec fn is_forbidden(c: char) -> bool {
    c == '\\' || c == '/' || c == ':' || c == '*' || c == '?' || c == '"' || c == '<' || c == '>'
        || c == '|'
}

/// A control character (Unicode general category `Cc`, as `char::is_control`).
pub open spec fn is_control(c: char) -> bool {
    c <= '\u{1f}' || ('\u{7f}' <= c && c <= '\u{9f}')
}

/// A character kept in a file name; any other becomes `'_'`.
pub open spec fn safe_char(c: char) -> char {
    if is_forbidden(c) || is_control(c) {
        '_'
    } else {
        c
    }
}

/// A name made safe for a Windows file name: forbidden and control characters
/// become `'_'`, then surrounding white space is removed.
pub open spec fn sanitized(name: Seq<char>) -> Seq<char> {
    trim(name.map_values(|c: char| safe_char(c)))
}

/// Replaces the characters that are invalid in Windows file names.
pub fn sanitize_filename(name: &str) -> (r: String)
    ensures
        r@ == sanitized(name@),
{
    let c = chars_of(name);
    let mut m: Vec<char> = Vec::new();
    let mut i: usize = 0;
    while i < c.len()
        invariant
            i <= c@.len(),
            m@ == c@.take(i as int).map_values(|x: char| safe_char(x)),
        decreases c@.len() - i,
    {
        let x = c[i];
        let forbidden = x == '\\' || x == '/' || x == ':' || x == '*' || x == '?' || x == '"' || x
            == '<' || x == '>' || x == '|';
        let control = x <= '\u{1f}' || ('\u{7f}' <= x && x <= '\u{9f}');
        if forbidden || control {
            m.push('_');
        } else {
            m.push(x);
        }
        i = i + 1;
        assert(c@.take(i as int) == c@.take(i - 1).push(x));
        assert(c@.take(i as int).map_values(|x: char| safe_char(x)) == c@.take(i - 1).map_values(
            |x: char| safe_char(x),
        ).push(safe_char(x)));
    }
    assert(c@.take(c@.len() as int) == c@);
    let t = trim_chars(m.as_slice());
    string_from(t.as_slice())
}

/// A sanitized name holds no character that Windows forbids in file names and
/// no control character, and sanitizing it again changes nothing.
pub proof fn lemma_sanitized_is_safe_and_stable(name: Seq<char>)
    ensures
        forall|i: int|
            0 <= i < sanitized(name).len() ==> !is_forbidden(#[trigger] sanitized(name)[i])
                && !is_control(sanitized(name)[i]),
        sanitized(sanitized(name)) == sanitized(name),
{
    let m = name.map_values(|c: char| safe_char(c));
    let t = trim(m);
    assert forall|i: int| 0 <= i < t.len() implies !is_forbidden(#[trigger] t[i]) && !is_control(
        t[i],
    ) by {
        lemma_trim_chars_from(m, i);
    }
    assert(t.map_values(|c: char| safe_char(c)) == t);
    lemma_trim_idempotent(m);
}

/// `d` formatted for a folder name: hours and minutes, else minutes, else seconds.
pub open spec fn duration_text(lang: Language, total_secs: nat) -> Seq<char> {
    let hours = total_secs / 3600;
    let mins = (total_secs % 3600) / 60;
    let secs = total_secs % 60;
    if hours > 0 {
        message(lang, "duration_format_h_m"@, seq![decimal(hours), decimal(mins)])
    } else if mins > 0 {
        message(lang, "duration_format_m"@, seq![decimal(mins)])
    } else {
        message(lang, "duration_format_s"@, seq![decimal(secs)])
    }
}

/// Formats a duration of `total_secs` seconds as a human-readable folder-name part.
pub fn format_duration(lang: Language, total_secs: u64) -> (r: String)
    ensures
        r@ == duration_text(lang, total_secs as nat),
{
    let hours = total_secs / 3600;
    let mins = (total_secs % 3600) / 60;
    let secs = total_secs % 60;
    if hours > 0 {
        let h = u64_text(hours);
        let m = u64_text(mins);
        t2(lang, "duration_format_h_m", h.as_str(), m.as_str())
    } else if mins > 0 {
        let m = u64_text(mins);
        t1(lang, "duration_format_m", m.as_str())
    } else {
        let s = u64_text(secs);
        t1(lang, "duration_format_s", s.as_str())
    }
}

/// A duration reads in the largest unit it reaches: under a minute it is the
/// seconds message with all its seconds; from a minute to under an hour, the
/// minutes message with its whole minutes; from an hour on, the hours-and-
/// minutes message with its whole hours and the minutes left over.
pub proof fn lemma_duration_units(lang: Language, total_secs: nat)
    ensures
        total_secs < 60 ==> duration_text(lang, total_secs) == message(
            lang,
            "duration_format_s"@,
            seq![decimal(total_secs)],
        ),
        60 <= total_secs < 3600 ==> duration_text(lang, total_secs) == message(
            lang,
            "duration_format_m"@,
            seq![decimal(total_secs / 60)],
        ),
        3600 <= total_secs ==> duration_text(lang, total_secs) == message(
            lang,
            "duration_format_h_m"@,
            seq![decimal(total_secs / 3600), decimal(((total_secs - (total_secs / 3600) * 3600) / 60) as nat)],
        ),
{
}

/// The name of a session's folder: its start stamp (`MMdd_HH-mm`), a space and
/// the sanitized world name.
pub open spec fn folder_name(stamp: Seq<char>, world_name: Seq<char>) -> Seq<char> {
    stamp + " "@ + sanitized(world_name)
}

/// The folder name of a session started at `stamp` in `world_name`.
pub fn recording_folder_name(stamp: &str, world_name: &str) -> (r: String)
    ensures
        r@ == folder_name(stamp@, world_name@),
{
    let mut v = chars_of(stamp);
    append_str(&mut v, " ");
    let s = sanitize_filename(world_name);
    append_str(&mut v, s.as_str());
    string_from(v.as_slice())
}

/// A `- **label**: value` line.
pub open spec fn kv_line(label: Seq<char>, value: Seq<char>) -> Seq<char> {
    "- **"@ + label + "**: "@ + value + "\n"@
}

fn push_kv(out: &mut Vec<char>, label: &str, value: &str)
    ensures
        final(out)@ == old(out)@ + kv_line(label@, value@),
{
    append_str(out, "- **");
    append_str(out, label);
    append_str(out, "**: ");
    append_str(out, value);
    append_str(out, "\n");
}

/// The header row of the player table.
pub open spec fn table_header(lang: Language) -> Seq<char> {
    "| "@ + translation(lang, "table_header_time"@) + " | "@ + translation(
        lang,
        "table_header_offset"@,
    ) + " | "@ + translation(lang, "table_header_event"@) + " | "@ + translation(
        lang,
        "table_header_player"@,
    ) + " | "@ + translation(lang, "table_header_uid"@) + " |\n"@
}

fn push_table_header(out: &mut Vec<char>, lang: Language)
    ensures
        final(out)@ == old(out)@ + table_header(lang),
{
    append_str(out, "| ");
    append_str(out, t0(lang, "table_header_time").as_str());
    append_str(out, " | ");
    append_str(out, t0(lang, "table_header_offset").as_str());
    append_str(out, " | ");
    append_str(out, t0(lang, "table_header_event").as_str());
    append_str(out, " | ");
    append_str(out, t0(lang, "table_header_player").as_str());
    append_str(out, " | ");
    append_str(out, t0(lang, "table_header_uid").as_str());
    append_str(out, " |\n");
}

/// The icon text of an event type.
pub open spec fn event_icon(lang: Language, kind: PlayerEventType) -> Seq<char> {
    match kind {
        PlayerEventType::Joined => translation(lang, "event_joined"@),
        PlayerEventType::Left => translation(lang, "event_left"@),
    }
}

/// The user-id cell of a row: the id in backticks, or `-`.
pub open spec fn uid_cell(user_id: Option<String>) -> Seq<char> {
    match user_id {
        Some(id) => "`"@ + id@ + "`"@,
        None => "-"@,
    }
}

/// The table row of a player event: time, offset as `MM:SS`, icon, player, id.
pub open spec fn event_row(lang: Language, e: PlayerEvent) -> Seq<char> {
    "| "@ + e.time@ + " | "@ + decimal2((e.offset_secs / 60) as nat) + ":"@ + decimal2(
        (e.offset_secs % 60) as nat,
    ) + " | "@ + event_icon(lang, e.event_type) + " | "@ + e.display_name@ + " | "@ + uid_cell(
        e.user_id,
    ) + " |\n"@
}

/// The rows of a list of events, in order.
pub open spec fn event_rows(lang: Language, events: Seq<PlayerEvent>) -> Seq<char>
    decreases events.len(),
{
    if events.len() == 0 {
        seq![]
    } else {
        event_rows(lang, events.drop_last()) + event_row(lang, events.last())
    }
}

fn event_row_chars(lang: Language, e: &PlayerEvent) -> (r: Vec<char>)
    ensures
        r@ == event_row(lang, *e),
{
    let mut out = chars_of("| ");
    append_str(&mut out, e.time.as_str());
    append_str(&mut out, " | ");
    append_str(&mut out, u64_text2(e.offset_secs / 60).as_str());
    append_str(&mut out, ":");
    append_str(&mut out, u64_text2(e.offset_secs % 60).as_str());
    append_str(&mut out, " | ");
    let icon = match e.event_type {
        PlayerEventType::Joined => t0(lang, "event_joined"),
        PlayerEventType::Left => t0(lang, "event_left"),
    };
    append_str(&mut out, icon.as_str());
    append_str(&mut out, " | ");
    append_str(&mut out, e.display_name.as_str());
    append_str(&mut out, " | ");
    let uid = match &e.user_id {
        Some(id) => {
            let mut u = chars_of("`");
            append_str(&mut u, id.as_str());
            append_str(&mut u, "`");
            u
        },
        None => chars_of("-"),
    };
    append_chars(&mut out, uid.as_slice());
    append_str(&mut out, " |\n");
    out
}

fn push_event_row(out: &mut Vec<char>, lang: Language, e: &PlayerEvent)
    ensures
        final(out)@ == old(out)@ + event_row(lang, *e),
{
    let row = event_row_chars(lang, e);
    append_chars(out, row.as_slice());
}

/// The timeline written when a session starts: title, world, instance, start
/// time, an active-recording mark, and the empty player table.
pub open spec fn initial_timeline(
    lang: Language,
    world_name: Seq<char>,
    instance_id: Seq<char>,
    start_time: Seq<char>,
) -> Seq<char> {
    "\n"@ + message(lang, "timeline_title"@, seq![world_name]) + "\n\n"@ + kv_line(
        translation(lang, "world_name_label"@),
        world_name,
    ) + kv_line(translation(lang, "instance_id_label"@), instance_id) + kv_line(
        translation(lang, "recording_start_label"@),
        start_time,
    ) + "- **"@ + translation(lang, "recording_status_active"@) + "**\n"@ + "\n---\n\n"@
        + translation(lang, "player_timeline_title"@) + "\n\n"@ + table_header(lang)
        + "| :--- | :--- | :--- | :--- | :--- |\n"@
}

/// The complete timeline written when a session ends.
pub open spec fn final_timeline(
    lang: Language,
    s: RecordingSession,
    end_time: Seq<char>,
    total_secs: nat,
    has_audio: bool,
) -> Seq<char> {
    message(lang, "timeline_title"@, seq![s.world_name@]) + "\n\n"@ + kv_line(
        translation(lang, "world_name_label"@),
        s.world_name@,
    ) + kv_line(translation(lang, "instance_id_label"@), s.instance_id@) + kv_line(
        translation(lang, "recording_start_label"@),
        s.start_time@,
    ) + kv_line(translation(lang, "recording_end_label"@), end_time) + "- **"@ + translation(
        lang,
        "recording_duration_label"@,
    ) + "**: "@ + decimal(total_secs / 60) + " "@ + translation(lang, "mins_label"@) + " "@
        + decimal(total_secs % 60) + " "@ + translation(lang, "secs_label"@) + "\n"@ + kv_line(
        translation(lang, "audio_file_label"@),
        if has_audio {
            match s.audio_filename {
                Some(f) => f@,
                None => "audio.ogg"@,
            }
        } else {
            translation(lang, "no_audio_recorded"@)
        },
    ) + "\n---\n\n"@ + translation(lang, "player_timeline_title"@) + "\n\n"@ + if s.events@.len()
        == 0 {
        translation(lang, "no_player_events"@) + "\n"@
    } else {
        table_header(lang) + "| ------ | ------ | ------ | --------- | -------- |\n"@ + event_rows(
            lang,
            s.events@,
        )
    }
}

/// The name of a session's audio file: start day (`MMdd`), start time
/// (`HH-mm`), sanitized world name and duration text.
pub open spec fn audio_name(
    start_md: Seq<char>,
    start_hm: Seq<char>,
    world_name: Seq<char>,
    duration: Seq<char>,
) -> Seq<char> {
    start_md + "_"@ + start_hm + "_"@ + sanitized(world_name) + "_"@ + duration + ".ogg"@
}

/// One room visit: where it was, when it started, the player events seen,
/// and the audio file once recording has stopped.
#[derive(Debug)]
pub struct RecordingSession {
    pub world_name: String,
    pub instance_id: String,
    pub start_time: String,
    pub audio_filename: Option<String>,
    pub events: Vec<PlayerEvent>,
    pub pid: Option<u32>,
}

impl RecordingSession {
    /// A session in `world_name`/`instance_id` started at `start_time`
    /// (`%Y-%m-%d %H:%M:%S`), recording process `pid`, with no events yet.
    pub fn start(world_name: &str, instance_id: &str, start_time: &str, pid: u32) -> (r: Self)
        ensures
            r.world_name@ == world_name@,
            r.instance_id@ == instance_id@,
            r.start_time@ == start_time@,
            r.audio_filename is None,
            r.events@.len() == 0,
            r.pid == Some(pid),
    {
        RecordingSession {
            world_name: world_name.to_owned(),
            instance_id: instance_id.to_owned(),
            start_time: start_time.to_owned(),
            audio_filename: None,
            events: Vec::new(),
            pid: Some(pid),
        }
    }

    /// The timeline written when the session starts.
    pub fn initial_timeline(&self, lang: Language) -> (r: String)
        ensures
            r@ == initial_timeline(lang, self.world_name@, self.instance_id@, self.start_time@),
    {
        let mut out: Vec<char> = Vec::new();
        append_str(&mut out, "\n");
        append_str(&mut out, t1(lang, "timeline_title", self.world_name.as_str()).as_str());
        append_str(&mut out, "\n\n");
        push_kv(&mut out, t0(lang, "world_name_label").as_str(), self.world_name.as_str());
        push_kv(&mut out, t0(lang, "instance_id_label").as_str(), self.instance_id.as_str());
        push_kv(&mut out, t0(lang, "recording_start_label").as_str(), self.start_time.as_str());
        append_str(&mut out, "- **");
        append_str(&mut out, t0(lang, "recording_status_active").as_str());
        append_str(&mut out, "**\n");
        append_str(&mut out, "\n---\n\n");
        append_str(&mut out, t0(lang, "player_timeline_title").as_str());
        append_str(&mut out, "\n\n");
        push_table_header(&mut out, lang);
        append_str(&mut out, "| :--- | :--- | :--- | :--- | :--- |\n");
        string_from(out.as_slice())
    }

    /// Adds a player event seen at clock time `time`, `offset_secs` seconds into
    /// the session; returns its table row, to be appended to the timeline file.
    pub fn add_player_event(
        &mut self,
        lang: Language,
        event_type: PlayerEventType,
        display_name: &str,
        user_id: Option<&str>,
        time: &str,
        offset_secs: u64,
    ) -> (row: String)
        ensures
            final(self).events@.len() == old(self).events@.len() + 1,
            final(self).events@.drop_last() == old(self).events@,
            final(self).events@.last().event_type == event_type,
            final(self).events@.last().display_name@ == display_name@,
            final(self).events@.last().time@ == time@,
            final(self).events@.last().offset_secs == offset_secs,
            (match (final(self).events@.last().user_id, user_id) {
                (Some(a), Some(b)) => a@ == b@,
                (None, None) => true,
                _ => false,
            }),
            row@ == event_row(lang, final(self).events@.last()),
            final(self).world_name == old(self).world_name,
            final(self).instance_id == old(self).instance_id,
            final(self).start_time == old(self).start_time,
            final(self).audio_filename == old(self).audio_filename,
            final(self).pid == old(self).pid,
    {
        let event = PlayerEvent {
            time: time.to_owned(),
            offset_secs,
            event_type,
            display_name: display_name.to_owned(),
            user_id: match user_id {
                Some(u) => Some(u.to_owned()),
                None => None,
            },
        };
        let row = event_row_chars(lang, &event);
        self.events.push(event);
        string_from(row.as_slice())
    }

    /// Whether the recorded process still runs (a session without a process is not alive).
    pub fn is_alive(&self) -> (r: bool)
        ensures
            self.pid is None ==> !r,
    {
        match self.pid {
            Some(pid) => is_process_running(pid),
            None => false,
        }
    }

    /// The folder name once the session ends: the current name, a space and the
    /// duration text.
    pub fn finished_folder_name(lang: Language, current_name: &str, total_secs: u64) -> (r: String)
        ensures
            r@ == current_name@ + " "@ + duration_text(lang, total_secs as nat),
    {
        let mut v = chars_of(current_name);
        append_str(&mut v, " ");
        append_str(&mut v, format_duration(lang, total_secs).as_str());
        string_from(v.as_slice())
    }

    /// The detailed name of the audio file once the session ends.
    pub fn audio_file_name(&self, lang: Language, start_md: &str, start_hm: &str, total_secs: u64) -> (r: String)
        ensures
            r@ == audio_name(start_md@, start_hm@, self.world_name@, duration_text(lang, total_secs as nat)),
    {
        let mut v = chars_of(start_md);
        append_str(&mut v, "_");
        append_str(&mut v, start_hm);
        append_str(&mut v, "_");
        append_str(&mut v, sanitize_filename(self.world_name.as_str()).as_str());
        append_str(&mut v, "_");
        append_str(&mut v, format_duration(lang, total_secs).as_str());
        append_str(&mut v, ".ogg");
        string_from(v.as_slice())
    }

    /// Records the audio file's name once the audio has been saved.
    pub fn set_audio_filename(&mut self, name: Option<String>)
        ensures
            final(self).audio_filename == name,
            final(self).world_name == old(self).world_name,
            final(self).instance_id == old(self).instance_id,
            final(self).start_time == old(self).start_time,
            final(self).events == old(self).events,
            final(self).pid == old(self).pid,
    {
        self.audio_filename = name;
    }

    /// The complete timeline: header with end time, duration and audio file,
    /// then every player event in the order it was added.
    pub fn generate_timeline_md(&self, lang: Language, end_time: &str, total_secs: u64, has_audio: bool) -> (r: String)
        ensures
            r@ == final_timeline(lang, *self, end_time@, total_secs as nat, has_audio),
    {
        let mut out: Vec<char> = Vec::new();
        append_str(&mut out, t1(lang, "timeline_title", self.world_name.as_str()).as_str());
        append_str(&mut out, "\n\n");
        push_kv(&mut out, t0(lang, "world_name_label").as_str(), self.world_name.as_str());
        push_kv(&mut out, t0(lang, "instance_id_label").as_str(), self.instance_id.as_str());
        push_kv(&mut out, t0(lang, "recording_start_label").as_str(), self.start_time.as_str());
        push_kv(&mut out, t0(lang, "recording_end_label").as_str(), end_time);
        append_str(&mut out, "- **");
        append_str(&mut out, t0(lang, "recording_duration_label").as_str());
        append_str(&mut out, "**: ");
        append_str(&mut out, u64_text(total_secs / 60).as_str());
        append_str(&mut out, " ");
        append_str(&mut out, t0(lang, "mins_label").as_str());
        append_str(&mut out, " ");
        append_str(&mut out, u64_text(total_secs % 60).as_str());
        append_str(&mut out, " ");
        append_str(&mut out, t0(lang, "secs_label").as_str());
        append_str(&mut out, "\n");
        if has_audio {
            match &self.audio_filename {
                Some(f) => push_kv(&mut out, t0(lang, "audio_file_label").as_str(), f.as_str()),
                None => push_kv(&mut out, t0(lang, "audio_file_label").as_str(), "audio.ogg"),
            }
        } else {
            let none = t0(lang, "no_audio_recorded");
            push_kv(&mut out, t0(lang, "audio_file_label").as_str(), none.as_str());
        }
        append_str(&mut out, "\n---\n\n");
        append_str(&mut out, t0(lang, "player_timeline_title").as_str());
        append_str(&mut out, "\n\n");
        let ghost head = out@;
        if self.events.len() == 0 {
            append_str(&mut out, t0(lang, "no_player_events").as_str());
            append_str(&mut out, "\n");
            assert(out@ == head + (translation(lang, "no_player_events"@) + "\n"@));
        } else {
            let mut body: Vec<char> = Vec::new();
            push_table_header(&mut body, lang);
            append_str(&mut body, "| ------ | ------ | ------ | --------- | -------- |\n");
            let ghost top = body@;
            let mut i: usize = 0;
            while i < self.events.len()
                invariant
                    i <= self.events@.len(),
                    body@ == top + event_rows(lang, self.events@.take(i as int)),
                decreases self.events@.len() - i,
            {
                push_event_row(&mut body, lang, &self.events[i]);
                i = i + 1;
                assert(self.events@.take(i as int).drop_last() == self.events@.take(i - 1));
            }
            assert(self.events@.take(self.events@.len() as int) == self.events@);
            append_chars(&mut out, body.as_slice());
        }
        string_from(out.as_slice())
    }
}

} // verus!
