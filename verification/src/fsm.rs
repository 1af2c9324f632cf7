//! The application's state machine: log events move it between idle, in a
//! world, and recording; each step says what the application must do.
use vstd::prelude::*;

use crate::i18n::{t0, translation, Language};
use crate::recorder::find_vrchat_pid;
use crate::session::{event_row, PlayerEventType, RecordingSession};
use crate::text::{chars_of, find, find_chars, lemma_find_from_found, slice_chars, string_from, suffix_from};
use crate::stamps::{elapsed, elapsed_since, StampMap};
use crate::watcher::{opt_view, LogEvent};

verus! {

/// Where the application stands.
#[derive(Debug)]
pub enum AppState {
    /// Not in any world.
    Idle,
    /// In a world whose name is known, not recording.
    InWorld { world_name: String },
    /// Recording a room visit.
    Recording { world_name: String, instance_id: String, session: RecordingSession },
}

/// What the application must do after a step.
#[derive(Debug)]
pub enum FsmAction {
    /// Stop the session's audio, rename its folder and write its final timeline.
    FinishSession { session: RecordingSession, reason: String },
    /// Try to start recording process `pid` in this world and instance; on
    /// success report back with `AppFsm::start_recording`.
    StartRecording { world_name: String, instance_id: String, pid: u32 },
    /// Append this row to the current session's timeline file.
    AppendTimelineRow { row: String },
    /// Record (or update) a user in the database.
    RegisterUser { user_id: String, display_name: String },
    /// Record that a user's visit started.
    StartVisit { user_id: String, world_name: String, instance_id: String, joined_at: String },
    /// Record that a user's visit ended.
    EndVisit { user_id: String, left_at: String },
}

/// The mathematical value of an action.
pub enum ActionModel {
    FinishSession { session: RecordingSession, reason: Seq<char> },
    StartRecording { world_name: Seq<char>, instance_id: Seq<char>, pid: u32 },
    AppendTimelineRow { row: Seq<char> },
    RegisterUser { user_id: Seq<char>, display_name: Seq<char> },
    StartVisit {
        user_id: Seq<char>,
        world_name: Seq<char>,
        instance_id: Seq<char>,
        joined_at: Seq<char>,
    },
    EndVisit { user_id: Seq<char>, left_at: Seq<char> },
}

impl View for FsmAction {
    type V = ActionModel;

    open spec fn view(&self) -> ActionModel {
        match self {
            FsmAction::FinishSession { session, reason } => ActionModel::FinishSession {
                session: *session,
                reason: reason@,
            },
            FsmAction::StartRecording { world_name, instance_id, pid } => ActionModel::StartRecording {
                world_name: world_name@,
                instance_id: instance_id@,
                pid: *pid,
            },
            FsmAction::AppendTimelineRow { row } => ActionModel::AppendTimelineRow { row: row@ },
            FsmAction::RegisterUser { user_id, display_name } => ActionModel::RegisterUser {
                user_id: user_id@,
                display_name: display_name@,
            },
            FsmAction::StartVisit { user_id, world_name, instance_id, joined_at } =>
                ActionModel::StartVisit {
                user_id: user_id@,
                world_name: world_name@,
                instance_id: instance_id@,
                joined_at: joined_at@,
            },
            FsmAction::EndVisit { user_id, left_at } => ActionModel::EndVisit {
                user_id: user_id@,
                left_at: left_at@,
            },
        }
    }
}

/// The views of a list of actions.
pub open spec fn action_views(v: Seq<FsmAction>) -> Seq<ActionModel> {
    v.map_values(|a: FsmAction| a@)
}

/// A recording state names the world and instance its session records.
pub open spec fn consistent(s: AppState) -> bool {
    match s {
        AppState::Recording { world_name, instance_id, session } => session.world_name@
            == world_name@ && session.instance_id@ == instance_id@,
        _ => true,
    }
}

/// The world and instance to record in the database for the current state.
pub open spec fn world_instance(lang: Language, s: AppState) -> (Seq<char>, Seq<char>) {
    match s {
        AppState::Idle => (
            translation(lang, "unknown_world"@),
            translation(lang, "unknown_instance"@),
        ),
        AppState::InWorld { world_name } => (world_name@, translation(lang, "unknown_instance"@)),
        AppState::Recording { world_name, instance_id, .. } => (world_name@, instance_id@),
    }
}

/// The instance id of a location `wrld_...:instance[:...]`: its second
/// `':'`-separated part, empty when there is none.
pub open spec fn instance_of(location: Seq<char>) -> Seq<char> {
    match find(location, seq![':']) {
        None => seq![],
        Some(k) => {
            let rest = location.subrange(k + 1, location.len() as int);
            match find(rest, seq![':']) {
                Some(j) => rest.subrange(0, j),
                None => rest,
            }
        },
    }
}

/// Two sessions agree on everything but possibly their world name.
pub open spec fn same_but_world(a: RecordingSession, b: RecordingSession) -> bool {
    a.instance_id == b.instance_id && a.start_time == b.start_time && a.audio_filename
        == b.audio_filename && a.events == b.events && a.pid == b.pid
}

/// The state after entering the room of world `world`.
pub open spec fn location_post(old: AppState, new: AppState, world: Seq<char>) -> bool {
    match old {
        AppState::Recording { instance_id, session, .. } => new matches AppState::Recording {
            world_name: w2,
            instance_id: i2,
            session: s2,
        } && w2@ == world && i2 == instance_id && s2.world_name@ == world && same_but_world(
            s2,
            session,
        ),
        _ => new matches AppState::InWorld { world_name: w2 } && w2@ == world,
    }
}

/// The actions that record a player's arrival in the database.
pub open spec fn visit_start_actions(
    user_id: Option<Seq<char>>,
    display_name: Seq<char>,
    joined_at: Seq<char>,
    wi: (Seq<char>, Seq<char>),
) -> Seq<ActionModel> {
    match user_id {
        Some(u) => seq![
            ActionModel::RegisterUser { user_id: u, display_name },
            ActionModel::StartVisit { user_id: u, world_name: wi.0, instance_id: wi.1, joined_at },
        ],
        None => seq![],
    }
}

/// The actions that record a player's departure in the database.
pub open spec fn visit_end_actions(user_id: Option<Seq<char>>, left_at: Seq<char>) -> Seq<ActionModel> {
    match user_id {
        Some(u) => seq![ActionModel::EndVisit { user_id: u, left_at }],
        None => seq![],
    }
}

/// The state and actions after a player event: a recording session gains the
/// event (and its row is to be appended); any other state is unchanged.
pub open spec fn player_post(
    lang: Language,
    old: AppState,
    new: AppState,
    row_acts: Seq<ActionModel>,
    kind: PlayerEventType,
    display_name: Seq<char>,
    user_id: Option<Seq<char>>,
    clock: Seq<char>,
    offset_secs: u64,
) -> bool {
    match old {
        AppState::Recording { world_name, instance_id, session } => new matches AppState::Recording {
            world_name: w2,
            instance_id: i2,
            session: s2,
        } && w2 == world_name && i2 == instance_id && s2.world_name == session.world_name
            && s2.instance_id == session.instance_id && s2.start_time == session.start_time
            && s2.audio_filename == session.audio_filename && s2.pid == session.pid
            && s2.events@.drop_last() == session.events@ && s2.events@.len() == session.events@.len()
            + 1 && {
            let e = s2.events@.last();
            &&& e.event_type == kind
            &&& e.display_name@ == display_name
            &&& opt_view(e.user_id) == user_id
            &&& e.time@ == clock
            &&& e.offset_secs == offset_secs
            &&& row_acts == seq![ActionModel::AppendTimelineRow { row: event_row(lang, e) }]
        },
        _ => new == old && row_acts == Seq::<ActionModel>::empty(),
    }
}

/// The state and actions after joining the instance at `location`: a
/// recording session ends (the room changed), the world stays known (the
/// unknown world when idle), and when VRChat runs as `pid` recording is to
/// start there.
pub open spec fn location_instance_post(
    lang: Language,
    old: AppState,
    new: AppState,
    acts: Seq<ActionModel>,
    location: Seq<char>,
    pid: Option<u32>,
) -> bool {
    let world = match old {
        AppState::InWorld { world_name } => world_name@,
        AppState::Recording { world_name, .. } => world_name@,
        AppState::Idle => translation(lang, "unknown_world"@),
    };
    let inst = if instance_of(location).len() == 0 {
        translation(lang, "unknown_instance"@)
    } else {
        instance_of(location)
    };
    let finish = match old {
        AppState::Recording { session, .. } => seq![
            ActionModel::FinishSession { session, reason: "切换房间"@ },
        ],
        _ => Seq::<ActionModel>::empty(),
    };
    let start = match pid {
        Some(p) => seq![ActionModel::StartRecording { world_name: world, instance_id: inst, pid: p }],
        None => Seq::<ActionModel>::empty(),
    };
    &&& new matches AppState::InWorld { world_name } && world_name@ == world
    &&& acts == finish + start
}

/// The state and actions after a log event; `pid` is the VRChat process found
/// when the event joins an instance, `clock` and `offset_secs` the time of a
/// player event.
pub open spec fn event_post(
    lang: Language,
    old: AppState,
    new: AppState,
    acts: Seq<ActionModel>,
    event: LogEvent,
    pid: Option<u32>,
    clock: Seq<char>,
    offset_secs: u64,
) -> bool {
    match event {
        LogEvent::Location { world_name, .. } => location_post(old, new, world_name@) && acts.len()
            == 0,
        LogEvent::VoiceReady { .. } => new == old && acts.len() == 0,
        LogEvent::LocationInstance { location, .. } => location_instance_post(
            lang,
            old,
            new,
            acts,
            location@,
            pid,
        ),
        LogEvent::PlayerJoined { display_name, user_id, timestamp } => exists|
            row_acts: Seq<ActionModel>,
        |
            player_post(
                lang,
                old,
                new,
                row_acts,
                PlayerEventType::Joined,
                display_name@,
                opt_view(user_id),
                clock,
                offset_secs,
            ) && acts == row_acts + visit_start_actions(
                opt_view(user_id),
                display_name@,
                timestamp@,
                world_instance(lang, new),
            ),
        LogEvent::PlayerLeft { display_name, user_id, timestamp } => exists|
            row_acts: Seq<ActionModel>,
        |
            player_post(
                lang,
                old,
                new,
                row_acts,
                PlayerEventType::Left,
                display_name@,
                opt_view(user_id),
                clock,
                offset_secs,
            ) && acts == row_acts + visit_end_actions(opt_view(user_id), timestamp@),
    }
}

/// The application's state machine.
#[derive(Debug)]
pub struct AppFsm {
    pub state: AppState,
    pub lang: Language,
}

/// The world name that a state records in the database.
fn state_world(lang: Language, s: &AppState) -> (r: String)
    ensures
        r@ == world_instance(lang, *s).0,
{
    match s {
        AppState::Idle => t0(lang, "unknown_world"),
        AppState::InWorld { world_name } => world_name.clone(),
        AppState::Recording { world_name, .. } => world_name.clone(),
    }
}

impl AppFsm {
    /// The state machine consistency: a recording state names its session's
    /// world and instance.
    pub open spec fn wf(&self) -> bool {
        consistent(self.state)
    }

    /// A new state machine, idle.
    pub fn new(lang: Language) -> (r: AppFsm)
        ensures
            r.state is Idle,
            r.lang == lang,
            r.wf(),
    {
        AppFsm { state: AppState::Idle, lang }
    }

    /// The world and instance of the current state, for database records.
    pub fn current_world_instance(&self) -> (r: (String, String))
        ensures
            (r.0@, r.1@) == world_instance(self.lang, self.state),
    {
        match &self.state {
            AppState::Idle => (t0(self.lang, "unknown_world"), t0(self.lang, "unknown_instance")),
            AppState::InWorld { world_name } => (world_name.clone(), t0(self.lang, "unknown_instance")),
            AppState::Recording { world_name, instance_id, .. } => (
                world_name.clone(),
                instance_id.clone(),
            ),
        }
    }

    /// Ends the current session, if any: the state becomes idle and a recording
    /// session is handed out to be finished, with `reason`.
    fn finish_current_session(&mut self, reason: &str) -> (acts: Vec<FsmAction>)
        ensures
            final(self).state is Idle,
            final(self).lang == old(self).lang,
            match old(self).state {
                AppState::Recording { session, .. } => action_views(acts@) == seq![
                    ActionModel::FinishSession { session, reason: reason@ },
                ],
                _ => acts@.len() == 0,
            },
    {
        let mut old_state = AppState::Idle;
        std::mem::swap(&mut old_state, &mut self.state);
        let mut acts: Vec<FsmAction> = Vec::new();
        match old_state {
            AppState::Recording { session, .. } => {
                acts.push(FsmAction::FinishSession { session, reason: reason.to_owned() });
                assert(action_views(acts@) =~= seq![acts@[0]@]);
            },
            _ => {},
        }
        acts
    }

    /// `Entering Room:` — remembers the world's name; a recording session takes
    /// the new name too.
    pub fn on_location(&mut self, world_name: String)
        requires
            old(self).wf(),
        ensures
            final(self).wf(),
            final(self).lang == old(self).lang,
            location_post(old(self).state, final(self).state, world_name@),
    {
        let mut old_state = AppState::Idle;
        std::mem::swap(&mut old_state, &mut self.state);
        match old_state {
            AppState::Recording { instance_id, session, .. } => {
                let mut session = session;
                session.world_name = world_name.clone();
                self.state = AppState::Recording { world_name, instance_id, session };
            },
            _ => {
                self.state = AppState::InWorld { world_name };
            },
        }
    }

    /// `Joining wrld_` — a recording session ends (the room changed); the
    /// world stays known, and when VRChat runs as `pid` recording is to start.
    pub fn on_location_instance(&mut self, location: &str, pid: Option<u32>) -> (acts: Vec<FsmAction>)
        requires
            old(self).wf(),
        ensures
            final(self).wf(),
            final(self).lang == old(self).lang,
            location_instance_post(
                old(self).lang,
                old(self).state,
                final(self).state,
                action_views(acts@),
                location@,
                pid,
            ),
    {
        let world = state_world(self.lang, &self.state);
        let recording = match &self.state {
            AppState::Recording { .. } => true,
            _ => false,
        };
        let mut acts = if recording {
            self.finish_current_session("切换房间")
        } else {
            Vec::new()
        };
        let ghost finish = action_views(acts@);
        let instance_id = instance_part(location);
        let inst = if instance_id.as_str().is_empty() {
            t0(self.lang, "unknown_instance")
        } else {
            instance_id
        };
        match pid {
            Some(p) => {
                acts.push(FsmAction::StartRecording { world_name: world.clone(), instance_id: inst, pid: p });
                assert(action_views(acts@) =~= finish + seq![acts@.last()@]);
            },
            None => {
                assert(action_views(acts@) =~= finish + Seq::<ActionModel>::empty());
            },
        }
        self.state = AppState::InWorld { world_name: world };
        acts
    }

    /// Recording started as asked: the state records the session, begun at
    /// `start_time`, for process `pid`, in the remembered world.
    pub fn start_recording(&mut self, instance_id: &str, start_time: &str, pid: u32)
        requires
            old(self).wf(),
            old(self).state is InWorld,
        ensures
            final(self).wf(),
            final(self).lang == old(self).lang,
            final(self).state matches AppState::Recording { world_name, instance_id: i, session }
                && world_name == old(self).state->InWorld_world_name && i@ == instance_id@
                && session.start_time@ == start_time@ && session.events@.len() == 0
                && session.pid == Some(pid) && session.audio_filename is None,
    {
        let mut old_state = AppState::Idle;
        std::mem::swap(&mut old_state, &mut self.state);
        match old_state {
            AppState::InWorld { world_name } => {
                let session = RecordingSession::start(world_name.as_str(), instance_id, start_time, pid);
                self.state = AppState::Recording {
                    world_name,
                    instance_id: instance_id.to_owned(),
                    session,
                };
            },
            _ => {},
        }
    }

    /// A player joined: the timeline of a recording session gains the event,
    /// and a player with a user id is recorded with a visit starting.
    pub fn on_player_joined(
        &mut self,
        display_name: String,
        user_id: Option<String>,
        timestamp: String,
        clock: &str,
        offset_secs: u64,
    ) -> (acts: Vec<FsmAction>)
        requires
            old(self).wf(),
        ensures
            final(self).wf(),
            final(self).lang == old(self).lang,
            exists|row_acts: Seq<ActionModel>|
                player_post(
                    old(self).lang,
                    old(self).state,
                    final(self).state,
                    row_acts,
                    PlayerEventType::Joined,
                    display_name@,
                    opt_view(user_id),
                    clock@,
                    offset_secs,
                ) && action_views(acts@) == row_acts + visit_start_actions(
                    opt_view(user_id),
                    display_name@,
                    timestamp@,
                    world_instance(old(self).lang, final(self).state),
                ),
    {
        let mut acts = self.record_player_event(PlayerEventType::Joined, &display_name, &user_id, clock, offset_secs);
        let ghost row_acts = action_views(acts@);
        match user_id {
            Some(uid) => {
                let (wn, inst) = self.current_world_instance();
                acts.push(FsmAction::RegisterUser { user_id: uid.clone(), display_name });
                acts.push(FsmAction::StartVisit { user_id: uid, world_name: wn, instance_id: inst, joined_at: timestamp });
                assert(action_views(acts@) =~= row_acts + seq![acts@[acts@.len() - 2]@, acts@.last()@]);
            },
            None => {
                assert(action_views(acts@) =~= row_acts);
            },
        }
        assert(player_post(
            self.lang,
            old(self).state,
            self.state,
            row_acts,
            PlayerEventType::Joined,
            display_name@,
            opt_view(user_id),
            clock@,
            offset_secs,
        ) && action_views(acts@) == row_acts + visit_start_actions(
                    opt_view(user_id),
                    display_name@,
                    timestamp@,
                    world_instance(old(self).lang, self.state),
                ));
        acts
    }

    /// A player left: the timeline of a recording session gains the event, and
    /// a player with a user id has its visit ended.
    pub fn on_player_left(
        &mut self,
        display_name: String,
        user_id: Option<String>,
        timestamp: String,
        clock: &str,
        offset_secs: u64,
    ) -> (acts: Vec<FsmAction>)
        requires
            old(self).wf(),
        ensures
            final(self).wf(),
            final(self).lang == old(self).lang,
            exists|row_acts: Seq<ActionModel>|
                player_post(
                    old(self).lang,
                    old(self).state,
                    final(self).state,
                    row_acts,
                    PlayerEventType::Left,
                    display_name@,
                    opt_view(user_id),
                    clock@,
                    offset_secs,
                ) && action_views(acts@) == row_acts + visit_end_actions(
                    opt_view(user_id),
                    timestamp@,
                ),
    {
        let mut acts = self.record_player_event(PlayerEventType::Left, &display_name, &user_id, clock, offset_secs);
        let ghost row_acts = action_views(acts@);
        match user_id {
            Some(uid) => {
                acts.push(FsmAction::EndVisit { user_id: uid, left_at: timestamp });
                assert(action_views(acts@) =~= row_acts + seq![acts@.last()@]);
            },
            None => {
                assert(action_views(acts@) =~= row_acts);
            },
        }
        assert(player_post(
            self.lang,
            old(self).state,
            self.state,
            row_acts,
            PlayerEventType::Left,
            display_name@,
            opt_view(user_id),
            clock@,
            offset_secs,
        ) && action_views(acts@) == row_acts + visit_end_actions(opt_view(user_id), timestamp@));
        acts
    }

    fn record_player_event(
        &mut self,
        kind: PlayerEventType,
        display_name: &String,
        user_id: &Option<String>,
        clock: &str,
        offset_secs: u64,
    ) -> (acts: Vec<FsmAction>)
        requires
            old(self).wf(),
        ensures
            final(self).wf(),
            final(self).lang == old(self).lang,
            player_post(
                old(self).lang,
                old(self).state,
                final(self).state,
                action_views(acts@),
                kind,
                display_name@,
                opt_view(*user_id),
                clock@,
                offset_secs,
            ),
    {
        let lang = self.lang;
        let mut acts: Vec<FsmAction> = Vec::new();
        let mut old_state = AppState::Idle;
        std::mem::swap(&mut old_state, &mut self.state);
        match old_state {
            AppState::Recording { world_name, instance_id, session } => {
                let mut session = session;
                let uid: Option<&str> = match user_id {
                    Some(u) => Some(u.as_str()),
                    None => None,
                };
                let row = session.add_player_event(lang, kind, display_name.as_str(), uid, clock, offset_secs);
                acts.push(FsmAction::AppendTimelineRow { row });
                assert(action_views(acts@) =~= seq![acts@[0]@]);
                self.state = AppState::Recording { world_name, instance_id, session };
            },
            other => {
                self.state = other;
                assert(action_views(acts@) =~= Seq::<ActionModel>::empty());
            },
        }
        acts
    }

    /// The process check: a recording session whose process is no longer
    /// alive ends (VRChat exited).
    pub fn process_checked(&mut self, alive: bool) -> (acts: Vec<FsmAction>)
        requires
            old(self).wf(),
        ensures
            final(self).wf(),
            final(self).lang == old(self).lang,
            (old(self).state is Recording && !alive) ==> final(self).state is Idle && action_views(acts@)
                == seq![
                ActionModel::FinishSession { session: old(self).state->session, reason: "VRChat 退出"@ },
            ],
            !(old(self).state is Recording && !alive) ==> final(self).state == old(self).state
                && acts@.len() == 0,
    {
        let recording = match &self.state {
            AppState::Recording { .. } => true,
            _ => false,
        };
        if recording && !alive {
            self.finish_current_session("VRChat 退出")
        } else {
            Vec::new()
        }
    }

    /// Checks whether VRChat has exited; if so a recording session ends.
    pub fn check_process_alive(&mut self) -> (acts: Vec<FsmAction>)
        requires
            old(self).wf(),
        ensures
            final(self).wf(),
            final(self).lang == old(self).lang,
            !(old(self).state is Recording) ==> final(self).state == old(self).state && acts@.len() == 0,
            old(self).state is Recording ==> (final(self).state is Idle && action_views(acts@) == seq![
                ActionModel::FinishSession { session: old(self).state->session, reason: "VRChat 退出"@ },
            ]) || (final(self).state == old(self).state && acts@.len() == 0),
            (old(self).state is Recording && old(self).state->session.pid is None) ==> final(self).state is Idle && action_views(acts@) == seq![
                ActionModel::FinishSession { session: old(self).state->session, reason: "VRChat 退出"@ },
            ],
    {
        let alive = match &self.state {
            AppState::Recording { session, .. } => session.is_alive(),
            _ => true,
        };
        self.process_checked(alive)
    }

    /// On exit: a recording session ends.
    pub fn shutdown(&mut self) -> (acts: Vec<FsmAction>)
        requires
            old(self).wf(),
        ensures
            final(self).wf(),
            final(self).lang == old(self).lang,
            old(self).state is Recording ==> final(self).state is Idle && action_views(acts@) == seq![
                ActionModel::FinishSession { session: old(self).state->session, reason: "程序退出"@ },
            ],
            !(old(self).state is Recording) ==> final(self).state == old(self).state && acts@.len()
                == 0,
    {
        let recording = match &self.state {
            AppState::Recording { .. } => true,
            _ => false,
        };
        if recording {
            self.finish_current_session("程序退出")
        } else {
            Vec::new()
        }
    }

    /// Applies a log event; `pid` is the VRChat process found when the event
    /// joins an instance, `clock` and `offset_secs` the time of a player event.
    pub fn apply_event(&mut self, event: LogEvent, pid: Option<u32>, clock: &str, offset_secs: u64) -> (acts: Vec<FsmAction>)
        requires
            old(self).wf(),
        ensures
            final(self).wf(),
            final(self).lang == old(self).lang,
            event_post(
                old(self).lang,
                old(self).state,
                final(self).state,
                action_views(acts@),
                event,
                pid,
                clock@,
                offset_secs,
            ),
    {
        match event {
            LogEvent::Location { world_name, .. } => {
                self.on_location(world_name);
                Vec::new()
            },
            LogEvent::LocationInstance { location, .. } => self.on_location_instance(location.as_str(), pid),
            LogEvent::VoiceReady { .. } => Vec::new(),
            LogEvent::PlayerJoined { display_name, user_id, timestamp } => self.on_player_joined(
                display_name,
                user_id,
                timestamp,
                clock,
                offset_secs,
            ),
            LogEvent::PlayerLeft { display_name, user_id, timestamp } => self.on_player_left(
                display_name,
                user_id,
                timestamp,
                clock,
                offset_secs,
            ),
        }
    }

    /// Handles a log event: joining an instance looks for VRChat's process
    /// first; otherwise as `apply_event`.
    pub fn handle_event(&mut self, event: LogEvent, clock: &str, offset_secs: u64) -> (acts: Vec<FsmAction>)
        requires
            old(self).wf(),
        ensures
            final(self).wf(),
            final(self).lang == old(self).lang,
            exists|pid: Option<u32>|
                (pid is Some ==> event is LocationInstance) && event_post(
                    old(self).lang,
                    old(self).state,
                    final(self).state,
                    action_views(acts@),
                    event,
                    pid,
                    clock@,
                    offset_secs,
                ),
    {
        let pid = match &event {
            LogEvent::LocationInstance { .. } => find_vrchat_pid(),
            _ => None,
        };
        self.apply_event(event, pid, clock, offset_secs)
    }
}

/// The instance id in a location string (see `instance_of`).
pub fn instance_part(location: &str) -> (r: String)
    ensures
        r@ == instance_of(location@),
{
    let l = chars_of(location);
    let mut colon: Vec<char> = Vec::new();
    colon.push(':');
    assert(colon@ =~= seq![':']);
    match find_chars(l.as_slice(), colon.as_slice()) {
        None => String::new(),
        Some(k) => {
            proof {
                lemma_find_from_found(l@, seq![':'], 0);
                assert(find(l@, seq![':']) == Some(k as int));
                assert(k + 1 <= l@.len());
            }
            assert(l@.len() == l.len());
            let rest = suffix_from(l.as_slice(), k + 1);
            match find_chars(rest.as_slice(), colon.as_slice()) {
                Some(j) => {
                    proof {
                        lemma_find_from_found(rest@, seq![':'], 0);
                    }
                    let p = slice_chars(rest.as_slice(), 0, j);
                    string_from(p.as_slice())
                },
                None => string_from(rest.as_slice()),
            }
        },
    }
}

/// How long a user whose profile fetch failed is left alone: a minute.
pub const PACING_COOLDOWN_NANOS: u64 = 60_000_000_000;

/// A user whose profile fetch failed at most a minute before `now`.
pub open spec fn cooling_down(cooldown: Map<Seq<char>, u64>, user_id: Seq<char>, now: u64) -> bool {
    cooldown.contains_key(user_id) && elapsed(now, cooldown[user_id]) <= PACING_COOLDOWN_NANOS
}

/// The next player whose profile the pacing loop fetches: the first of the
/// players without a profile (user id, display name) that is not cooling
/// down after a failed fetch.
pub fn pick_bio_candidate(missing: &[(String, String)], cooldown: &StampMap, now: u64) -> (r: Option<usize>)
    requires
        cooldown.wf(),
    ensures
        match r {
            Some(i) => i < missing@.len() && !cooling_down(cooldown@, missing@[i as int].0@, now)
                && forall|j: int|
                0 <= j < i ==> cooling_down(cooldown@, (#[trigger] missing@[j]).0@, now),
            None => forall|j: int|
                0 <= j < missing@.len() ==> cooling_down(cooldown@, (#[trigger] missing@[j]).0@, now),
        },
{
    let mut i: usize = 0;
    while i < missing.len()
        invariant
            cooldown.wf(),
            i <= missing@.len(),
            forall|j: int| 0 <= j < i ==> cooling_down(cooldown@, (#[trigger] missing@[j]).0@, now),
        decreases missing@.len() - i,
    {
        let ready = match cooldown.get(missing[i].0.as_str()) {
            Some(t) => elapsed_since(now, t) > PACING_COOLDOWN_NANOS,
            None => true,
        };
        if ready {
            return Some(i);
        }
        i = i + 1;
    }
    None
}

} // verus!
