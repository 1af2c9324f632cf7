//! The message catalogue: for each language, the text of each message key.
use vstd::prelude::*;

use crate::i18n::Language;
use crate::text::chars_of;

verus! {

/// `key` spells exactly the string slice `lit`.
pub fn eq_lit(key: &[char], lit: &str) -> (r: bool)
    ensures
        r == (key@ == lit@),
{
    let l = chars_of(lit);
    if key.len() != l.len() {
        return false;
    }
    let mut i: usize = 0;
    while i < key.len()
        invariant
            i <= key@.len() == l@.len(),
            l@ == lit@,
            forall|j: int| 0 <= j < i ==> key@[j] == l@[j],
        decreases key@.len() - i,
    {
        if key[i] != l[i] {
            assert(key@[i as int] != l@[i as int]);
            return false;
        }
        i = i + 1;
    }
    assert(key@ == l@);
    true
}

/// The view of an optional message text.
pub open spec fn text_view(t: Option<&'static str>) -> Option<Seq<char>> {
    match t {
        Some(s) => Some(s@),
        None => None,
    }
}

/// The catalogue entry of `key` for `lang`, if that language has one.
pub open spec fn catalogue(lang: Language, key: Seq<char>) -> Option<Seq<char>> {
    match lang {
        Language::En => en_text(key),
        Language::Zh => zh_text(key),
        Language::Ja => ja_text(key),
        Language::Ko => ko_text(key),
    }
}

/// Looks `key` up in the catalogue of `lang`.
pub fn catalogue_lookup(lang: Language, key: &[char]) -> (r: Option<&'static str>)
    ensures
        text_view(r) == catalogue(lang, key@),
{
    match lang {
        Language::En => en_lookup(key),
        Language::Zh => zh_lookup(key),
        Language::Ja => ja_lookup(key),
        Language::Ko => ko_lookup(key),
    }
}

/// The En catalogue.
pub open spec fn en_text(key: Seq<char>) -> Option<Seq<char>> {
    if key == "db_initialized"@ {
        Some("Database initialized: {}"@)
    } else if key == "authenticating"@ {
        Some("Authenticating..."@)
    } else if key == "auth_success"@ {
        Some("Authentication success"@)
    } else if key == "tfa_required"@ {
        Some("[2FA] Two-factor authentication required (Method: {})"@)
    } else if key == "tfa_prompt"@ {
        Some("[2FA] Please enter the verification code (enter empty to skip): "@)
    } else if key == "tfa_skipped"@ {
        Some("Verification code not entered, skipping 2FA."@)
    } else if key == "tfa_verifying"@ {
        Some("[2FA] Verifying (type: {})..."@)
    } else if key == "tfa_success"@ {
        Some("2FA success! Authenticated."@)
    } else if key == "tfa_failed"@ {
        Some("[2FA] Verification failed: {}"@)
    } else if key == "tfa_retry"@ {
        Some("[2FA] Please try again."@)
    } else if key == "auth_failed"@ {
        Some("Authentication failed: {}"@)
    } else if key == "mic_device_env"@ {
        Some("Mic device (env var): \"{}\""@)
    } else if key == "mic_device_reg"@ {
        Some("Mic device (VRChat registry)"@)
    } else if key == "mic_device_default"@ {
        Some("Using system default mic device"@)
    } else if key == "mic_recording_status"@ {
        Some("Mic recording: {}"@)
    } else if key == "enabled"@ {
        Some("Enabled"@)
    } else if key == "disabled"@ {
        Some("Disabled"@)
    } else if key == "api_server_started"@ {
        Some("--- API server started: http://127.0.0.1:3001 ---"@)
    } else if key == "server_error"@ {
        Some("Server error: {}"@)
    } else if key == "watcher_started"@ {
        Some("VRChat monitor started, press Ctrl+C to stop"@)
    } else if key == "shutdown_saving_recording"@ {
        Some("Saving recording before exit..."@)
    } else if key == "exited"@ {
        Some("Exited"@)
    } else if key == "audio_ready"@ {
        Some("Audio ready: VRChat voice channel connected."@)
    } else if key == "vrchat_exited"@ {
        Some("VRChat process exited, finishing recording..."@)
    } else if key == "world"@ {
        Some("World: {}"@)
    } else if key == "instance"@ {
        Some("Instance: {}"@)
    } else if key == "unknown_world"@ {
        Some("Unknown World"@)
    } else if key == "unknown_instance"@ {
        Some("Unknown Instance"@)
    } else if key == "mic_start"@ {
        Some("🎤 Recording started (Joining, PID {}): {} ({})"@)
    } else if key == "mic_start_failed"@ {
        Some("Failed to start recording: {}"@)
    } else if key == "mic_capture_success"@ {
        Some("Microphone capture initialized successfully."@)
    } else if key == "mic_capture_failed"@ {
        Some("Microphone capture setup failed: {}. Recording VRChat audio only."@)
    } else if key == "mic_recording_disabled"@ {
        Some("Microphone recording disabled."@)
    } else if key == "with_mic"@ {
        Some(" (with mic)"@)
    } else if key == "vrchat_exited_stop"@ {
        Some("VRChat process ended, stopping recording"@)
    } else if key == "recording_stopped"@ {
        Some("Recording stopped. Duration: {:.1}s"@)
    } else if key == "unknown_device"@ {
        Some("Unknown"@)
    } else if key == "using_mic_device"@ {
        Some("Using microphone device: \"{}\""@)
    } else if key == "found_mic_device"@ {
        Some("Found microphone device: \"{}\""@)
    } else if key == "no_vrchat_process"@ {
        Some("VRChat process not found, instance recording signal skipped."@)
    } else if key == "recording_output_dir"@ {
        Some("Recording output directory: {}"@)
    } else if key == "timeline_title"@ {
        Some("# 🎤 Recording Record - {}"@)
    } else if key == "world_name_label"@ {
        Some("Room Name"@)
    } else if key == "instance_id_label"@ {
        Some("Instance ID"@)
    } else if key == "recording_start_label"@ {
        Some("Recording Start"@)
    } else if key == "recording_status_active"@ {
        Some("Recording Status: 🔴 Recording..."@)
    } else if key == "player_timeline_title"@ {
        Some("## 👥 Player Timeline"@)
    } else if key == "table_header_time"@ {
        Some("Time"@)
    } else if key == "table_header_offset"@ {
        Some("Offset"@)
    } else if key == "table_header_event"@ {
        Some("Event"@)
    } else if key == "table_header_player"@ {
        Some("Player Name"@)
    } else if key == "table_header_uid"@ {
        Some("User ID"@)
    } else if key == "timeline_header_written"@ {
        Some("Timeline header written: {}"@)
    } else if key == "audio_recording_started"@ {
        Some("PID {} audio recording started"@)
    } else if key == "audio_recording_start_failed"@ {
        Some("Audio recording start failed: {}. Continuing timeline only (no audio)."@)
    } else if key == "timeline_write_failed"@ {
        Some("Failed to write timeline event: {}"@)
    } else if key == "event_joined"@ {
        Some("➡️ Joined"@)
    } else if key == "event_left"@ {
        Some("⬅️ Left"@)
    } else if key == "stop_recorder_error"@ {
        Some("Error stopping recorder: {}"@)
    } else if key == "rename_dir_failed"@ {
        Some("Failed to rename recording directory (including duration)"@)
    } else if key == "session_saved"@ {
        Some("Session saved: {} ({:.0}s, {} events)"@)
    } else if key == "recording_end_label"@ {
        Some("Recording End"@)
    } else if key == "recording_duration_label"@ {
        Some("Recording Duration"@)
    } else if key == "mins_label"@ {
        Some("min"@)
    } else if key == "secs_label"@ {
        Some("sec"@)
    } else if key == "audio_file_label"@ {
        Some("Audio File"@)
    } else if key == "no_audio_recorded"@ {
        Some("❌ Failed to record"@)
    } else if key == "no_player_events"@ {
        Some("*(No player join/leave events in this session)*"@)
    } else if key == "duration_format_h_m"@ {
        Some("{}h{}m"@)
    } else if key == "duration_format_m"@ {
        Some("{}m"@)
    } else if key == "duration_format_s"@ {
        Some("{}s"@)
    } else if key == "player_joined"@ {
        Some("Joined: {}{}"@)
    } else if key == "player_left"@ {
        Some("Left: {}"@)
    } else if key == "recording_finished"@ {
        Some("Recording finished ({}): {}"@)
    } else if key == "recording_save_failed"@ {
        Some("Failed to save recording: {}"@)
    } else if key == "use_proxy"@ {
        Some("Using proxy: {}"@)
    } else if key == "direct_connection"@ {
        Some("No proxy configured, connecting directly."@)
    } else if key == "cookie_loaded"@ {
        Some("Loaded cookies from database."@)
    } else if key == "auto_login_rate_limited"@ {
        Some("Auto-login rate limit reached (max {} per hour). Skipped."@)
    } else if key == "status_401"@ {
        Some("Endpoint {} returned 401. Attempting auto-login..."@)
    } else if key == "auto_login_success"@ {
        Some("Auto-login success, retrying..."@)
    } else if key == "auth_step_1"@ {
        Some("[Auth] Step 1: Checking API availability (GET /config)..."@)
    } else if key == "api_available"@ {
        Some("[Auth] API available."@)
    } else if key == "config_check_failed"@ {
        Some("[Auth] API config check failed: {}"@)
    } else if key == "auth_step_2"@ {
        Some("[Auth] Step 2: Checking existing session..."@)
    } else if key == "current_user"@ {
        Some("[Auth] Existing session valid. Current user: {}"@)
    } else if key == "session_require_2fa"@ {
        Some("[Auth] Session requires 2FA."@)
    } else if key == "no_session"@ {
        Some("[Auth] No valid session. Attempting login..."@)
    } else if key == "auth_step_3"@ {
        Some("[Auth] Step 3: Logging in with credentials..."@)
    } else if key == "login_success"@ {
        Some("[Auth] Login success. Current user: {}"@)
    } else if key == "login_require_2fa"@ {
        Some("[Auth] Login requires 2FA."@)
    } else if key == "login_failed"@ {
        Some("[Auth] Login failed: {}"@)
    } else if key == "no_credentials"@ {
        Some("[Auth] No credentials configured. Please login via API."@)
    } else if key == "logout_success"@ {
        Some("Logged out and cleared cookies."@)
    } else if key == "new_log_file"@ {
        Some("New log file detected: {}"@)
    } else if key == "watching_directory"@ {
        Some("Log watcher started, monitoring directory: {}"@)
    } else if key == "env_not_found"@ {
        Some(".env file not found. Creating a new one from {}..."@)
    } else if key == "env_created"@ {
        Some("Created .env file. Please open it and configure your settings."@)
    } else if key == "env_creation_failed"@ {
        Some("Failed to create .env file: {}"@)
    } else if key == "bio_fetch_started"@ {
        Some("Background worker for User BIOs started (Max 30/min)"@)
    } else if key == "bio_rate_limit_wait"@ {
        Some("Rate limit reached for BIO fetching. Queuing request for {}..."@)
    } else if key == "bio_saved"@ {
        Some("Saved BIO for user: {}"@)
    } else if key == "bio_symlink_success"@ {
        Some("Created BIO symlink in {} for user: {}"@)
    } else if key == "bio_symlink_failed"@ {
        Some("Failed to create symlink, copied BIO instead for user: {}"@)
    } else if key == "bio_fetch_failed"@ {
        Some("Failed to fetch BIO for user: {} - {}"@)
    } else if key == "bio_queue_skipped_no_login"@ {
        Some("Skipped fetching BIO for {} (Not logged in via API)"@)
    } else if key == "user_info_title"@ {
        Some("# Player Info"@)
    } else if key == "user_info_groups_title"@ {
        Some("# Groups"@)
    } else if key == "user_id"@ {
        Some("User ID"@)
    } else if key == "display_name"@ {
        Some("Name"@)
    } else if key == "date_joined"@ {
        Some("Registration Date"@)
    } else if key == "current_avatar_image_url"@ {
        Some("Avatar Image"@)
    } else if key == "bio_links"@ {
        Some("Bio Links"@)
    } else if key == "bio"@ {
        Some("Bio"@)
    } else if key == "badges"@ {
        Some("Badges"@)
    } else if key == "age_verification_status"@ {
        Some("Age Verification Status"@)
    } else if key == "age_verified"@ {
        Some("Age Verified"@)
    } else if key == "group_id"@ {
        Some("Group ID"@)
    } else if key == "description"@ {
        Some("Description"@)
    } else if key == "no_data"@ {
        Some("None"@)
    } else if key == "pacing_evaluating_bio"@ {
        Some("Pacing loop: Evaluating BIO for {} ({})"@)
    } else if key == "pacing_fetch_failed"@ {
        Some("Pacing loop fetch failed for {}. Cooling down for 60s."@)
    } else if key == "pacing_wait_for_vrchat"@ {
        Some("Waiting for VRChat to start..."@)
    } else if key == "vrchat_started_tracking"@ {
        Some("VRChat started! Initiating log tracking."@)
    } else if key == "vrchat_was_running_catchup"@ {
        Some("VRChat was running. Scanning file to locate current room..."@)
    } else if key == "resuming_log_tracking"@ {
        Some("Resuming log tracking from offset: {}"@)
    } else if key == "scanning_from_eof"@ {
        Some("Scanning from current end of log file."@)
    } else if key == "catchup_player_joined"@ {
        Some("Catch-up: Received PlayerJoined while Idle. Forcing state to InWorld."@)
    } else if key == "catchup_player_left"@ {
        Some("Catch-up: Received PlayerLeft while Idle. Forcing state to InWorld."@)
    } else if key == "auto_start_detected_pid"@ {
        Some("Auto-start: Detected VRChat PID {} while InWorld, attempting to start recording."@)
    } else {
        None
    }
}

/// Looks `key` up in the En catalogue.
#[verifier::rlimit(100)]
fn en_lookup(key: &[char]) -> (r: Option<&'static str>)
    ensures
        text_view(r) == en_text(key@),
{
    if eq_lit(key, "db_initialized") {
        return Some("Database initialized: {}");
    }
    if eq_lit(key, "authenticating") {
        return Some("Authenticating...");
    }
    if eq_lit(key, "auth_success") {
        return Some("Authentication success");
    }
    if eq_lit(key, "tfa_required") {
        return Some("[2FA] Two-factor authentication required (Method: {})");
    }
    if eq_lit(key, "tfa_prompt") {
        return Some("[2FA] Please enter the verification code (enter empty to skip): ");
    }
    if eq_lit(key, "tfa_skipped") {
        return Some("Verification code not entered, skipping 2FA.");
    }
    if eq_lit(key, "tfa_verifying") {
        return Some("[2FA] Verifying (type: {})...");
    }
    if eq_lit(key, "tfa_success") {
        return Some("2FA success! Authenticated.");
    }
    if eq_lit(key, "tfa_failed") {
        return Some("[2FA] Verification failed: {}");
    }
    if eq_lit(key, "tfa_retry") {
        return Some("[2FA] Please try again.");
    }
    if eq_lit(key, "auth_failed") {
        return Some("Authentication failed: {}");
    }
    if eq_lit(key, "mic_device_env") {
        return Some("Mic device (env var): \"{}\"");
    }
    if eq_lit(key, "mic_device_reg") {
        return Some("Mic device (VRChat registry)");
    }
    if eq_lit(key, "mic_device_default") {
        return Some("Using system default mic device");
    }
    if eq_lit(key, "mic_recording_status") {
        return Some("Mic recording: {}");
    }
    if eq_lit(key, "enabled") {
        return Some("Enabled");
    }
    if eq_lit(key, "disabled") {
        return Some("Disabled");
    }
    if eq_lit(key, "api_server_started") {
        return Some("--- API server started: http://127.0.0.1:3001 ---");
    }
    if eq_lit(key, "server_error") {
        return Some("Server error: {}");
    }
    if eq_lit(key, "watcher_started") {
        return Some("VRChat monitor started, press Ctrl+C to stop");
    }
    if eq_lit(key, "shutdown_saving_recording") {
        return Some("Saving recording before exit...");
    }
    if eq_lit(key, "exited") {
        return Some("Exited");
    }
    if eq_lit(key, "audio_ready") {
        return Some("Audio ready: VRChat voice channel connected.");
    }
    if eq_lit(key, "vrchat_exited") {
        return Some("VRChat process exited, finishing recording...");
    }
    if eq_lit(key, "world") {
        return Some("World: {}");
    }
    if eq_lit(key, "instance") {
        return Some("Instance: {}");
    }
    if eq_lit(key, "unknown_world") {
        return Some("Unknown World");
    }
    if eq_lit(key, "unknown_instance") {
        return Some("Unknown Instance");
    }
    if eq_lit(key, "mic_start") {
        return Some("🎤 Recording started (Joining, PID {}): {} ({})");
    }
    if eq_lit(key, "mic_start_failed") {
        return Some("Failed to start recording: {}");
    }
    if eq_lit(key, "mic_capture_success") {
        return Some("Microphone capture initialized successfully.");
    }
    if eq_lit(key, "mic_capture_failed") {
        return Some("Microphone capture setup failed: {}. Recording VRChat audio only.");
    }
    if eq_lit(key, "mic_recording_disabled") {
        return Some("Microphone recording disabled.");
    }
    if eq_lit(key, "with_mic") {
        return Some(" (with mic)");
    }
    if eq_lit(key, "vrchat_exited_stop") {
        return Some("VRChat process ended, stopping recording");
    }
    if eq_lit(key, "recording_stopped") {
        return Some("Recording stopped. Duration: {:.1}s");
    }
    if eq_lit(key, "unknown_device") {
        return Some("Unknown");
    }
    if eq_lit(key, "using_mic_device") {
        return Some("Using microphone device: \"{}\"");
    }
    if eq_lit(key, "found_mic_device") {
        return Some("Found microphone device: \"{}\"");
    }
    if eq_lit(key, "no_vrchat_process") {
        return Some("VRChat process not found, instance recording signal skipped.");
    }
    if eq_lit(key, "recording_output_dir") {
        return Some("Recording output directory: {}");
    }
    if eq_lit(key, "timeline_title") {
        return Some("# 🎤 Recording Record - {}");
    }
    if eq_lit(key, "world_name_label") {
        return Some("Room Name");
    }
    if eq_lit(key, "instance_id_label") {
        return Some("Instance ID");
    }
    if eq_lit(key, "recording_start_label") {
        return Some("Recording Start");
    }
    if eq_lit(key, "recording_status_active") {
        return Some("Recording Status: 🔴 Recording...");
    }
    if eq_lit(key, "player_timeline_title") {
        return Some("## 👥 Player Timeline");
    }
    if eq_lit(key, "table_header_time") {
        return Some("Time");
    }
    if eq_lit(key, "table_header_offset") {
        return Some("Offset");
    }
    if eq_lit(key, "table_header_event") {
        return Some("Event");
    }
    if eq_lit(key, "table_header_player") {
        return Some("Player Name");
    }
    if eq_lit(key, "table_header_uid") {
        return Some("User ID");
    }
    if eq_lit(key, "timeline_header_written") {
        return Some("Timeline header written: {}");
    }
    if eq_lit(key, "audio_recording_started") {
        return Some("PID {} audio recording started");
    }
    if eq_lit(key, "audio_recording_start_failed") {
        return Some("Audio recording start failed: {}. Continuing timeline only (no audio).");
    }
    if eq_lit(key, "timeline_write_failed") {
        return Some("Failed to write timeline event: {}");
    }
    if eq_lit(key, "event_joined") {
        return Some("➡️ Joined");
    }
    if eq_lit(key, "event_left") {
        return Some("⬅️ Left");
    }
    if eq_lit(key, "stop_recorder_error") {
        return Some("Error stopping recorder: {}");
    }
    if eq_lit(key, "rename_dir_failed") {
        return Some("Failed to rename recording directory (including duration)");
    }
    if eq_lit(key, "session_saved") {
        return Some("Session saved: {} ({:.0}s, {} events)");
    }
    if eq_lit(key, "recording_end_label") {
        return Some("Recording End");
    }
    if eq_lit(key, "recording_duration_label") {
        return Some("Recording Duration");
    }
    if eq_lit(key, "mins_label") {
        return Some("min");
    }
    if eq_lit(key, "secs_label") {
        return Some("sec");
    }
    if eq_lit(key, "audio_file_label") {
        return Some("Audio File");
    }
    if eq_lit(key, "no_audio_recorded") {
        return Some("❌ Failed to record");
    }
    if eq_lit(key, "no_player_events") {
        return Some("*(No player join/leave events in this session)*");
    }
    if eq_lit(key, "duration_format_h_m") {
        return Some("{}h{}m");
    }
    if eq_lit(key, "duration_format_m") {
        return Some("{}m");
    }
    if eq_lit(key, "duration_format_s") {
        return Some("{}s");
    }
    if eq_lit(key, "player_joined") {
        return Some("Joined: {}{}");
    }
    if eq_lit(key, "player_left") {
        return Some("Left: {}");
    }
    if eq_lit(key, "recording_finished") {
        return Some("Recording finished ({}): {}");
    }
    if eq_lit(key, "recording_save_failed") {
        return Some("Failed to save recording: {}");
    }
    if eq_lit(key, "use_proxy") {
        return Some("Using proxy: {}");
    }
    if eq_lit(key, "direct_connection") {
        return Some("No proxy configured, connecting directly.");
    }
    if eq_lit(key, "cookie_loaded") {
        return Some("Loaded cookies from database.");
    }
    if eq_lit(key, "auto_login_rate_limited") {
        return Some("Auto-login rate limit reached (max {} per hour). Skipped.");
    }
    if eq_lit(key, "status_401") {
        return Some("Endpoint {} returned 401. Attempting auto-login...");
    }
    if eq_lit(key, "auto_login_success") {
        return Some("Auto-login success, retrying...");
    }
    if eq_lit(key, "auth_step_1") {
        return Some("[Auth] Step 1: Checking API availability (GET /config)...");
    }
    if eq_lit(key, "api_available") {
        return Some("[Auth] API available.");
    }
    if eq_lit(key, "config_check_failed") {
        return Some("[Auth] API config check failed: {}");
    }
    if eq_lit(key, "auth_step_2") {
        return Some("[Auth] Step 2: Checking existing session...");
    }
    if eq_lit(key, "current_user") {
        return Some("[Auth] Existing session valid. Current user: {}");
    }
    if eq_lit(key, "session_require_2fa") {
        return Some("[Auth] Session requires 2FA.");
    }
    if eq_lit(key, "no_session") {
        return Some("[Auth] No valid session. Attempting login...");
    }
    if eq_lit(key, "auth_step_3") {
        return Some("[Auth] Step 3: Logging in with credentials...");
    }
    if eq_lit(key, "login_success") {
        return Some("[Auth] Login success. Current user: {}");
    }
    if eq_lit(key, "login_require_2fa") {
        return Some("[Auth] Login requires 2FA.");
    }
    if eq_lit(key, "login_failed") {
        return Some("[Auth] Login failed: {}");
    }
    if eq_lit(key, "no_credentials") {
        return Some("[Auth] No credentials configured. Please login via API.");
    }
    if eq_lit(key, "logout_success") {
        return Some("Logged out and cleared cookies.");
    }
    if eq_lit(key, "new_log_file") {
        return Some("New log file detected: {}");
    }
    if eq_lit(key, "watching_directory") {
        return Some("Log watcher started, monitoring directory: {}");
    }
    if eq_lit(key, "env_not_found") {
        return Some(".env file not found. Creating a new one from {}...");
    }
    if eq_lit(key, "env_created") {
        return Some("Created .env file. Please open it and configure your settings.");
    }
    if eq_lit(key, "env_creation_failed") {
        return Some("Failed to create .env file: {}");
    }
    if eq_lit(key, "bio_fetch_started") {
        return Some("Background worker for User BIOs started (Max 30/min)");
    }
    if eq_lit(key, "bio_rate_limit_wait") {
        return Some("Rate limit reached for BIO fetching. Queuing request for {}...");
    }
    if eq_lit(key, "bio_saved") {
        return Some("Saved BIO for user: {}");
    }
    if eq_lit(key, "bio_symlink_success") {
        return Some("Created BIO symlink in {} for user: {}");
    }
    if eq_lit(key, "bio_symlink_failed") {
        return Some("Failed to create symlink, copied BIO instead for user: {}");
    }
    if eq_lit(key, "bio_fetch_failed") {
        return Some("Failed to fetch BIO for user: {} - {}");
    }
    if eq_lit(key, "bio_queue_skipped_no_login") {
        return Some("Skipped fetching BIO for {} (Not logged in via API)");
    }
    if eq_lit(key, "user_info_title") {
        return Some("# Player Info");
    }
    if eq_lit(key, "user_info_groups_title") {
        return Some("# Groups");
    }
    if eq_lit(key, "user_id") {
        return Some("User ID");
    }
    if eq_lit(key, "display_name") {
        return Some("Name");
    }
    if eq_lit(key, "date_joined") {
        return Some("Registration Date");
    }
    if eq_lit(key, "current_avatar_image_url") {
        return Some("Avatar Image");
    }
    if eq_lit(key, "bio_links") {
        return Some("Bio Links");
    }
    if eq_lit(key, "bio") {
        return Some("Bio");
    }
    if eq_lit(key, "badges") {
        return Some("Badges");
    }
    if eq_lit(key, "age_verification_status") {
        return Some("Age Verification Status");
    }
    if eq_lit(key, "age_verified") {
        return Some("Age Verified");
    }
    if eq_lit(key, "group_id") {
        return Some("Group ID");
    }
    if eq_lit(key, "description") {
        return Some("Description");
    }
    if eq_lit(key, "no_data") {
        return Some("None");
    }
    if eq_lit(key, "pacing_evaluating_bio") {
        return Some("Pacing loop: Evaluating BIO for {} ({})");
    }
    if eq_lit(key, "pacing_fetch_failed") {
        return Some("Pacing loop fetch failed for {}. Cooling down for 60s.");
    }
    if eq_lit(key, "pacing_wait_for_vrchat") {
        return Some("Waiting for VRChat to start...");
    }
    if eq_lit(key, "vrchat_started_tracking") {
        return Some("VRChat started! Initiating log tracking.");
    }
    if eq_lit(key, "vrchat_was_running_catchup") {
        return Some("VRChat was running. Scanning file to locate current room...");
    }
    if eq_lit(key, "resuming_log_tracking") {
        return Some("Resuming log tracking from offset: {}");
    }
    if eq_lit(key, "scanning_from_eof") {
        return Some("Scanning from current end of log file.");
    }
    if eq_lit(key, "catchup_player_joined") {
        return Some("Catch-up: Received PlayerJoined while Idle. Forcing state to InWorld.");
    }
    if eq_lit(key, "catchup_player_left") {
        return Some("Catch-up: Received PlayerLeft while Idle. Forcing state to InWorld.");
    }
    if eq_lit(key, "auto_start_detected_pid") {
        return Some("Auto-start: Detected VRChat PID {} while InWorld, attempting to start recording.");
    }
    None
}

/// The Zh catalogue.
pub open spec fn zh_text(key: Seq<char>) -> Option<Seq<char>> {
    if key == "db_initialized"@ {
        Some("数据库已初始化: {}"@)
    } else if key == "authenticating"@ {
        Some("正在认证..."@)
    } else if key == "auth_success"@ {
        Some("认证成功"@)
    } else if key == "tfa_required"@ {
        Some("[2FA] 需要二步验证 (方式: {})"@)
    } else if key == "tfa_prompt"@ {
        Some("[2FA] 请输入验证码 (输入空行跳过): "@)
    } else if key == "tfa_skipped"@ {
        Some("未输入验证码，跳过二步验证。"@)
    } else if key == "tfa_verifying"@ {
        Some("[2FA] 验证中 (type: {})..."@)
    } else if key == "tfa_success"@ {
        Some("二步验证成功！已认证。"@)
    } else if key == "tfa_failed"@ {
        Some("[2FA] 验证失败: {}"@)
    } else if key == "tfa_retry"@ {
        Some("[2FA] 请重试。"@)
    } else if key == "auth_failed"@ {
        Some("认证失败: {}"@)
    } else if key == "mic_device_env"@ {
        Some("麦克风设备 (环境变量): \"{}\""@)
    } else if key == "mic_device_reg"@ {
        Some("麦克风设备 (VRChat 注册表)"@)
    } else if key == "mic_device_default"@ {
        Some("使用系统默认麦克风设备"@)
    } else if key == "mic_recording_status"@ {
        Some("麦克风录制: {}"@)
    } else if key == "enabled"@ {
        Some("已开启"@)
    } else if key == "disabled"@ {
        Some("已关闭"@)
    } else if key == "api_server_started"@ {
        Some("--- API 服务已启动: http://127.0.0.1:3001 ---"@)
    } else if key == "server_error"@ {
        Some("服务器错误: {}"@)
    } else if key == "watcher_started"@ {
        Some("VRChat 监控已启动，按 Ctrl+C 停止"@)
    } else if key == "shutdown_saving_recording"@ {
        Some("退出前保存录音..."@)
    } else if key == "exited"@ {
        Some("已退出"@)
    } else if key == "audio_ready"@ {
        Some("音频就绪: VRChat 语音频道已连上。"@)
    } else if key == "vrchat_exited"@ {
        Some("检测到 VRChat 进程已退出，自动结束当前录音..."@)
    } else if key == "world"@ {
        Some("世界: {}"@)
    } else if key == "instance"@ {
        Some("实例: {}"@)
    } else if key == "unknown_world"@ {
        Some("未知世界"@)
    } else if key == "unknown_instance"@ {
        Some("未知实例"@)
    } else if key == "mic_start"@ {
        Some("🎤 开始录音 (Joining, PID {}): {} ({})"@)
    } else if key == "mic_start_failed"@ {
        Some("录音启动失败: {}"@)
    } else if key == "mic_capture_success"@ {
        Some("麦克风捕获初始化成功。"@)
    } else if key == "mic_capture_failed"@ {
        Some("麦克风捕获设置失败: {}。仅录制 VRChat 音频。"@)
    } else if key == "mic_recording_disabled"@ {
        Some("麦克风录制已禁用。"@)
    } else if key == "with_mic"@ {
        Some(" (含麦克风)"@)
    } else if key == "vrchat_exited_stop"@ {
        Some("VRChat 进程已结束，停止录音"@)
    } else if key == "recording_stopped"@ {
        Some("录音已停止。时长: {:.1}s"@)
    } else if key == "unknown_device"@ {
        Some("未知"@)
    } else if key == "using_mic_device"@ {
        Some("使用麦克风设备: \"{}\""@)
    } else if key == "found_mic_device"@ {
        Some("找到麦克风设备: \"{}\""@)
    } else if key == "no_vrchat_process"@ {
        Some("未找到 VRChat 进程，本次实例录音未启动信号。"@)
    } else if key == "recording_output_dir"@ {
        Some("录音输出目录: {}"@)
    } else if key == "timeline_title"@ {
        Some("# 🎤 录音记录 - {}"@)
    } else if key == "world_name_label"@ {
        Some("房间名称"@)
    } else if key == "instance_id_label"@ {
        Some("实例 ID"@)
    } else if key == "recording_start_label"@ {
        Some("录制开始"@)
    } else if key == "recording_status_active"@ {
        Some("录制状态: 🔴 录制中..."@)
    } else if key == "player_timeline_title"@ {
        Some("## 👥 人员时间线"@)
    } else if key == "table_header_time"@ {
        Some("时间"@)
    } else if key == "table_header_offset"@ {
        Some("偏移"@)
    } else if key == "table_header_event"@ {
        Some("事件"@)
    } else if key == "table_header_player"@ {
        Some("玩家名称"@)
    } else if key == "table_header_uid"@ {
        Some("User ID"@)
    } else if key == "timeline_header_written"@ {
        Some("时间轴页眉已写入: {}"@)
    } else if key == "audio_recording_started"@ {
        Some("PID {} 音频录制已启动"@)
    } else if key == "audio_recording_start_failed"@ {
        Some("音频录制启动失败: {}。将继续录制时间轴（无音频）。"@)
    } else if key == "timeline_write_failed"@ {
        Some("写入时间轴事件失败: {}"@)
    } else if key == "event_joined"@ {
        Some("➡️ 加入"@)
    } else if key == "event_left"@ {
        Some("⬅️ 离开"@)
    } else if key == "stop_recorder_error"@ {
        Some("停止录制器时出错: {}"@)
    } else if key == "rename_dir_failed"@ {
        Some("重命名录音目录（包含时长）失败"@)
    } else if key == "session_saved"@ {
        Some("会话已保存: {} ({:.0}s, {} events)"@)
    } else if key == "recording_end_label"@ {
        Some("录制结束"@)
    } else if key == "recording_duration_label"@ {
        Some("录制时长"@)
    } else if key == "mins_label"@ {
        Some("分"@)
    } else if key == "secs_label"@ {
        Some("秒"@)
    } else if key == "audio_file_label"@ {
        Some("音频文件"@)
    } else if key == "no_audio_recorded"@ {
        Some("❌ 未能录制"@)
    } else if key == "no_player_events"@ {
        Some("*（本次会话无玩家加入/离开事件）*"@)
    } else if key == "duration_format_h_m"@ {
        Some("{}h{}分"@)
    } else if key == "duration_format_m"@ {
        Some("{}分"@)
    } else if key == "duration_format_s"@ {
        Some("{}秒"@)
    } else if key == "player_joined"@ {
        Some("加入: {}{}"@)
    } else if key == "player_left"@ {
        Some("离开: {}"@)
    } else if key == "recording_finished"@ {
        Some("录音已结束 ({}): {}"@)
    } else if key == "recording_save_failed"@ {
        Some("录音保存失败: {}"@)
    } else if key == "use_proxy"@ {
        Some("使用代理: {}"@)
    } else if key == "direct_connection"@ {
        Some("未配置代理，正在直接连接。"@)
    } else if key == "cookie_loaded"@ {
        Some("已从数据库加载 Cookie。"@)
    } else if key == "auto_login_rate_limited"@ {
        Some("自动登录已达到频率限制（一小时内最多 {} 次）。已跳过。"@)
    } else if key == "status_401"@ {
        Some("接口 {} 返回 401。正在尝试自动登录..."@)
    } else if key == "auto_login_success"@ {
        Some("自动登录成功，正在重试..."@)
    } else if key == "auth_step_1"@ {
        Some("[认证] 步骤 1: 检查 API 可用性 (GET /config)..."@)
    } else if key == "api_available"@ {
        Some("[认证] API 可用。"@)
    } else if key == "config_check_failed"@ {
        Some("[认证] API 配置检查失败: {}"@)
    } else if key == "auth_step_2"@ {
        Some("[认证] 步骤 2: 检查现有会话..."@)
    } else if key == "current_user"@ {
        Some("[认证] 现有会话有效。当前用户: {}"@)
    } else if key == "session_require_2fa"@ {
        Some("[认证] 会话需要二步验证。"@)
    } else if key == "no_session"@ {
        Some("[认证] 无有效会话。正在尝试登录..."@)
    } else if key == "auth_step_3"@ {
        Some("[认证] 步骤 3: 使用账号密码登录..."@)
    } else if key == "login_success"@ {
        Some("[认证] 登录成功。当前用户: {}"@)
    } else if key == "login_require_2fa"@ {
        Some("[认证] 登录需要二步验证。"@)
    } else if key == "login_failed"@ {
        Some("[认证] 登录失败: {}"@)
    } else if key == "no_credentials"@ {
        Some("[认证] 未配置账号密码。请通过 API 登录。"@)
    } else if key == "logout_success"@ {
        Some("已登出并清除 Cookie。"@)
    } else if key == "new_log_file"@ {
        Some("检测到新日志文件: {}"@)
    } else if key == "watching_directory"@ {
        Some("日志监控已启动，正在监控目录: {}"@)
    } else if key == "env_not_found"@ {
        Some("未找到 .env 文件。正在从 {} 创建新文件..."@)
    } else if key == "env_created"@ {
        Some("已创建 .env 文件。请打开并配置您的设置（如 Cookie 等）。"@)
    } else if key == "env_creation_failed"@ {
        Some("创建 .env 文件失败: {}"@)
    } else if key == "bio_fetch_started"@ {
        Some("用户 BIO 获取后台任务已启动 (限速 30次/分钟)"@)
    } else if key == "bio_rate_limit_wait"@ {
        Some("达到 BIO 获取速率限制。正在排队请求 {}..."@)
    } else if key == "bio_saved"@ {
        Some("已保存用户 BIO: {}"@)
    } else if key == "bio_symlink_success"@ {
        Some("在 {} 中为用户 {} 创建了 BIO 软链接"@)
    } else if key == "bio_symlink_failed"@ {
        Some("创建软链接失败，已直接复制 BIO 给用户: {}"@)
    } else if key == "bio_fetch_failed"@ {
        Some("获取用户 {} 的 BIO 失败: {}"@)
    } else if key == "bio_queue_skipped_no_login"@ {
        Some("跳过获取 {} 的 BIO (未通过 API 登录)"@)
    } else if key == "user_info_title"@ {
        Some("# 玩家信息"@)
    } else if key == "user_info_groups_title"@ {
        Some("# 群组 (Groups)"@)
    } else if key == "user_id"@ {
        Some("用户 ID"@)
    } else if key == "display_name"@ {
        Some("名称"@)
    } else if key == "date_joined"@ {
        Some("注册日期"@)
    } else if key == "current_avatar_image_url"@ {
        Some("当前模型图片"@)
    } else if key == "bio_links"@ {
        Some("简介链接"@)
    } else if key == "bio"@ {
        Some("个人简介"@)
    } else if key == "badges"@ {
        Some("展示徽章"@)
    } else if key == "age_verification_status"@ {
        Some("年龄验证状态"@)
    } else if key == "age_verified"@ {
        Some("已通过年龄验证"@)
    } else if key == "group_id"@ {
        Some("群组 ID"@)
    } else if key == "description"@ {
        Some("描述"@)
    } else if key == "no_data"@ {
        Some("无"@)
    } else if key == "pacing_evaluating_bio"@ {
        Some("轮询检查: 正在评估 {} ({}) 的 BIO"@)
    } else if key == "pacing_fetch_failed"@ {
        Some("轮询获取失败: {}。冷却 60 秒后再试。"@)
    } else if key == "pacing_wait_for_vrchat"@ {
        Some("正在等待 VRChat 启动..."@)
    } else if key == "vrchat_started_tracking"@ {
        Some("VRChat 已启动！开始追踪日志。"@)
    } else if key == "vrchat_was_running_catchup"@ {
        Some("VRChat 正在运行。正在扫描文件定位当前房间..."@)
    } else if key == "resuming_log_tracking"@ {
        Some("从偏移量 {} 处恢复日志追踪"@)
    } else if key == "scanning_from_eof"@ {
        Some("从当前日志文件末尾开始扫描。"@)
    } else if key == "catchup_player_joined"@ {
        Some("自动追赶: 在 Idle 状态收到玩家加入。强制切换到 InWorld。"@)
    } else if key == "catchup_player_left"@ {
        Some("自动追赶: 在 Idle 状态收到玩家离开。强制切换到 InWorld。"@)
    } else if key == "auto_start_detected_pid"@ {
        Some("自动启动: 在 InWorld 状态检测到 VRChat PID {}，尝试开始录制。"@)
    } else {
        None
    }
}

/// Looks `key` up in the Zh catalogue.
#[verifier::rlimit(100)]
fn zh_lookup(key: &[char]) -> (r: Option<&'static str>)
    ensures
        text_view(r) == zh_text(key@),
{
    if eq_lit(key, "db_initialized") {
        return Some("数据库已初始化: {}");
    }
    if eq_lit(key, "authenticating") {
        return Some("正在认证...");
    }
    if eq_lit(key, "auth_success") {
        return Some("认证成功");
    }
    if eq_lit(key, "tfa_required") {
        return Some("[2FA] 需要二步验证 (方式: {})");
    }
    if eq_lit(key, "tfa_prompt") {
        return Some("[2FA] 请输入验证码 (输入空行跳过): ");
    }
    if eq_lit(key, "tfa_skipped") {
        return Some("未输入验证码，跳过二步验证。");
    }
    if eq_lit(key, "tfa_verifying") {
        return Some("[2FA] 验证中 (type: {})...");
    }
    if eq_lit(key, "tfa_success") {
        return Some("二步验证成功！已认证。");
    }
    if eq_lit(key, "tfa_failed") {
        return Some("[2FA] 验证失败: {}");
    }
    if eq_lit(key, "tfa_retry") {
        return Some("[2FA] 请重试。");
    }
    if eq_lit(key, "auth_failed") {
        return Some("认证失败: {}");
    }
    if eq_lit(key, "mic_device_env") {
        return Some("麦克风设备 (环境变量): \"{}\"");
    }
    if eq_lit(key, "mic_device_reg") {
        return Some("麦克风设备 (VRChat 注册表)");
    }
    if eq_lit(key, "mic_device_default") {
        return Some("使用系统默认麦克风设备");
    }
    if eq_lit(key, "mic_recording_status") {
        return Some("麦克风录制: {}");
    }
    if eq_lit(key, "enabled") {
        return Some("已开启");
    }
    if eq_lit(key, "disabled") {
        return Some("已关闭");
    }
    if eq_lit(key, "api_server_started") {
        return Some("--- API 服务已启动: http://127.0.0.1:3001 ---");
    }
    if eq_lit(key, "server_error") {
        return Some("服务器错误: {}");
    }
    if eq_lit(key, "watcher_started") {
        return Some("VRChat 监控已启动，按 Ctrl+C 停止");
    }
    if eq_lit(key, "shutdown_saving_recording") {
        return Some("退出前保存录音...");
    }
    if eq_lit(key, "exited") {
        return Some("已退出");
    }
    if eq_lit(key, "audio_ready") {
        return Some("音频就绪: VRChat 语音频道已连上。");
    }
    if eq_lit(key, "vrchat_exited") {
        return Some("检测到 VRChat 进程已退出，自动结束当前录音...");
    }
    if eq_lit(key, "world") {
        return Some("世界: {}");
    }
    if eq_lit(key, "instance") {
        return Some("实例: {}");
    }
    if eq_lit(key, "unknown_world") {
        return Some("未知世界");
    }
    if eq_lit(key, "unknown_instance") {
        return Some("未知实例");
    }
    if eq_lit(key, "mic_start") {
        return Some("🎤 开始录音 (Joining, PID {}): {} ({})");
    }
    if eq_lit(key, "mic_start_failed") {
        return Some("录音启动失败: {}");
    }
    if eq_lit(key, "mic_capture_success") {
        return Some("麦克风捕获初始化成功。");
    }
    if eq_lit(key, "mic_capture_failed") {
        return Some("麦克风捕获设置失败: {}。仅录制 VRChat 音频。");
    }
    if eq_lit(key, "mic_recording_disabled") {
        return Some("麦克风录制已禁用。");
    }
    if eq_lit(key, "with_mic") {
        return Some(" (含麦克风)");
    }
    if eq_lit(key, "vrchat_exited_stop") {
        return Some("VRChat 进程已结束，停止录音");
    }
    if eq_lit(key, "recording_stopped") {
        return Some("录音已停止。时长: {:.1}s");
    }
    if eq_lit(key, "unknown_device") {
        return Some("未知");
    }
    if eq_lit(key, "using_mic_device") {
        return Some("使用麦克风设备: \"{}\"");
    }
    if eq_lit(key, "found_mic_device") {
        return Some("找到麦克风设备: \"{}\"");
    }
    if eq_lit(key, "no_vrchat_process") {
        return Some("未找到 VRChat 进程，本次实例录音未启动信号。");
    }
    if eq_lit(key, "recording_output_dir") {
        return Some("录音输出目录: {}");
    }
    if eq_lit(key, "timeline_title") {
        return Some("# 🎤 录音记录 - {}");
    }
    if eq_lit(key, "world_name_label") {
        return Some("房间名称");
    }
    if eq_lit(key, "instance_id_label") {
        return Some("实例 ID");
    }
    if eq_lit(key, "recording_start_label") {
        return Some("录制开始");
    }
    if eq_lit(key, "recording_status_active") {
        return Some("录制状态: 🔴 录制中...");
    }
    if eq_lit(key, "player_timeline_title") {
        return Some("## 👥 人员时间线");
    }
    if eq_lit(key, "table_header_time") {
        return Some("时间");
    }
    if eq_lit(key, "table_header_offset") {
        return Some("偏移");
    }
    if eq_lit(key, "table_header_event") {
        return Some("事件");
    }
    if eq_lit(key, "table_header_player") {
        return Some("玩家名称");
    }
    if eq_lit(key, "table_header_uid") {
        return Some("User ID");
    }
    if eq_lit(key, "timeline_header_written") {
        return Some("时间轴页眉已写入: {}");
    }
    if eq_lit(key, "audio_recording_started") {
        return Some("PID {} 音频录制已启动");
    }
    if eq_lit(key, "audio_recording_start_failed") {
        return Some("音频录制启动失败: {}。将继续录制时间轴（无音频）。");
    }
    if eq_lit(key, "timeline_write_failed") {
        return Some("写入时间轴事件失败: {}");
    }
    if eq_lit(key, "event_joined") {
        return Some("➡️ 加入");
    }
    if eq_lit(key, "event_left") {
        return Some("⬅️ 离开");
    }
    if eq_lit(key, "stop_recorder_error") {
        return Some("停止录制器时出错: {}");
    }
    if eq_lit(key, "rename_dir_failed") {
        return Some("重命名录音目录（包含时长）失败");
    }
    if eq_lit(key, "session_saved") {
        return Some("会话已保存: {} ({:.0}s, {} events)");
    }
    if eq_lit(key, "recording_end_label") {
        return Some("录制结束");
    }
    if eq_lit(key, "recording_duration_label") {
        return Some("录制时长");
    }
    if eq_lit(key, "mins_label") {
        return Some("分");
    }
    if eq_lit(key, "secs_label") {
        return Some("秒");
    }
    if eq_lit(key, "audio_file_label") {
        return Some("音频文件");
    }
    if eq_lit(key, "no_audio_recorded") {
        return Some("❌ 未能录制");
    }
    if eq_lit(key, "no_player_events") {
        return Some("*（本次会话无玩家加入/离开事件）*");
    }
    if eq_lit(key, "duration_format_h_m") {
        return Some("{}h{}分");
    }
    if eq_lit(key, "duration_format_m") {
        return Some("{}分");
    }
    if eq_lit(key, "duration_format_s") {
        return Some("{}秒");
    }
    if eq_lit(key, "player_joined") {
        return Some("加入: {}{}");
    }
    if eq_lit(key, "player_left") {
        return Some("离开: {}");
    }
    if eq_lit(key, "recording_finished") {
        return Some("录音已结束 ({}): {}");
    }
    if eq_lit(key, "recording_save_failed") {
        return Some("录音保存失败: {}");
    }
    if eq_lit(key, "use_proxy") {
        return Some("使用代理: {}");
    }
    if eq_lit(key, "direct_connection") {
        return Some("未配置代理，正在直接连接。");
    }
    if eq_lit(key, "cookie_loaded") {
        return Some("已从数据库加载 Cookie。");
    }
    if eq_lit(key, "auto_login_rate_limited") {
        return Some("自动登录已达到频率限制（一小时内最多 {} 次）。已跳过。");
    }
    if eq_lit(key, "status_401") {
        return Some("接口 {} 返回 401。正在尝试自动登录...");
    }
    if eq_lit(key, "auto_login_success") {
        return Some("自动登录成功，正在重试...");
    }
    if eq_lit(key, "auth_step_1") {
        return Some("[认证] 步骤 1: 检查 API 可用性 (GET /config)...");
    }
    if eq_lit(key, "api_available") {
        return Some("[认证] API 可用。");
    }
    if eq_lit(key, "config_check_failed") {
        return Some("[认证] API 配置检查失败: {}");
    }
    if eq_lit(key, "auth_step_2") {
        return Some("[认证] 步骤 2: 检查现有会话...");
    }
    if eq_lit(key, "current_user") {
        return Some("[认证] 现有会话有效。当前用户: {}");
    }
    if eq_lit(key, "session_require_2fa") {
        return Some("[认证] 会话需要二步验证。");
    }
    if eq_lit(key, "no_session") {
        return Some("[认证] 无有效会话。正在尝试登录...");
    }
    if eq_lit(key, "auth_step_3") {
        return Some("[认证] 步骤 3: 使用账号密码登录...");
    }
    if eq_lit(key, "login_success") {
        return Some("[认证] 登录成功。当前用户: {}");
    }
    if eq_lit(key, "login_require_2fa") {
        return Some("[认证] 登录需要二步验证。");
    }
    if eq_lit(key, "login_failed") {
        return Some("[认证] 登录失败: {}");
    }
    if eq_lit(key, "no_credentials") {
        return Some("[认证] 未配置账号密码。请通过 API 登录。");
    }
    if eq_lit(key, "logout_success") {
        return Some("已登出并清除 Cookie。");
    }
    if eq_lit(key, "new_log_file") {
        return Some("检测到新日志文件: {}");
    }
    if eq_lit(key, "watching_directory") {
        return Some("日志监控已启动，正在监控目录: {}");
    }
    if eq_lit(key, "env_not_found") {
        return Some("未找到 .env 文件。正在从 {} 创建新文件...");
    }
    if eq_lit(key, "env_created") {
        return Some("已创建 .env 文件。请打开并配置您的设置（如 Cookie 等）。");
    }
    if eq_lit(key, "env_creation_failed") {
        return Some("创建 .env 文件失败: {}");
    }
    if eq_lit(key, "bio_fetch_started") {
        return Some("用户 BIO 获取后台任务已启动 (限速 30次/分钟)");
    }
    if eq_lit(key, "bio_rate_limit_wait") {
        return Some("达到 BIO 获取速率限制。正在排队请求 {}...");
    }
    if eq_lit(key, "bio_saved") {
        return Some("已保存用户 BIO: {}");
    }
    if eq_lit(key, "bio_symlink_success") {
        return Some("在 {} 中为用户 {} 创建了 BIO 软链接");
    }
    if eq_lit(key, "bio_symlink_failed") {
        return Some("创建软链接失败，已直接复制 BIO 给用户: {}");
    }
    if eq_lit(key, "bio_fetch_failed") {
        return Some("获取用户 {} 的 BIO 失败: {}");
    }
    if eq_lit(key, "bio_queue_skipped_no_login") {
        return Some("跳过获取 {} 的 BIO (未通过 API 登录)");
    }
    if eq_lit(key, "user_info_title") {
        return Some("# 玩家信息");
    }
    if eq_lit(key, "user_info_groups_title") {
        return Some("# 群组 (Groups)");
    }
    if eq_lit(key, "user_id") {
        return Some("用户 ID");
    }
    if eq_lit(key, "display_name") {
        return Some("名称");
    }
    if eq_lit(key, "date_joined") {
        return Some("注册日期");
    }
    if eq_lit(key, "current_avatar_image_url") {
        return Some("当前模型图片");
    }
    if eq_lit(key, "bio_links") {
        return Some("简介链接");
    }
    if eq_lit(key, "bio") {
        return Some("个人简介");
    }
    if eq_lit(key, "badges") {
        return Some("展示徽章");
    }
    if eq_lit(key, "age_verification_status") {
        return Some("年龄验证状态");
    }
    if eq_lit(key, "age_verified") {
        return Some("已通过年龄验证");
    }
    if eq_lit(key, "group_id") {
        return Some("群组 ID");
    }
    if eq_lit(key, "description") {
        return Some("描述");
    }
    if eq_lit(key, "no_data") {
        return Some("无");
    }
    if eq_lit(key, "pacing_evaluating_bio") {
        return Some("轮询检查: 正在评估 {} ({}) 的 BIO");
    }
    if eq_lit(key, "pacing_fetch_failed") {
        return Some("轮询获取失败: {}。冷却 60 秒后再试。");
    }
    if eq_lit(key, "pacing_wait_for_vrchat") {
        return Some("正在等待 VRChat 启动...");
    }
    if eq_lit(key, "vrchat_started_tracking") {
        return Some("VRChat 已启动！开始追踪日志。");
    }
    if eq_lit(key, "vrchat_was_running_catchup") {
        return Some("VRChat 正在运行。正在扫描文件定位当前房间...");
    }
    if eq_lit(key, "resuming_log_tracking") {
        return Some("从偏移量 {} 处恢复日志追踪");
    }
    if eq_lit(key, "scanning_from_eof") {
        return Some("从当前日志文件末尾开始扫描。");
    }
    if eq_lit(key, "catchup_player_joined") {
        return Some("自动追赶: 在 Idle 状态收到玩家加入。强制切换到 InWorld。");
    }
    if eq_lit(key, "catchup_player_left") {
        return Some("自动追赶: 在 Idle 状态收到玩家离开。强制切换到 InWorld。");
    }
    if eq_lit(key, "auto_start_detected_pid") {
        return Some("自动启动: 在 InWorld 状态检测到 VRChat PID {}，尝试开始录制。");
    }
    None
}

/// The Ja catalogue.
pub open spec fn ja_text(key: Seq<char>) -> Option<Seq<char>> {
    if key == "db_initialized"@ {
        Some("データベースを初期化しました: {}"@)
    } else if key == "authenticating"@ {
        Some("認証中..."@)
    } else if key == "auth_success"@ {
        Some("認証成功"@)
    } else if key == "tfa_required"@ {
        Some("[2FA] 二要素認証が必要です (方式: {})"@)
    } else if key == "tfa_prompt"@ {
        Some("[2FA] 認証コードを入力してください（スキップする場合は空のまま入力）: "@)
    } else if key == "tfa_skipped"@ {
        Some("認証コードが入力されなかったため、2FAをスキップしました。"@)
    } else if key == "tfa_verifying"@ {
        Some("[2FA] 検証中 (タイプ: {})..."@)
    } else if key == "tfa_success"@ {
        Some("2FA認証に成功しました！"@)
    } else if key == "tfa_failed"@ {
        Some("[2FA] 検証失敗: {}"@)
    } else if key == "tfa_retry"@ {
        Some("[2FA] もう一度お試しください。"@)
    } else if key == "auth_failed"@ {
        Some("認証失敗: {}"@)
    } else if key == "mic_device_env"@ {
        Some("マイクデバイス (環境変数): \"{}\""@)
    } else if key == "mic_device_reg"@ {
        Some("マイクデバイス (VRChatレジストリ)"@)
    } else if key == "mic_device_default"@ {
        Some("システムデフォルトのマイクデバイスを使用"@)
    } else if key == "mic_recording_status"@ {
        Some("マイク録音: {}"@)
    } else if key == "enabled"@ {
        Some("有効"@)
    } else if key == "disabled"@ {
        Some("無効"@)
    } else if key == "api_server_started"@ {
        Some("--- APIサーバーが起動しました: http://127.0.0.1:3001 ---"@)
    } else if key == "server_error"@ {
        Some("サーバーエラー: {}"@)
    } else if key == "watcher_started"@ {
        Some("VRChat監視が開始されました。Ctrl+Cで停止します"@)
    } else if key == "shutdown_saving_recording"@ {
        Some("終了前に録音を保存しています..."@)
    } else if key == "exited"@ {
        Some("終了しました"@)
    } else if key == "audio_ready"@ {
        Some("オーディオ準備完了: VRChatボイスチャンネルに接続されました。"@)
    } else if key == "vrchat_exited"@ {
        Some("VRChatプロセスが終了しました。録音を終了しています..."@)
    } else if key == "world"@ {
        Some("ワールド: {}"@)
    } else if key == "instance"@ {
        Some("インスタンス: {}"@)
    } else if key == "unknown_world"@ {
        Some("未知のワールド"@)
    } else if key == "unknown_instance"@ {
        Some("未知のインスタンス"@)
    } else if key == "mic_start"@ {
        Some("🎤 録音開始 (Join, PID {}): {} ({})"@)
    } else if key == "mic_start_failed"@ {
        Some("録音の開始に失敗しました: {}"@)
    } else if key == "mic_capture_success"@ {
        Some("マイクキャプチャが正常に初期化されました。"@)
    } else if key == "mic_capture_failed"@ {
        Some("マイクキャプチャの設定に失敗しました: {}。VRChatの音声のみを録音します。"@)
    } else if key == "mic_recording_disabled"@ {
        Some("マイク録音が無効になっています。"@)
    } else if key == "with_mic"@ {
        Some(" (マイク込み)"@)
    } else if key == "vrchat_exited_stop"@ {
        Some("VRChatプロセスが終了しました。録音を停止します"@)
    } else if key == "recording_stopped"@ {
        Some("録音停止。長さ: {:.1}s"@)
    } else if key == "unknown_device"@ {
        Some("不明"@)
    } else if key == "using_mic_device"@ {
        Some("マイクデバイスを使用中: \"{}\""@)
    } else if key == "found_mic_device"@ {
        Some("マイクデバイスが見つかりました: \"{}\""@)
    } else if key == "no_vrchat_process"@ {
        Some("VRChatプロセスが見つからないため、インスタンス録音信号をスキップしました。"@)
    } else if key == "recording_output_dir"@ {
        Some("録音出力ディレクトリ: {}"@)
    } else if key == "timeline_title"@ {
        Some("# 🎤 録音記録 - {}"@)
    } else if key == "world_name_label"@ {
        Some("ワールド名"@)
    } else if key == "instance_id_label"@ {
        Some("インスタンス ID"@)
    } else if key == "recording_start_label"@ {
        Some("録音開始"@)
    } else if key == "recording_status_active"@ {
        Some("録音ステータス: 🔴 録音中..."@)
    } else if key == "player_timeline_title"@ {
        Some("## 👥 プレイヤータイムライン"@)
    } else if key == "table_header_time"@ {
        Some("時間"@)
    } else if key == "table_header_offset"@ {
        Some("オフセット"@)
    } else if key == "table_header_event"@ {
        Some("イベント"@)
    } else if key == "table_header_player"@ {
        Some("プレイヤー名"@)
    } else if key == "table_header_uid"@ {
        Some("ユーザー ID"@)
    } else if key == "timeline_header_written"@ {
        Some("タイムラインヘッダーが書き込まれました: {}"@)
    } else if key == "audio_recording_started"@ {
        Some("PID {} オーディオ録音が開始されました"@)
    } else if key == "audio_recording_start_failed"@ {
        Some("オーディオ録音の開始に失敗しました: {}。タイムラインのみを続行します（オーディオなし）。"@)
    } else if key == "timeline_write_failed"@ {
        Some("タイムラインイベントの書き込みに失敗しました: {}"@)
    } else if key == "event_joined"@ {
        Some("➡️ 入室"@)
    } else if key == "event_left"@ {
        Some("⬅️ 退室"@)
    } else if key == "stop_recorder_error"@ {
        Some("レコーダー停止中にエラーが発生しました: {}"@)
    } else if key == "rename_dir_failed"@ {
        Some("録音ディレクトリ（期間を含む）のリネームに失敗しました"@)
    } else if key == "session_saved"@ {
        Some("セッションが保存されました: {} ({:.0}s, {} イベント)"@)
    } else if key == "recording_end_label"@ {
        Some("録音終了"@)
    } else if key == "recording_duration_label"@ {
        Some("録音時間"@)
    } else if key == "mins_label"@ {
        Some("分"@)
    } else if key == "secs_label"@ {
        Some("秒"@)
    } else if key == "audio_file_label"@ {
        Some("オーディオファイル"@)
    } else if key == "no_audio_recorded"@ {
        Some("❌ 録音に失敗しました"@)
    } else if key == "no_player_events"@ {
        Some("*（このセッションではプレイヤーの入退室イベントはありませんでした）*"@)
    } else if key == "duration_format_h_m"@ {
        Some("{}時間{}分"@)
    } else if key == "duration_format_m"@ {
        Some("{}分"@)
    } else if key == "duration_format_s"@ {
        Some("{}秒"@)
    } else if key == "player_joined"@ {
        Some("入室: {}{}"@)
    } else if key == "player_left"@ {
        Some("退室: {}"@)
    } else if key == "recording_finished"@ {
        Some("録音終了 ({}): {}"@)
    } else if key == "recording_save_failed"@ {
        Some("録音の保存に失敗しました: {}"@)
    } else if key == "use_proxy"@ {
        Some("プロキシを使用: {}"@)
    } else if key == "direct_connection"@ {
        Some("プロキシが設定されていないため、直接接続します。"@)
    } else if key == "cookie_loaded"@ {
        Some("データベースからCookieを読み込みました。"@)
    } else if key == "auto_login_rate_limited"@ {
        Some("自動ログインの制限に達しました（1時間に最大 {} 回）。スキップしました。"@)
    } else if key == "status_401"@ {
        Some("エンドポイント {} が 401 を返しました。自動ログインを試行します..."@)
    } else if key == "auto_login_success"@ {
        Some("自動ログイン成功、再試行中..."@)
    } else if key == "auth_step_1"@ {
        Some("[認証] ステップ 1: API の可用性を確認中 (GET /config)..."@)
    } else if key == "api_available"@ {
        Some("[認証] API は利用可能です。"@)
    } else if key == "config_check_failed"@ {
        Some("[認証] API 設定の確認に失敗しました: {}"@)
    } else if key == "auth_step_2"@ {
        Some("[認証] ステップ 2: 既存のセッションを確認中..."@)
    } else if key == "current_user"@ {
        Some("[認証] 既存のセッションは有効です。現在のユーザー: {}"@)
    } else if key == "session_require_2fa"@ {
        Some("[認証] セッションに二要素認証が必要です。"@)
    } else if key == "no_session"@ {
        Some("[認証] 有効なセッションがありません。ログインを試行します..."@)
    } else if key == "auth_step_3"@ {
        Some("[認証] ステップ 3: 認証情報でログイン中..."@)
    } else if key == "login_success"@ {
        Some("[認証] ログイン成功。現在のユーザー: {}"@)
    } else if key == "login_require_2fa"@ {
        Some("[認証] ログインに二要素認証が必要です。"@)
    } else if key == "login_failed"@ {
        Some("[認証] ログイン失敗: {}"@)
    } else if key == "no_credentials"@ {
        Some("[認証] 認証情報が設定されていません。API経由でログインしてください。"@)
    } else if key == "logout_success"@ {
        Some("ログアウトし、Cookieをクリアしました。"@)
    } else if key == "new_log_file"@ {
        Some("新しいログファイルを検出しました: {}"@)
    } else if key == "watching_directory"@ {
        Some("ログ監視を開始しました。監視ディレクトリ: {}"@)
    } else if key == "env_not_found"@ {
        Some(".envファイルが見つかりません。{}から新しく作成しています..."@)
    } else if key == "env_created"@ {
        Some(".envファイルを作成しました。設定（Cookieなど）を確認して構成してください。"@)
    } else if key == "env_creation_failed"@ {
        Some(".envファイルの作成に失敗しました: {}"@)
    } else if key == "bio_fetch_started"@ {
        Some("ユーザーBIO取得のバックグラウンドタスクが開始されました (最大 30回/分)"@)
    } else if key == "bio_rate_limit_wait"@ {
        Some("BIO取得のレート制限に達しました。{} のリクエストをキューに入れています..."@)
    } else if key == "bio_saved"@ {
        Some("ユーザーBIOを保存しました: {}"@)
    } else if key == "bio_symlink_success"@ {
        Some("{} にユーザー {} のBIOシンボリックリンクを作成しました"@)
    } else if key == "bio_symlink_failed"@ {
        Some("シンボリックリンクの作成に失敗したため、ユーザー {} のBIOをコピーしました"@)
    } else if key == "bio_queue_skipped_no_login"@ {
        Some("{} のBIO取得をスキップしました (API経由でログインしていません)"@)
    } else if key == "pacing_evaluating_bio"@ {
        Some("ポーリングチェック: {} ({}) の BIO を評価中"@)
    } else if key == "pacing_fetch_failed"@ {
        Some("ポーリング取得失敗: {}。60秒間待機します。"@)
    } else if key == "pacing_wait_for_vrchat"@ {
        Some("VRChat の起動を待機中..."@)
    } else if key == "vrchat_started_tracking"@ {
        Some("VRChat が起動しました！ログの追跡を開始します。"@)
    } else if key == "vrchat_was_running_catchup"@ {
        Some("VRChat が実行中です。現在のルームを特定するためにファイルをス캔しています..."@)
    } else if key == "resuming_log_tracking"@ {
        Some("オフセット {} からログの追跡を再開します"@)
    } else if key == "scanning_from_eof"@ {
        Some("現在のログファイルの末尾からスキャンを開始します。"@)
    } else if key == "catchup_player_joined"@ {
        Some("キャッチアップ: Idle 状態でプレイヤーの入室を検出。强制的に InWorld に移行します。"@)
    } else if key == "catchup_player_left"@ {
        Some("キャッチアップ: Idle 状態でプレイヤーの退室を検出。强制的に InWorld に移行します。"@)
    } else if key == "auto_start_detected_pid"@ {
        Some("自動起動: InWorld 状態で VRChat PID {} を検出。録音の開始を試みます。"@)
    } else {
        None
    }
}

/// Looks `key` up in the Ja catalogue.
#[verifier::rlimit(100)]
fn ja_lookup(key: &[char]) -> (r: Option<&'static str>)
    ensures
        text_view(r) == ja_text(key@),
{
    if eq_lit(key, "db_initialized") {
        return Some("データベースを初期化しました: {}");
    }
    if eq_lit(key, "authenticating") {
        return Some("認証中...");
    }
    if eq_lit(key, "auth_success") {
        return Some("認証成功");
    }
    if eq_lit(key, "tfa_required") {
        return Some("[2FA] 二要素認証が必要です (方式: {})");
    }
    if eq_lit(key, "tfa_prompt") {
        return Some("[2FA] 認証コードを入力してください（スキップする場合は空のまま入力）: ");
    }
    if eq_lit(key, "tfa_skipped") {
        return Some("認証コードが入力されなかったため、2FAをスキップしました。");
    }
    if eq_lit(key, "tfa_verifying") {
        return Some("[2FA] 検証中 (タイプ: {})...");
    }
    if eq_lit(key, "tfa_success") {
        return Some("2FA認証に成功しました！");
    }
    if eq_lit(key, "tfa_failed") {
        return Some("[2FA] 検証失敗: {}");
    }
    if eq_lit(key, "tfa_retry") {
        return Some("[2FA] もう一度お試しください。");
    }
    if eq_lit(key, "auth_failed") {
        return Some("認証失敗: {}");
    }
    if eq_lit(key, "mic_device_env") {
        return Some("マイクデバイス (環境変数): \"{}\"");
    }
    if eq_lit(key, "mic_device_reg") {
        return Some("マイクデバイス (VRChatレジストリ)");
    }
    if eq_lit(key, "mic_device_default") {
        return Some("システムデフォルトのマイクデバイスを使用");
    }
    if eq_lit(key, "mic_recording_status") {
        return Some("マイク録音: {}");
    }
    if eq_lit(key, "enabled") {
        return Some("有効");
    }
    if eq_lit(key, "disabled") {
        return Some("無効");
    }
    if eq_lit(key, "api_server_started") {
        return Some("--- APIサーバーが起動しました: http://127.0.0.1:3001 ---");
    }
    if eq_lit(key, "server_error") {
        return Some("サーバーエラー: {}");
    }
    if eq_lit(key, "watcher_started") {
        return Some("VRChat監視が開始されました。Ctrl+Cで停止します");
    }
    if eq_lit(key, "shutdown_saving_recording") {
        return Some("終了前に録音を保存しています...");
    }
    if eq_lit(key, "exited") {
        return Some("終了しました");
    }
    if eq_lit(key, "audio_ready") {
        return Some("オーディオ準備完了: VRChatボイスチャンネルに接続されました。");
    }
    if eq_lit(key, "vrchat_exited") {
        return Some("VRChatプロセスが終了しました。録音を終了しています...");
    }
    if eq_lit(key, "world") {
        return Some("ワールド: {}");
    }
    if eq_lit(key, "instance") {
        return Some("インスタンス: {}");
    }
    if eq_lit(key, "unknown_world") {
        return Some("未知のワールド");
    }
    if eq_lit(key, "unknown_instance") {
        return Some("未知のインスタンス");
    }
    if eq_lit(key, "mic_start") {
        return Some("🎤 録音開始 (Join, PID {}): {} ({})");
    }
    if eq_lit(key, "mic_start_failed") {
        return Some("録音の開始に失敗しました: {}");
    }
    if eq_lit(key, "mic_capture_success") {
        return Some("マイクキャプチャが正常に初期化されました。");
    }
    if eq_lit(key, "mic_capture_failed") {
        return Some("マイクキャプチャの設定に失敗しました: {}。VRChatの音声のみを録音します。");
    }
    if eq_lit(key, "mic_recording_disabled") {
        return Some("マイク録音が無効になっています。");
    }
    if eq_lit(key, "with_mic") {
        return Some(" (マイク込み)");
    }
    if eq_lit(key, "vrchat_exited_stop") {
        return Some("VRChatプロセスが終了しました。録音を停止します");
    }
    if eq_lit(key, "recording_stopped") {
        return Some("録音停止。長さ: {:.1}s");
    }
    if eq_lit(key, "unknown_device") {
        return Some("不明");
    }
    if eq_lit(key, "using_mic_device") {
        return Some("マイクデバイスを使用中: \"{}\"");
    }
    if eq_lit(key, "found_mic_device") {
        return Some("マイクデバイスが見つかりました: \"{}\"");
    }
    if eq_lit(key, "no_vrchat_process") {
        return Some("VRChatプロセスが見つからないため、インスタンス録音信号をスキップしました。");
    }
    if eq_lit(key, "recording_output_dir") {
        return Some("録音出力ディレクトリ: {}");
    }
    if eq_lit(key, "timeline_title") {
        return Some("# 🎤 録音記録 - {}");
    }
    if eq_lit(key, "world_name_label") {
        return Some("ワールド名");
    }
    if eq_lit(key, "instance_id_label") {
        return Some("インスタンス ID");
    }
    if eq_lit(key, "recording_start_label") {
        return Some("録音開始");
    }
    if eq_lit(key, "recording_status_active") {
        return Some("録音ステータス: 🔴 録音中...");
    }
    if eq_lit(key, "player_timeline_title") {
        return Some("## 👥 プレイヤータイムライン");
    }
    if eq_lit(key, "table_header_time") {
        return Some("時間");
    }
    if eq_lit(key, "table_header_offset") {
        return Some("オフセット");
    }
    if eq_lit(key, "table_header_event") {
        return Some("イベント");
    }
    if eq_lit(key, "table_header_player") {
        return Some("プレイヤー名");
    }
    if eq_lit(key, "table_header_uid") {
        return Some("ユーザー ID");
    }
    if eq_lit(key, "timeline_header_written") {
        return Some("タイムラインヘッダーが書き込まれました: {}");
    }
    if eq_lit(key, "audio_recording_started") {
        return Some("PID {} オーディオ録音が開始されました");
    }
    if eq_lit(key, "audio_recording_start_failed") {
        return Some("オーディオ録音の開始に失敗しました: {}。タイムラインのみを続行します（オーディオなし）。");
    }
    if eq_lit(key, "timeline_write_failed") {
        return Some("タイムラインイベントの書き込みに失敗しました: {}");
    }
    if eq_lit(key, "event_joined") {
        return Some("➡️ 入室");
    }
    if eq_lit(key, "event_left") {
        return Some("⬅️ 退室");
    }
    if eq_lit(key, "stop_recorder_error") {
        return Some("レコーダー停止中にエラーが発生しました: {}");
    }
    if eq_lit(key, "rename_dir_failed") {
        return Some("録音ディレクトリ（期間を含む）のリネームに失敗しました");
    }
    if eq_lit(key, "session_saved") {
        return Some("セッションが保存されました: {} ({:.0}s, {} イベント)");
    }
    if eq_lit(key, "recording_end_label") {
        return Some("録音終了");
    }
    if eq_lit(key, "recording_duration_label") {
        return Some("録音時間");
    }
    if eq_lit(key, "mins_label") {
        return Some("分");
    }
    if eq_lit(key, "secs_label") {
        return Some("秒");
    }
    if eq_lit(key, "audio_file_label") {
        return Some("オーディオファイル");
    }
    if eq_lit(key, "no_audio_recorded") {
        return Some("❌ 録音に失敗しました");
    }
    if eq_lit(key, "no_player_events") {
        return Some("*（このセッションではプレイヤーの入退室イベントはありませんでした）*");
    }
    if eq_lit(key, "duration_format_h_m") {
        return Some("{}時間{}分");
    }
    if eq_lit(key, "duration_format_m") {
        return Some("{}分");
    }
    if eq_lit(key, "duration_format_s") {
        return Some("{}秒");
    }
    if eq_lit(key, "player_joined") {
        return Some("入室: {}{}");
    }
    if eq_lit(key, "player_left") {
        return Some("退室: {}");
    }
    if eq_lit(key, "recording_finished") {
        return Some("録音終了 ({}): {}");
    }
    if eq_lit(key, "recording_save_failed") {
        return Some("録音の保存に失敗しました: {}");
    }
    if eq_lit(key, "use_proxy") {
        return Some("プロキシを使用: {}");
    }
    if eq_lit(key, "direct_connection") {
        return Some("プロキシが設定されていないため、直接接続します。");
    }
    if eq_lit(key, "cookie_loaded") {
        return Some("データベースからCookieを読み込みました。");
    }
    if eq_lit(key, "auto_login_rate_limited") {
        return Some("自動ログインの制限に達しました（1時間に最大 {} 回）。スキップしました。");
    }
    if eq_lit(key, "status_401") {
        return Some("エンドポイント {} が 401 を返しました。自動ログインを試行します...");
    }
    if eq_lit(key, "auto_login_success") {
        return Some("自動ログイン成功、再試行中...");
    }
    if eq_lit(key, "auth_step_1") {
        return Some("[認証] ステップ 1: API の可用性を確認中 (GET /config)...");
    }
    if eq_lit(key, "api_available") {
        return Some("[認証] API は利用可能です。");
    }
    if eq_lit(key, "config_check_failed") {
        return Some("[認証] API 設定の確認に失敗しました: {}");
    }
    if eq_lit(key, "auth_step_2") {
        return Some("[認証] ステップ 2: 既存のセッションを確認中...");
    }
    if eq_lit(key, "current_user") {
        return Some("[認証] 既存のセッションは有効です。現在のユーザー: {}");
    }
    if eq_lit(key, "session_require_2fa") {
        return Some("[認証] セッションに二要素認証が必要です。");
    }
    if eq_lit(key, "no_session") {
        return Some("[認証] 有効なセッションがありません。ログインを試行します...");
    }
    if eq_lit(key, "auth_step_3") {
        return Some("[認証] ステップ 3: 認証情報でログイン中...");
    }
    if eq_lit(key, "login_success") {
        return Some("[認証] ログイン成功。現在のユーザー: {}");
    }
    if eq_lit(key, "login_require_2fa") {
        return Some("[認証] ログインに二要素認証が必要です。");
    }
    if eq_lit(key, "login_failed") {
        return Some("[認証] ログイン失敗: {}");
    }
    if eq_lit(key, "no_credentials") {
        return Some("[認証] 認証情報が設定されていません。API経由でログインしてください。");
    }
    if eq_lit(key, "logout_success") {
        return Some("ログアウトし、Cookieをクリアしました。");
    }
    if eq_lit(key, "new_log_file") {
        return Some("新しいログファイルを検出しました: {}");
    }
    if eq_lit(key, "watching_directory") {
        return Some("ログ監視を開始しました。監視ディレクトリ: {}");
    }
    if eq_lit(key, "env_not_found") {
        return Some(".envファイルが見つかりません。{}から新しく作成しています...");
    }
    if eq_lit(key, "env_created") {
        return Some(".envファイルを作成しました。設定（Cookieなど）を確認して構成してください。");
    }
    if eq_lit(key, "env_creation_failed") {
        return Some(".envファイルの作成に失敗しました: {}");
    }
    if eq_lit(key, "bio_fetch_started") {
        return Some("ユーザーBIO取得のバックグラウンドタスクが開始されました (最大 30回/分)");
    }
    if eq_lit(key, "bio_rate_limit_wait") {
        return Some("BIO取得のレート制限に達しました。{} のリクエストをキューに入れています...");
    }
    if eq_lit(key, "bio_saved") {
        return Some("ユーザーBIOを保存しました: {}");
    }
    if eq_lit(key, "bio_symlink_success") {
        return Some("{} にユーザー {} のBIOシンボリックリンクを作成しました");
    }
    if eq_lit(key, "bio_symlink_failed") {
        return Some("シンボリックリンクの作成に失敗したため、ユーザー {} のBIOをコピーしました");
    }
    if eq_lit(key, "bio_queue_skipped_no_login") {
        return Some("{} のBIO取得をスキップしました (API経由でログインしていません)");
    }
    if eq_lit(key, "pacing_evaluating_bio") {
        return Some("ポーリングチェック: {} ({}) の BIO を評価中");
    }
    if eq_lit(key, "pacing_fetch_failed") {
        return Some("ポーリング取得失敗: {}。60秒間待機します。");
    }
    if eq_lit(key, "pacing_wait_for_vrchat") {
        return Some("VRChat の起動を待機中...");
    }
    if eq_lit(key, "vrchat_started_tracking") {
        return Some("VRChat が起動しました！ログの追跡を開始します。");
    }
    if eq_lit(key, "vrchat_was_running_catchup") {
        return Some("VRChat が実行中です。現在のルームを特定するためにファイルをス캔しています...");
    }
    if eq_lit(key, "resuming_log_tracking") {
        return Some("オフセット {} からログの追跡を再開します");
    }
    if eq_lit(key, "scanning_from_eof") {
        return Some("現在のログファイルの末尾からスキャンを開始します。");
    }
    if eq_lit(key, "catchup_player_joined") {
        return Some("キャッチアップ: Idle 状態でプレイヤーの入室を検出。强制的に InWorld に移行します。");
    }
    if eq_lit(key, "catchup_player_left") {
        return Some("キャッチアップ: Idle 状態でプレイヤーの退室を検出。强制的に InWorld に移行します。");
    }
    if eq_lit(key, "auto_start_detected_pid") {
        return Some("自動起動: InWorld 状態で VRChat PID {} を検出。録音の開始を試みます。");
    }
    None
}

/// The Ko catalogue.
pub open spec fn ko_text(key: Seq<char>) -> Option<Seq<char>> {
    if key == "db_initialized"@ {
        Some("데이터베이스 초기화됨: {}"@)
    } else if key == "authenticating"@ {
        Some("인증 중..."@)
    } else if key == "auth_success"@ {
        Some("인증 성공"@)
    } else if key == "tfa_required"@ {
        Some("[2FA] 2단계 인증이 필요합니다 (방식: {})"@)
    } else if key == "tfa_prompt"@ {
        Some("[2FA] 인증 코드를 입력하세요 (건너뛰려면 빈칸 입력): "@)
    } else if key == "tfa_skipped"@ {
        Some("인증 코드가 입력되지 않았습니다. 2단계 인증을 건너뜁니다."@)
    } else if key == "tfa_verifying"@ {
        Some("[2FA] 확인 중 (유형: {})..."@)
    } else if key == "tfa_success"@ {
        Some("2단계 인증 성공! 인증되었습니다."@)
    } else if key == "tfa_failed"@ {
        Some("[2FA] 확인 실패: {}"@)
    } else if key == "tfa_retry"@ {
        Some("[2FA] 다시 시도해 주세요."@)
    } else if key == "auth_failed"@ {
        Some("인증 실패: {}"@)
    } else if key == "mic_device_env"@ {
        Some("마이크 장치 (환경 변수): \"{}\""@)
    } else if key == "mic_device_reg"@ {
        Some("마이크 장치 (VRChat 레지스트리)"@)
    } else if key == "mic_device_default"@ {
        Some("시스템 기본 마이크 장치를 사용합니다"@)
    } else if key == "mic_recording_status"@ {
        Some("마이크 녹음: {}"@)
    } else if key == "enabled"@ {
        Some("활성화됨"@)
    } else if key == "disabled"@ {
        Some("비활성화됨"@)
    } else if key == "api_server_started"@ {
        Some("--- API 서버 시작됨: http://127.0.0.1:3001 ---"@)
    } else if key == "server_error"@ {
        Some("서버 오류: {}"@)
    } else if key == "watcher_started"@ {
        Some("VRChat 모니터링이 시작되었습니다. Ctrl+C를 눌러 중지하세요"@)
    } else if key == "shutdown_saving_recording"@ {
        Some("종료 전 녹음 저장 중..."@)
    } else if key == "exited"@ {
        Some("종료됨"@)
    } else if key == "audio_ready"@ {
        Some("오디오 준비됨: VRChat 음성 채널에 연결되었습니다."@)
    } else if key == "vrchat_exited"@ {
        Some("VRChat 프로세스가 종료되었습니다. 녹음을 종료합니다..."@)
    } else if key == "world"@ {
        Some("월드: {}"@)
    } else if key == "instance"@ {
        Some("인스턴스: {}"@)
    } else if key == "unknown_world"@ {
        Some("알 수 없는 월드"@)
    } else if key == "unknown_instance"@ {
        Some("알 수 없는 인스턴스"@)
    } else if key == "mic_start"@ {
        Some("🎤 녹음 시작 (Join, PID {}): {} ({})"@)
    } else if key == "mic_start_failed"@ {
        Some("녹음 시작 실패: {}"@)
    } else if key == "mic_capture_success"@ {
        Some("마이크 캡처가 성공적으로 초기화되었습니다."@)
    } else if key == "mic_capture_failed"@ {
        Some("마이크 캡처 설정 실패: {}。VRChat 오디오만 녹음합니다."@)
    } else if key == "mic_recording_disabled"@ {
        Some("마이크 녹음이 비활성화되었습니다."@)
    } else if key == "with_mic"@ {
        Some(" (마이크 포함)"@)
    } else if key == "vrchat_exited_stop"@ {
        Some("VRChat 프로세스가 종료되어 녹음을 중지합니다"@)
    } else if key == "recording_stopped"@ {
        Some("녹음 중지됨. 길이: {:.1}s"@)
    } else if key == "unknown_device"@ {
        Some("알 수 없음"@)
    } else if key == "using_mic_device"@ {
        Some("마이크 장치 사용 중: \"{}\""@)
    } else if key == "found_mic_device"@ {
        Some("마이크 장치를 찾았습니다: \"{}\""@)
    } else if key == "no_vrchat_process"@ {
        Some("VRChat 프로세스를 찾을 수 없습니다. 인스턴스 녹음 신호를 건너뜁니다."@)
    } else if key == "recording_output_dir"@ {
        Some("녹음 출력 디렉터리: {}"@)
    } else if key == "timeline_title"@ {
        Some("# 🎤 녹음 기록 - {}"@)
    } else if key == "world_name_label"@ {
        Some("월드 이름"@)
    } else if key == "instance_id_label"@ {
        Some("인스턴스 ID"@)
    } else if key == "recording_start_label"@ {
        Some("녹음 시작"@)
    } else if key == "recording_status_active"@ {
        Some("녹음 상태: 🔴 녹음 중..."@)
    } else if key == "player_timeline_title"@ {
        Some("## 👥 플레이어 타임라인"@)
    } else if key == "table_header_time"@ {
        Some("시간"@)
    } else if key == "table_header_offset"@ {
        Some("오프셋"@)
    } else if key == "table_header_event"@ {
        Some("이벤트"@)
    } else if key == "table_header_player"@ {
        Some("플레이어 이름"@)
    } else if key == "table_header_uid"@ {
        Some("사용자 ID"@)
    } else if key == "timeline_header_written"@ {
        Some("타임라인 헤더가 기록되었습니다: {}"@)
    } else if key == "audio_recording_started"@ {
        Some("PID {} 오디오 녹음이 시작되었습니다"@)
    } else if key == "audio_recording_start_failed"@ {
        Some("오디오 녹음 시작 실패: {}。타임라인만 계속합니다(오디오 없음)."@)
    } else if key == "timeline_write_failed"@ {
        Some("타임라인 이벤트 기록 실패: {}"@)
    } else if key == "event_joined"@ {
        Some("➡️ 입장"@)
    } else if key == "event_left"@ {
        Some("⬅️ 퇴장"@)
    } else if key == "stop_recorder_error"@ {
        Some("레코더 중지 중 오류 발생: {}"@)
    } else if key == "rename_dir_failed"@ {
        Some("녹음 디렉터리(기간 포함) 이름 변경 실패"@)
    } else if key == "session_saved"@ {
        Some("세션 저장됨: {} ({:.0}s, {} 이벤트)"@)
    } else if key == "recording_end_label"@ {
        Some("녹음 종료"@)
    } else if key == "recording_duration_label"@ {
        Some("녹음 시간"@)
    } else if key == "mins_label"@ {
        Some("분"@)
    } else if key == "secs_label"@ {
        Some("초"@)
    } else if key == "audio_file_label"@ {
        Some("오디오 파일"@)
    } else if key == "no_audio_recorded"@ {
        Some("❌ 녹음 실패"@)
    } else if key == "no_player_events"@ {
        Some("*(이 세션에는 플레이어 입장/퇴장 이벤트가 없습니다)*"@)
    } else if key == "duration_format_h_m"@ {
        Some("{}시간{}분"@)
    } else if key == "duration_format_m"@ {
        Some("{}분"@)
    } else if key == "duration_format_s"@ {
        Some("{}초"@)
    } else if key == "player_joined"@ {
        Some("입장: {}{}"@)
    } else if key == "player_left"@ {
        Some("퇴장: {}"@)
    } else if key == "recording_finished"@ {
        Some("녹음 종료 ({}): {}"@)
    } else if key == "recording_save_failed"@ {
        Some("녹음 저장 실패: {}"@)
    } else if key == "use_proxy"@ {
        Some("프록시 사용: {}"@)
    } else if key == "direct_connection"@ {
        Some("프록시가 설정되지 않았습니다. 직접 연결합니다."@)
    } else if key == "cookie_loaded"@ {
        Some("데이터베이스에서 쿠키를 로드했습니다."@)
    } else if key == "auto_login_rate_limited"@ {
        Some("자동 로그인 빈도 제한에 도달했습니다(1시간 내 최대 {}회). 건너뜁니다."@)
    } else if key == "status_401"@ {
        Some("엔드포인트 {}에서 401을 반환했습니다. 자동 로그인을 시도합니다..."@)
    } else if key == "auto_login_success"@ {
        Some("자동 로그인 성공, 다시 시도 중..."@)
    } else if key == "auth_step_1"@ {
        Some("[인증] 1단계: API 가용성 확인 중 (GET /config)..."@)
    } else if key == "api_available"@ {
        Some("[인증] API 사용 가능."@)
    } else if key == "config_check_failed"@ {
        Some("[인증] API 설정 확인 실패: {}"@)
    } else if key == "auth_step_2"@ {
        Some("[인증] 2단계: 기존 세션 확인 중..."@)
    } else if key == "current_user"@ {
        Some("[인증] 기존 세션이 유효합니다. 현재 사용자: {}"@)
    } else if key == "session_require_2fa"@ {
        Some("[인증] 세션에 2단계 인증이 필요합니다."@)
    } else if key == "no_session"@ {
        Some("[인증] 유효한 세션이 없습니다. 로그인을 시도합니다..."@)
    } else if key == "auth_step_3"@ {
        Some("[인증] 3단계: 계정 정보로 로그인 중..."@)
    } else if key == "login_success"@ {
        Some("[인증] 로그인 성공. 현재 사용자: {}"@)
    } else if key == "login_require_2fa"@ {
        Some("[인증] 로그인에 2단계 인증이 필요합니다."@)
    } else if key == "login_failed"@ {
        Some("[인증] 로그인 실패: {}"@)
    } else if key == "no_credentials"@ {
        Some("[인증] 계정 정보가 설정되지 않았습니다. API를 통해 로그인해 주세요."@)
    } else if key == "logout_success"@ {
        Some("로그아웃하고 쿠키를 삭제했습니다."@)
    } else if key == "new_log_file"@ {
        Some("새 로그 파일 감지됨: {}"@)
    } else if key == "watching_directory"@ {
        Some("로그 감시가 시작되었습니다. 모니터링 디렉터리: {}"@)
    } else if key == "env_not_found"@ {
        Some(".env 파일을 찾을 수 없습니다. {}에서 새 파일을 생성하는 중..."@)
    } else if key == "env_created"@ {
        Some(".env 파일이 생성되었습니다. 열어서 설정을 구성해 주세요."@)
    } else if key == "env_creation_failed"@ {
        Some(".env 파일 생성 실패: {}"@)
    } else if key == "bio_fetch_started"@ {
        Some("사용자 BIO 가져오기 백그라운드 작업이 시작되었습니다 (최대 30회/분)"@)
    } else if key == "bio_rate_limit_wait"@ {
        Some("BIO 가져오기 속도 제한에 도달했습니다. {}의 요청을 대기열에 추가하는 중..."@)
    } else if key == "bio_saved"@ {
        Some("사용자 BIO 저장됨: {}"@)
    } else if key == "bio_symlink_success"@ {
        Some("{}에 사용자 {}의 BIO 심볼릭 링크를 생성했습니다"@)
    } else if key == "bio_symlink_failed"@ {
        Some("심볼릭 링크 생성 실패, 사용자 {}의 BIO를 복사했습니다"@)
    } else if key == "bio_fetch_failed"@ {
        Some("사용자 {}의 BIO 가져오기 실패: {}"@)
    } else if key == "bio_queue_skipped_no_login"@ {
        Some("{} BIO 가져오기 건너뜀 (API를 통해 로그인 안 됨)"@)
    } else if key == "pacing_evaluating_bio"@ {
        Some("폴링 체크: {} ({})의 BIO 평가 중"@)
    } else if key == "pacing_fetch_failed"@ {
        Some("폴링 가져오기 실패: {}。60초 동안 대기합니다."@)
    } else if key == "pacing_wait_for_vrchat"@ {
        Some("VRChat 시작 대기 중..."@)
    } else if key == "vrchat_started_tracking"@ {
        Some("VRChat이 시작되었습니다! 로그 추적을 시작합니다."@)
    } else if key == "vrchat_was_running_catchup"@ {
        Some("VRChat이 실행 중입니다. 현재 방을 찾기 위해 파일을 스캔하는 중..."@)
    } else if key == "resuming_log_tracking"@ {
        Some("오프셋 {}에서 로그 추적을 재개합니다"@)
    } else if key == "scanning_from_eof"@ {
        Some("현재 로그 파일의 끝부터 스캔을 시작합니다."@)
    } else if key == "catchup_player_joined"@ {
        Some("캐치업: Idle 상태에서 플레이어 입장을 감지. 강제로 InWorld로 전환합니다."@)
    } else if key == "catchup_player_left"@ {
        Some("캐치업: Idle 상태에서 플레이어 퇴장을 감지. 강제로 InWorld로 전환합니다."@)
    } else if key == "auto_start_detected_pid"@ {
        Some("자동 시작: InWorld 상태에서 VRChat PID {} 감지. 녹음 시작을 시도합니다."@)
    } else {
        None
    }
}

/// Looks `key` up in the Ko catalogue.
#[verifier::rlimit(100)]
fn ko_lookup(key: &[char]) -> (r: Option<&'static str>)
    ensures
        text_view(r) == ko_text(key@),
{
    if eq_lit(key, "db_initialized") {
        return Some("데이터베이스 초기화됨: {}");
    }
    if eq_lit(key, "authenticating") {
        return Some("인증 중...");
    }
    if eq_lit(key, "auth_success") {
        return Some("인증 성공");
    }
    if eq_lit(key, "tfa_required") {
        return Some("[2FA] 2단계 인증이 필요합니다 (방식: {})");
    }
    if eq_lit(key, "tfa_prompt") {
        return Some("[2FA] 인증 코드를 입력하세요 (건너뛰려면 빈칸 입력): ");
    }
    if eq_lit(key, "tfa_skipped") {
        return Some("인증 코드가 입력되지 않았습니다. 2단계 인증을 건너뜁니다.");
    }
    if eq_lit(key, "tfa_verifying") {
        return Some("[2FA] 확인 중 (유형: {})...");
    }
    if eq_lit(key, "tfa_success") {
        return Some("2단계 인증 성공! 인증되었습니다.");
    }
    if eq_lit(key, "tfa_failed") {
        return Some("[2FA] 확인 실패: {}");
    }
    if eq_lit(key, "tfa_retry") {
        return Some("[2FA] 다시 시도해 주세요.");
    }
    if eq_lit(key, "auth_failed") {
        return Some("인증 실패: {}");
    }
    if eq_lit(key, "mic_device_env") {
        return Some("마이크 장치 (환경 변수): \"{}\"");
    }
    if eq_lit(key, "mic_device_reg") {
        return Some("마이크 장치 (VRChat 레지스트리)");
    }
    if eq_lit(key, "mic_device_default") {
        return Some("시스템 기본 마이크 장치를 사용합니다");
    }
    if eq_lit(key, "mic_recording_status") {
        return Some("마이크 녹음: {}");
    }
    if eq_lit(key, "enabled") {
        return Some("활성화됨");
    }
    if eq_lit(key, "disabled") {
        return Some("비활성화됨");
    }
    if eq_lit(key, "api_server_started") {
        return Some("--- API 서버 시작됨: http://127.0.0.1:3001 ---");
    }
    if eq_lit(key, "server_error") {
        return Some("서버 오류: {}");
    }
    if eq_lit(key, "watcher_started") {
        return Some("VRChat 모니터링이 시작되었습니다. Ctrl+C를 눌러 중지하세요");
    }
    if eq_lit(key, "shutdown_saving_recording") {
        return Some("종료 전 녹음 저장 중...");
    }
    if eq_lit(key, "exited") {
        return Some("종료됨");
    }
    if eq_lit(key, "audio_ready") {
        return Some("오디오 준비됨: VRChat 음성 채널에 연결되었습니다.");
    }
    if eq_lit(key, "vrchat_exited") {
        return Some("VRChat 프로세스가 종료되었습니다. 녹음을 종료합니다...");
    }
    if eq_lit(key, "world") {
        return Some("월드: {}");
    }
    if eq_lit(key, "instance") {
        return Some("인스턴스: {}");
    }
    if eq_lit(key, "unknown_world") {
        return Some("알 수 없는 월드");
    }
    if eq_lit(key, "unknown_instance") {
        return Some("알 수 없는 인스턴스");
    }
    if eq_lit(key, "mic_start") {
        return Some("🎤 녹음 시작 (Join, PID {}): {} ({})");
    }
    if eq_lit(key, "mic_start_failed") {
        return Some("녹음 시작 실패: {}");
    }
    if eq_lit(key, "mic_capture_success") {
        return Some("마이크 캡처가 성공적으로 초기화되었습니다.");
    }
    if eq_lit(key, "mic_capture_failed") {
        return Some("마이크 캡처 설정 실패: {}。VRChat 오디오만 녹음합니다.");
    }
    if eq_lit(key, "mic_recording_disabled") {
        return Some("마이크 녹음이 비활성화되었습니다.");
    }
    if eq_lit(key, "with_mic") {
        return Some(" (마이크 포함)");
    }
    if eq_lit(key, "vrchat_exited_stop") {
        return Some("VRChat 프로세스가 종료되어 녹음을 중지합니다");
    }
    if eq_lit(key, "recording_stopped") {
        return Some("녹음 중지됨. 길이: {:.1}s");
    }
    if eq_lit(key, "unknown_device") {
        return Some("알 수 없음");
    }
    if eq_lit(key, "using_mic_device") {
        return Some("마이크 장치 사용 중: \"{}\"");
    }
    if eq_lit(key, "found_mic_device") {
        return Some("마이크 장치를 찾았습니다: \"{}\"");
    }
    if eq_lit(key, "no_vrchat_process") {
        return Some("VRChat 프로세스를 찾을 수 없습니다. 인스턴스 녹음 신호를 건너뜁니다.");
    }
    if eq_lit(key, "recording_output_dir") {
        return Some("녹음 출력 디렉터리: {}");
    }
    if eq_lit(key, "timeline_title") {
        return Some("# 🎤 녹음 기록 - {}");
    }
    if eq_lit(key, "world_name_label") {
        return Some("월드 이름");
    }
    if eq_lit(key, "instance_id_label") {
        return Some("인스턴스 ID");
    }
    if eq_lit(key, "recording_start_label") {
        return Some("녹음 시작");
    }
    if eq_lit(key, "recording_status_active") {
        return Some("녹음 상태: 🔴 녹음 중...");
    }
    if eq_lit(key, "player_timeline_title") {
        return Some("## 👥 플레이어 타임라인");
    }
    if eq_lit(key, "table_header_time") {
        return Some("시간");
    }
    if eq_lit(key, "table_header_offset") {
        return Some("오프셋");
    }
    if eq_lit(key, "table_header_event") {
        return Some("이벤트");
    }
    if eq_lit(key, "table_header_player") {
        return Some("플레이어 이름");
    }
    if eq_lit(key, "table_header_uid") {
        return Some("사용자 ID");
    }
    if eq_lit(key, "timeline_header_written") {
        return Some("타임라인 헤더가 기록되었습니다: {}");
    }
    if eq_lit(key, "audio_recording_started") {
        return Some("PID {} 오디오 녹음이 시작되었습니다");
    }
    if eq_lit(key, "audio_recording_start_failed") {
        return Some("오디오 녹음 시작 실패: {}。타임라인만 계속합니다(오디오 없음).");
    }
    if eq_lit(key, "timeline_write_failed") {
        return Some("타임라인 이벤트 기록 실패: {}");
    }
    if eq_lit(key, "event_joined") {
        return Some("➡️ 입장");
    }
    if eq_lit(key, "event_left") {
        return Some("⬅️ 퇴장");
    }
    if eq_lit(key, "stop_recorder_error") {
        return Some("레코더 중지 중 오류 발생: {}");
    }
    if eq_lit(key, "rename_dir_failed") {
        return Some("녹음 디렉터리(기간 포함) 이름 변경 실패");
    }
    if eq_lit(key, "session_saved") {
        return Some("세션 저장됨: {} ({:.0}s, {} 이벤트)");
    }
    if eq_lit(key, "recording_end_label") {
        return Some("녹음 종료");
    }
    if eq_lit(key, "recording_duration_label") {
        return Some("녹음 시간");
    }
    if eq_lit(key, "mins_label") {
        return Some("분");
    }
    if eq_lit(key, "secs_label") {
        return Some("초");
    }
    if eq_lit(key, "audio_file_label") {
        return Some("오디오 파일");
    }
    if eq_lit(key, "no_audio_recorded") {
        return Some("❌ 녹음 실패");
    }
    if eq_lit(key, "no_player_events") {
        return Some("*(이 세션에는 플레이어 입장/퇴장 이벤트가 없습니다)*");
    }
    if eq_lit(key, "duration_format_h_m") {
        return Some("{}시간{}분");
    }
    if eq_lit(key, "duration_format_m") {
        return Some("{}분");
    }
    if eq_lit(key, "duration_format_s") {
        return Some("{}초");
    }
    if eq_lit(key, "player_joined") {
        return Some("입장: {}{}");
    }
    if eq_lit(key, "player_left") {
        return Some("퇴장: {}");
    }
    if eq_lit(key, "recording_finished") {
        return Some("녹음 종료 ({}): {}");
    }
    if eq_lit(key, "recording_save_failed") {
        return Some("녹음 저장 실패: {}");
    }
    if eq_lit(key, "use_proxy") {
        return Some("프록시 사용: {}");
    }
    if eq_lit(key, "direct_connection") {
        return Some("프록시가 설정되지 않았습니다. 직접 연결합니다.");
    }
    if eq_lit(key, "cookie_loaded") {
        return Some("데이터베이스에서 쿠키를 로드했습니다.");
    }
    if eq_lit(key, "auto_login_rate_limited") {
        return Some("자동 로그인 빈도 제한에 도달했습니다(1시간 내 최대 {}회). 건너뜁니다.");
    }
    if eq_lit(key, "status_401") {
        return Some("엔드포인트 {}에서 401을 반환했습니다. 자동 로그인을 시도합니다...");
    }
    if eq_lit(key, "auto_login_success") {
        return Some("자동 로그인 성공, 다시 시도 중...");
    }
    if eq_lit(key, "auth_step_1") {
        return Some("[인증] 1단계: API 가용성 확인 중 (GET /config)...");
    }
    if eq_lit(key, "api_available") {
        return Some("[인증] API 사용 가능.");
    }
    if eq_lit(key, "config_check_failed") {
        return Some("[인증] API 설정 확인 실패: {}");
    }
    if eq_lit(key, "auth_step_2") {
        return Some("[인증] 2단계: 기존 세션 확인 중...");
    }
    if eq_lit(key, "current_user") {
        return Some("[인증] 기존 세션이 유효합니다. 현재 사용자: {}");
    }
    if eq_lit(key, "session_require_2fa") {
        return Some("[인증] 세션에 2단계 인증이 필요합니다.");
    }
    if eq_lit(key, "no_session") {
        return Some("[인증] 유효한 세션이 없습니다. 로그인을 시도합니다...");
    }
    if eq_lit(key, "auth_step_3") {
        return Some("[인증] 3단계: 계정 정보로 로그인 중...");
    }
    if eq_lit(key, "login_success") {
        return Some("[인증] 로그인 성공. 현재 사용자: {}");
    }
    if eq_lit(key, "login_require_2fa") {
        return Some("[인증] 로그인에 2단계 인증이 필요합니다.");
    }
    if eq_lit(key, "login_failed") {
        return Some("[인증] 로그인 실패: {}");
    }
    if eq_lit(key, "no_credentials") {
        return Some("[인증] 계정 정보가 설정되지 않았습니다. API를 통해 로그인해 주세요.");
    }
    if eq_lit(key, "logout_success") {
        return Some("로그아웃하고 쿠키를 삭제했습니다.");
    }
    if eq_lit(key, "new_log_file") {
        return Some("새 로그 파일 감지됨: {}");
    }
    if eq_lit(key, "watching_directory") {
        return Some("로그 감시가 시작되었습니다. 모니터링 디렉터리: {}");
    }
    if eq_lit(key, "env_not_found") {
        return Some(".env 파일을 찾을 수 없습니다. {}에서 새 파일을 생성하는 중...");
    }
    if eq_lit(key, "env_created") {
        return Some(".env 파일이 생성되었습니다. 열어서 설정을 구성해 주세요.");
    }
    if eq_lit(key, "env_creation_failed") {
        return Some(".env 파일 생성 실패: {}");
    }
    if eq_lit(key, "bio_fetch_started") {
        return Some("사용자 BIO 가져오기 백그라운드 작업이 시작되었습니다 (최대 30회/분)");
    }
    if eq_lit(key, "bio_rate_limit_wait") {
        return Some("BIO 가져오기 속도 제한에 도달했습니다. {}의 요청을 대기열에 추가하는 중...");
    }
    if eq_lit(key, "bio_saved") {
        return Some("사용자 BIO 저장됨: {}");
    }
    if eq_lit(key, "bio_symlink_success") {
        return Some("{}에 사용자 {}의 BIO 심볼릭 링크를 생성했습니다");
    }
    if eq_lit(key, "bio_symlink_failed") {
        return Some("심볼릭 링크 생성 실패, 사용자 {}의 BIO를 복사했습니다");
    }
    if eq_lit(key, "bio_fetch_failed") {
        return Some("사용자 {}의 BIO 가져오기 실패: {}");
    }
    if eq_lit(key, "bio_queue_skipped_no_login") {
        return Some("{} BIO 가져오기 건너뜀 (API를 통해 로그인 안 됨)");
    }
    if eq_lit(key, "pacing_evaluating_bio") {
        return Some("폴링 체크: {} ({})의 BIO 평가 중");
    }
    if eq_lit(key, "pacing_fetch_failed") {
        return Some("폴링 가져오기 실패: {}。60초 동안 대기합니다.");
    }
    if eq_lit(key, "pacing_wait_for_vrchat") {
        return Some("VRChat 시작 대기 중...");
    }
    if eq_lit(key, "vrchat_started_tracking") {
        return Some("VRChat이 시작되었습니다! 로그 추적을 시작합니다.");
    }
    if eq_lit(key, "vrchat_was_running_catchup") {
        return Some("VRChat이 실행 중입니다. 현재 방을 찾기 위해 파일을 스캔하는 중...");
    }
    if eq_lit(key, "resuming_log_tracking") {
        return Some("오프셋 {}에서 로그 추적을 재개합니다");
    }
    if eq_lit(key, "scanning_from_eof") {
        return Some("현재 로그 파일의 끝부터 스캔을 시작합니다.");
    }
    if eq_lit(key, "catchup_player_joined") {
        return Some("캐치업: Idle 상태에서 플레이어 입장을 감지. 강제로 InWorld로 전환합니다.");
    }
    if eq_lit(key, "catchup_player_left") {
        return Some("캐치업: Idle 상태에서 플레이어 퇴장을 감지. 강제로 InWorld로 전환합니다.");
    }
    if eq_lit(key, "auto_start_detected_pid") {
        return Some("자동 시작: InWorld 상태에서 VRChat PID {} 감지. 녹음 시작을 시도합니다.");
    }
    None
}

} // verus!
