//! The audio side of a recording: finding VRChat's process, the microphone
//! setting, framing captured PCM for the Opus encoder, mixing the microphone
//! in, and the Ogg/Opus header packets.
use vstd::prelude::*;
use vstd::utf8::encode_utf8;

use crate::text::{
    chars_of, string_from, trim, trim_chars, slice_chars,
};
use crate::i18n::{lowercase, to_lowercase};
use crate::watcher::utf8_lossy;

verus! {

/// `sysinfo`: the processes running now, each as its id and its name (lossily
/// decoded). Nothing is claimed of the list, which depends on the machine.
#[verifier::external_body]
fn running_processes() -> (r: Vec<(u32, String)>) {
    let mut system = sysinfo::System::new();
    system.refresh_processes(sysinfo::ProcessesToUpdate::All, true);
    system.processes().iter().map(|(pid, p)| (pid.as_u32(), p.name().to_string_lossy().to_string())).collect()
}

/// `sysinfo`: whether process `pid` runs now. Nothing is claimed of the
/// answer, which depends on the machine.
#[verifier::external_body]
pub fn is_process_running(pid: u32) -> (r: bool) {
    let mut system = sysinfo::System::new();
    let sys_pid = sysinfo::Pid::from_u32(pid);
    system.refresh_processes(sysinfo::ProcessesToUpdate::Some(&[sys_pid]), true);
    system.process(sys_pid).is_some()
}

/// ASCII upper-case letters mapped to lower case; other characters unchanged.
pub open spec fn ascii_lower(c: char) -> char {
    if 'A' <= c && c <= 'Z' {
        ((c as u32) + 32) as char
    } else {
        c
    }
}

/// Equal up to ASCII case (`str::eq_ignore_ascii_case`).
pub open spec fn eq_ignore_ascii_case(a: Seq<char>, b: Seq<char>) -> bool {
    a.len() == b.len() && forall|i: int| 0 <= i < a.len() ==> ascii_lower(a[i]) == ascii_lower(b[i])
}

fn ascii_lower_exec(c: char) -> (r: char)
    ensures
        r == ascii_lower(c),
{
    if 'A' <= c && c <= 'Z' {
        let u = (c as u32) + 32;
        assert(0x61 <= u <= 0x7a);
        u as u8 as char
    } else {
        c
    }
}

/// Compares two texts ignoring ASCII case.
pub fn eq_ignore_case_chars(a: &[char], b: &[char]) -> (r: bool)
    ensures
        r == eq_ignore_ascii_case(a@, b@),
{
    if a.len() != b.len() {
        return false;
    }
    let mut i: usize = 0;
    while i < a.len()
        invariant
            i <= a@.len() == b@.len(),
            forall|j: int| 0 <= j < i ==> ascii_lower(a@[j]) == ascii_lower(b@[j]),
        decreases a@.len() - i,
    {
        if ascii_lower_exec(a[i]) != ascii_lower_exec(b[i]) {
            return false;
        }
        i = i + 1;
    }
    true
}

/// The id of the first process in `procs` whose name is `VRChat.exe`, ignoring
/// ASCII case.
pub fn vrchat_pid_in(procs: &[(u32, String)]) -> (r: Option<u32>)
    ensures
        r matches Some(pid) ==> exists|k: int|
            0 <= k < procs@.len() && procs@[k].0 == pid && eq_ignore_ascii_case(
                procs@[k].1@,
                "VRChat.exe"@,
            ) && forall|j: int|
                0 <= j < k ==> !eq_ignore_ascii_case(#[trigger] procs@[j].1@, "VRChat.exe"@),
        r is None ==> forall|j: int|
            0 <= j < procs@.len() ==> !eq_ignore_ascii_case(#[trigger] procs@[j].1@, "VRChat.exe"@),
{
    let target = chars_of("VRChat.exe");
    let mut i: usize = 0;
    while i < procs.len()
        invariant
            i <= procs@.len(),
            target@ == "VRChat.exe"@,
            forall|j: int|
                0 <= j < i ==> !eq_ignore_ascii_case(#[trigger] procs@[j].1@, "VRChat.exe"@),
        decreases procs@.len() - i,
    {
        let name = chars_of(procs[i].1.as_str());
        if eq_ignore_case_chars(name.as_slice(), target.as_slice()) {
            return Some(procs[i].0);
        }
        i = i + 1;
    }
    None
}

/// Finds the id of a running VRChat process.
pub fn find_vrchat_pid() -> (r: Option<u32>) {
    let procs = running_processes();
    vrchat_pid_in(procs.as_slice())
}

/// Microphone recording settings.
#[derive(Clone, Debug)]
pub struct MicConfig {
    pub enabled: bool,
    pub device_name: Option<String>,
}

/// Whether a `RECORD_MIC` setting turns microphone recording on: `true` in any
/// ASCII case, or `1`.
pub open spec fn record_mic_on(value: Option<Seq<char>>) -> bool {
    match value {
        Some(v) => eq_ignore_ascii_case(v, "true"@) || v == "1"@,
        None => false,
    }
}

/// A `MIC_DEVICE` setting that names a device (not empty once trimmed).
pub open spec fn named_device(value: Option<Seq<char>>) -> Option<Seq<char>> {
    match value {
        Some(v) => if trim(v).len() > 0 {
            Some(v)
        } else {
            None
        },
        None => None,
    }
}

/// The microphone settings: the device of `MIC_DEVICE` takes priority, then
/// the device VRChat has configured, then the system default (`None`); with
/// recording off no device is chosen.
pub open spec fn mic_settings(
    record_mic: Option<Seq<char>>,
    mic_device: Option<Seq<char>>,
    registry_device: Option<Seq<char>>,
) -> (bool, Option<Seq<char>>) {
    if !record_mic_on(record_mic) {
        (false, None)
    } else {
        match named_device(mic_device) {
            Some(d) => (true, Some(d)),
            None => (true, registry_device),
        }
    }
}

impl MicConfig {
    /// Whether VRChat's own device setting is needed: recording is on and
    /// `MIC_DEVICE` names no device.
    pub fn needs_registry_device(record_mic: Option<&str>, mic_device: Option<&str>) -> (r: bool)
        ensures
            r == (record_mic_on(
                match record_mic {
                    Some(s) => Some(s@),
                    None => None,
                },
            ) && named_device(
                match mic_device {
                    Some(s) => Some(s@),
                    None => None,
                },
            ) is None),
    {
        Self::record_mic_enabled(record_mic) && Self::device_setting(mic_device).is_none()
    }

    fn record_mic_enabled(record_mic: Option<&str>) -> (r: bool)
        ensures
            r == record_mic_on(
                match record_mic {
                    Some(s) => Some(s@),
                    None => None,
                },
            ),
    {
        match record_mic {
            Some(v) => {
                let c = chars_of(v);
                let t = chars_of("true");
                let is_true = eq_ignore_case_chars(c.as_slice(), t.as_slice());
                let is_one = c.len() == 1 && c[0] == '1';
                proof {
                    reveal_strlit("1");
                    if is_one {
                        assert(c@ == "1"@);
                    } else if c@ == "1"@ {
                        assert(c@[0] == '1');
                    }
                }
                is_true || is_one
            },
            None => false,
        }
    }

    fn device_setting(mic_device: Option<&str>) -> (r: Option<String>)
        ensures
            (match r {
                Some(s) => Some(s@),
                None => None,
            }) == named_device(
                match mic_device {
                    Some(s) => Some(s@),
                    None => None,
                },
            ),
    {
        match mic_device {
            Some(v) => {
                let c = chars_of(v);
                let t = trim_chars(c.as_slice());
                if t.len() > 0 {
                    Some(v.to_owned())
                } else {
                    None
                }
            },
            None => None,
        }
    }

    /// The settings from `RECORD_MIC`, `MIC_DEVICE` and VRChat's configured device.
    pub fn from_settings(
        record_mic: Option<&str>,
        mic_device: Option<&str>,
        registry_device: Option<String>,
    ) -> (r: MicConfig)
        ensures
            (r.enabled, match r.device_name {
                Some(s) => Some(s@),
                None => None,
            }) == mic_settings(
                match record_mic {
                    Some(s) => Some(s@),
                    None => None,
                },
                match mic_device {
                    Some(s) => Some(s@),
                    None => None,
                },
                match registry_device {
                    Some(s) => Some(s@),
                    None => None,
                },
            ),
    {
        if !Self::record_mic_enabled(record_mic) {
            MicConfig { enabled: false, device_name: None }
        } else {
            match Self::device_setting(mic_device) {
                Some(d) => MicConfig { enabled: true, device_name: Some(d) },
                None => MicConfig { enabled: true, device_name: registry_device },
            }
        }
    }
}

/// `s` without trailing NUL characters.
pub open spec fn trim_nuls(s: Seq<char>) -> Seq<char>
    decreases s.len(),
{
    if s.len() > 0 && s.last() == '\0' {
        trim_nuls(s.drop_last())
    } else {
        s
    }
}

/// The device name stored in VRChat's registry value: the bytes decoded
/// lossily, trailing NULs and surrounding white space removed; `None` if that
/// leaves nothing.
pub open spec fn registry_device_name(bytes: Seq<u8>) -> Option<Seq<char>> {
    let t = trim(trim_nuls(utf8_lossy(bytes)));
    if t.len() > 0 {
        Some(t)
    } else {
        None
    }
}

/// The microphone device name held by a VRChat registry value.
pub fn mic_device_from_registry(bytes: &[u8]) -> (r: Option<String>)
    ensures
        (match r {
            Some(s) => Some(s@),
            None => None,
        }) == registry_device_name(bytes@),
{
    let text = crate::watcher::decode_lossy_text(bytes);
    let c = chars_of(text.as_str());
    let mut j: usize = c.len();
    assert(c@.subrange(0, j as int) == c@);
    while j > 0 && c[j - 1] == '\0'
        invariant
            j <= c@.len(),
            trim_nuls(c@) == trim_nuls(c@.subrange(0, j as int)),
        decreases j,
    {
        assert(c@.subrange(0, j as int).drop_last() == c@.subrange(0, j - 1));
        j = j - 1;
    }
    let u = slice_chars(c.as_slice(), 0, j);
    assert(trim_nuls(u@) == u@);
    let t = trim_chars(u.as_slice());
    if t.len() > 0 {
        Some(string_from(t.as_slice()))
    } else {
        None
    }
}

/// The sum of two samples, clamped to the `i16` range.
pub open spec fn clamp_sum(a: int, b: int) -> i16 {
    let s = a + b;
    if s < -32768 {
        -32768i16
    } else if s > 32767 {
        32767i16
    } else {
        s as i16
    }
}

/// The sample at `i`, or silence past the end.
pub open spec fn sample_at(v: Seq<i16>, i: int) -> int {
    if 0 <= i < v.len() {
        v[i] as int
    } else {
        0
    }
}

/// Mixes two PCM sample buffers: the result is as long as the longer one, and
/// each sample is the clamped sum of the two (a missing sample is silence).
pub fn mix_pcm(a: &[i16], b: &[i16]) -> (r: Vec<i16>)
    ensures
        r@.len() == (if a@.len() >= b@.len() {
            a@.len()
        } else {
            b@.len()
        }),
        forall|i: int| 0 <= i < r@.len() ==> #[trigger] r@[i] == clamp_sum(sample_at(a@, i), sample_at(b@, i)),
{
    let len = if a.len() >= b.len() {
        a.len()
    } else {
        b.len()
    };
    let mut out: Vec<i16> = Vec::new();
    let mut i: usize = 0;
    while i < len
        invariant
            i <= len,
            len == (if a@.len() >= b@.len() {
                a@.len()
            } else {
                b@.len()
            }),
            out@.len() == i,
            forall|k: int| 0 <= k < i ==> #[trigger] out@[k] == clamp_sum(sample_at(a@, k), sample_at(b@, k)),
        decreases len - i,
    {
        let sa: i32 = if i < a.len() {
            a[i] as i32
        } else {
            0
        };
        let sb: i32 = if i < b.len() {
            b[i] as i32
        } else {
            0
        };
        let s = sa + sb;
        let mixed: i16 = if s < -32768 {
            -32768
        } else if s > 32767 {
            32767
        } else {
            s as i16
        };
        out.push(mixed);
        i = i + 1;
    }
    out
}

/// Mixing is symmetric: the order of the two buffers does not matter.
pub proof fn lemma_mix_symmetric(a: Seq<i16>, b: Seq<i16>, i: int)
    ensures
        clamp_sum(sample_at(a, i), sample_at(b, i)) == clamp_sum(sample_at(b, i), sample_at(a, i)),
{
}

/// Samples of an Opus frame: 20 ms at 48 kHz.
pub const OPUS_FRAME_SIZE: usize = 960;

/// Bytes of a stereo 16-bit frame.
pub const FRAME_BYTES: usize = 3840;

/// The little-endian 16-bit sample of two bytes.
pub open spec fn le_sample(lo: u8, hi: u8) -> i16 {
    let v = lo as int + 256 * hi as int;
    if v >= 32768 {
        (v - 65536) as i16
    } else {
        v as i16
    }
}

/// The samples of a byte buffer read as little-endian 16-bit pairs.
pub open spec fn le_samples(bytes: Seq<u8>) -> Seq<i16> {
    Seq::new(bytes.len() / 2, |i: int| le_sample(bytes[2 * i], bytes[2 * i + 1]))
}

/// Reads little-endian 16-bit samples (`i16::from_le_bytes` on each pair).
pub fn samples_of(bytes: &[u8]) -> (r: Vec<i16>)
    ensures
        r@ == le_samples(bytes@),
{
    let n = bytes.len() / 2;
    let mut out: Vec<i16> = Vec::new();
    let mut i: usize = 0;
    while i < n
        invariant
            i <= n == bytes@.len() / 2,
            bytes@.len() == bytes.len(),
            out@.len() == i,
            forall|k: int| 0 <= k < i ==> #[trigger] out@[k] == le_sample(bytes@[2 * k], bytes@[2 * k + 1]),
        decreases n - i,
    {
        assert(2 * i + 1 < bytes@.len()) by (nonlinear_arith)
            requires
                i < n,
                n == bytes@.len() / 2,
        ;
        let lo = bytes[2 * i] as i32;
        let hi = bytes[2 * i + 1] as i32;
        let v = lo + 256 * hi;
        let s: i16 = if v >= 32768 {
            (v - 65536) as i16
        } else {
            v as i16
        };
        out.push(s);
        i = i + 1;
    }
    assert(out@ == le_samples(bytes@));
    out
}

/// The captured audio waiting to be encoded: VRChat's bytes and the
/// microphone's, and the granule position of the Ogg stream.
#[derive(Debug)]
pub struct FrameQueue {
    pub vrc: Vec<u8>,
    pub mic: Vec<u8>,
    pub granule_pos: u64,
}

fn take_front(q: &mut Vec<u8>, n: usize) -> (front: Vec<u8>)
    requires
        n <= old(q)@.len(),
    ensures
        front@ == old(q)@.take(n as int),
        final(q)@ == old(q)@.skip(n as int),
{
    let mut front: Vec<u8> = Vec::new();
    let mut rest: Vec<u8> = Vec::new();
    let mut i: usize = 0;
    while i < q.len()
        invariant
            n <= q@.len(),
            i <= q@.len(),
            front@ == q@.take(if i < n { i as int } else { n as int }),
            rest@ == (if i <= n { Seq::<u8>::empty() } else { q@.subrange(n as int, i as int) }),
        decreases q@.len() - i,
    {
        if i < n {
            front.push(q[i]);
            assert(q@.take(i + 1) == q@.take(i as int).push(q@[i as int]));
        } else {
            rest.push(q[i]);
            assert(q@.subrange(n as int, i + 1) == q@.subrange(n as int, i as int).push(q@[i as int]));
        }
        i = i + 1;
    }
    assert(q@.skip(n as int) == q@.subrange(n as int, q@.len() as int));
    *q = rest;
    front
}

fn append_bytes(q: &mut Vec<u8>, bytes: &[u8])
    ensures
        final(q)@ == old(q)@ + bytes@,
{
    let mut i: usize = 0;
    while i < bytes.len()
        invariant
            i <= bytes@.len(),
            q@ == old(q)@ + bytes@.take(i as int),
        decreases bytes@.len() - i,
    {
        q.push(bytes[i]);
        i = i + 1;
        assert(bytes@.take(i as int) == bytes@.take(i - 1).push(bytes@[i - 1]));
    }
    assert(bytes@.take(bytes@.len() as int) == bytes@);
}

impl FrameQueue {
    /// Empty queues at granule position 0.
    pub fn new() -> (r: FrameQueue)
        ensures
            r.vrc@.len() == 0,
            r.mic@.len() == 0,
            r.granule_pos == 0,
    {
        FrameQueue { vrc: Vec::new(), mic: Vec::new(), granule_pos: 0 }
    }

    /// Queues bytes captured from VRChat.
    pub fn push_vrc(&mut self, bytes: &[u8])
        ensures
            final(self).vrc@ == old(self).vrc@ + bytes@,
            final(self).mic == old(self).mic,
            final(self).granule_pos == old(self).granule_pos,
    {
        append_bytes(&mut self.vrc, bytes);
    }

    /// Queues bytes captured from the microphone.
    pub fn push_mic(&mut self, bytes: &[u8])
        ensures
            final(self).mic@ == old(self).mic@ + bytes@,
            final(self).vrc == old(self).vrc,
            final(self).granule_pos == old(self).granule_pos,
    {
        append_bytes(&mut self.mic, bytes);
    }

    /// The next complete frame to encode, if VRChat's queue holds one: its
    /// samples, mixed with a microphone frame when the microphone is in use and
    /// its queue holds a whole frame.
    pub fn next_frame(&mut self, mic_in_use: bool) -> (r: Option<Vec<i16>>)
        ensures
            old(self).vrc@.len() < FRAME_BYTES ==> r is None && final(self).vrc == old(self).vrc
                && final(self).mic == old(self).mic,
            old(self).vrc@.len() >= FRAME_BYTES ==> {
                let vf = le_samples(old(self).vrc@.take(FRAME_BYTES as int));
                &&& final(self).vrc@ == old(self).vrc@.skip(FRAME_BYTES as int)
                &&& if mic_in_use && old(self).mic@.len() >= FRAME_BYTES {
                    let mf = le_samples(old(self).mic@.take(FRAME_BYTES as int));
                    &&& final(self).mic@ == old(self).mic@.skip(FRAME_BYTES as int)
                    &&& r matches Some(f) && f@.len() == vf.len() && forall|i: int|
                        0 <= i < f@.len() ==> #[trigger] f@[i] == clamp_sum(
                            sample_at(vf, i),
                            sample_at(mf, i),
                        )
                } else {
                    &&& final(self).mic == old(self).mic
                    &&& r matches Some(f) && f@ == vf
                }
            },
            final(self).granule_pos == old(self).granule_pos,
    {
        if self.vrc.len() < FRAME_BYTES {
            return None;
        }
        let vf = take_front(&mut self.vrc, FRAME_BYTES);
        let vrc_pcm = samples_of(vf.as_slice());
        if mic_in_use && self.mic.len() >= FRAME_BYTES {
            let mf = take_front(&mut self.mic, FRAME_BYTES);
            let mic_pcm = samples_of(mf.as_slice());
            let mixed = mix_pcm(vrc_pcm.as_slice(), mic_pcm.as_slice());
            Some(mixed)
        } else {
            Some(vrc_pcm)
        }
    }

    /// The last frame when recording stops: what is left of VRChat's queue,
    /// padded with silence to a whole frame (all silence when nothing is left).
    pub fn final_frame(&self) -> (r: Vec<i16>)
        ensures
            r@ == le_samples(Seq::new(FRAME_BYTES as nat, |i: int| if i < self.vrc@.len() {
                self.vrc@[i]
            } else {
                0u8
            })),
    {
        let ghost padded = Seq::new(FRAME_BYTES as nat, |i: int| if i < self.vrc@.len() {
            self.vrc@[i]
        } else {
            0u8
        });
        let mut frame: Vec<u8> = Vec::new();
        let mut i: usize = 0;
        while i < FRAME_BYTES
            invariant
                i <= FRAME_BYTES,
                frame@ == padded.take(i as int),
                padded == Seq::new(FRAME_BYTES as nat, |i: int| if i < self.vrc@.len() {
                    self.vrc@[i]
                } else {
                    0u8
                }),
            decreases FRAME_BYTES - i,
        {
            if i < self.vrc.len() {
                frame.push(self.vrc[i]);
            } else {
                frame.push(0u8);
            }
            i = i + 1;
            assert(padded.take(i as int) == padded.take(i - 1).push(padded[i - 1]));
        }
        assert(padded.take(FRAME_BYTES as int) == padded);
        samples_of(frame.as_slice())
    }

    /// Moves the granule position past one encoded frame; returns the new position.
    pub fn advance_granule(&mut self) -> (r: u64)
        ensures
            r == final(self).granule_pos,
            final(self).granule_pos == (old(self).granule_pos + OPUS_FRAME_SIZE) % 0x1_0000_0000_0000_0000,
            final(self).vrc == old(self).vrc,
            final(self).mic == old(self).mic,
    {
        self.granule_pos = self.granule_pos.wrapping_add(960);
        self.granule_pos
    }
}

/// The bytes of `x`, least significant first.
pub open spec fn le_bytes32(x: u32) -> Seq<u8> {
    seq![(x % 256) as u8, ((x / 256) % 256) as u8, ((x / 65536) % 256) as u8, (x / 16777216) as u8]
}

fn push_le32(v: &mut Vec<u8>, x: u32)
    ensures
        final(v)@ == old(v)@ + le_bytes32(x),
{
    v.push((x % 256) as u8);
    v.push(((x / 256) % 256) as u8);
    v.push(((x / 65536) % 256) as u8);
    v.push((x / 16777216) as u8);
}

fn push_ascii(v: &mut Vec<u8>, s: &str)
    ensures
        final(v)@ == old(v)@ + encode_utf8(s@),
{
    let b = s.as_bytes();
    append_bytes(v, b);
}

/// The OpusHead packet (RFC 7845, section 5.1): magic, version 1, channel
/// count, no pre-skip, the input sample rate, no output gain, mapping family 0.
pub open spec fn opus_head(sample_rate: u32, channels: u16) -> Seq<u8> {
    encode_utf8("OpusHead"@) + seq![1u8, channels as u8, 0u8, 0u8] + le_bytes32(sample_rate) + seq![
        0u8,
        0u8,
        0u8,
    ]
}

/// The OpusTags packet: magic, the vendor string `vrmemoir` with its length,
/// and no user comments.
pub open spec fn opus_tags() -> Seq<u8> {
    encode_utf8("OpusTags"@) + le_bytes32(8) + encode_utf8("vrmemoir"@) + le_bytes32(0)
}

/// Builds the OpusHead packet.
pub fn opus_head_packet(sample_rate: u32, channels: u16) -> (r: Vec<u8>)
    ensures
        r@ == opus_head(sample_rate, channels),
{
    let mut v: Vec<u8> = Vec::new();
    push_ascii(&mut v, "OpusHead");
    v.push(1u8);
    v.push(channels as u8);
    v.push(0u8);
    v.push(0u8);
    push_le32(&mut v, sample_rate);
    v.push(0u8);
    v.push(0u8);
    v.push(0u8);
    v
}

/// Builds the OpusTags packet.
pub fn opus_tags_packet() -> (r: Vec<u8>)
    ensures
        r@ == opus_tags(),
{
    let mut v: Vec<u8> = Vec::new();
    push_ascii(&mut v, "OpusTags");
    push_le32(&mut v, 8);
    push_ascii(&mut v, "vrmemoir");
    push_le32(&mut v, 0);
    v
}

/// `SystemTime::now()` since the Unix epoch, in nanoseconds (0 before the
/// epoch). Nothing is claimed of the value, which is the time.
#[verifier::external_body]
fn unix_nanos() -> (r: u128) {
    std::time::SystemTime::now().duration_since(std::time::UNIX_EPOCH).unwrap_or_default().as_nanos()
}

/// The Ogg stream serial taken from a time in nanoseconds: its low 32 bits.
pub fn serial_from_nanos(nanos: u128) -> (r: u32)
    ensures
        r == nanos % 0x1_0000_0000,
{
    (nanos % 0x1_0000_0000) as u32
}

/// A pseudo-random Ogg stream serial from the current time.
pub fn rand_serial() -> (r: u32) {
    serial_from_nanos(unix_nanos())
}

/// The capture device a microphone setting names: the first device whose
/// name, in lower case, holds the setting in lower case.
pub open spec fn names_device(friendly: Option<String>, wanted: Seq<char>) -> bool {
    friendly matches Some(n) && crate::text::contains(lowercase(n@), lowercase(wanted))
}

/// The first of the capture devices (by friendly name, absent where it could
/// not be read) that the microphone setting `wanted` names.
pub fn find_input_device_by_name(friendly_names: &[Option<String>], wanted: &str) -> (r: Option<usize>)
    ensures
        match r {
            Some(i) => i < friendly_names@.len() && names_device(friendly_names@[i as int], wanted@)
                && forall|j: int| 0 <= j < i ==> !names_device(#[trigger] friendly_names@[j], wanted@),
            None => forall|j: int|
                0 <= j < friendly_names@.len() ==> !names_device(#[trigger] friendly_names@[j], wanted@),
        },
{
    let w = to_lowercase(wanted);
    let wc = chars_of(w.as_str());
    let mut i: usize = 0;
    while i < friendly_names.len()
        invariant
            wc@ == lowercase(wanted@),
            i <= friendly_names@.len(),
            forall|j: int| 0 <= j < i ==> !names_device(#[trigger] friendly_names@[j], wanted@),
        decreases friendly_names@.len() - i,
    {
        match &friendly_names[i] {
            Some(n) => {
                let low = to_lowercase(n.as_str());
                let lc = chars_of(low.as_str());
                if crate::text::contains_chars(lc.as_slice(), wc.as_slice()) {
                    return Some(i);
                }
            },
            None => {},
        }
        i = i + 1;
    }
    None
}

} // verus!
