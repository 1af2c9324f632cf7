use vrmemoir::recorder::{
    find_input_device_by_name, mic_device_from_registry, mix_pcm, opus_head_packet,
    opus_tags_packet, samples_of, serial_from_nanos, vrchat_pid_in, FrameQueue, MicConfig,
    FRAME_BYTES,
};
use vrmemoir::stamps::{elapsed_since, StampMap};

#[test]
fn mixing_adds_and_clamps() {
    assert_eq!(mix_pcm(&[1, 32767, -32768], &[2, 10, -5, 7]), vec![3, 32767, -32768, 7]);
    assert_eq!(mix_pcm(&[], &[]), Vec::<i16>::new());
    assert_eq!(mix_pcm(&[5, -3], &[1]), mix_pcm(&[1], &[5, -3]));
}

#[test]
fn samples_are_little_endian() {
    assert_eq!(samples_of(&[1, 0, 255, 255, 0, 128]), vec![1, -1, -32768]);
}

#[test]
fn frames_come_whole_and_mix_the_microphone() {
    let mut q = FrameQueue::new();
    q.push_vrc(&vec![1u8; FRAME_BYTES - 2]);
    assert!(q.next_frame(false).is_none());
    q.push_vrc(&[1u8, 0u8, 9u8]);
    q.push_mic(&vec![0u8; FRAME_BYTES]);
    let f = q.next_frame(true).unwrap();
    assert_eq!(f.len(), FRAME_BYTES / 2);
    assert_eq!(f[0], 257);
    assert_eq!(f[f.len() - 1], 1);
    assert_eq!(q.vrc, vec![9u8]);
    assert!(q.mic.is_empty());
    let last = q.final_frame();
    assert_eq!(last.len(), FRAME_BYTES / 2);
    assert_eq!(last[0], 9);
    assert_eq!(last[1], 0);
    assert_eq!(q.advance_granule(), 960);
    q.granule_pos = u64::MAX;
    assert_eq!(q.advance_granule(), 959);
}

#[test]
fn opus_headers() {
    let head = opus_head_packet(48000, 2);
    assert_eq!(head, vec![b'O', b'p', b'u', b's', b'H', b'e', b'a', b'd', 1, 2, 0, 0, 0x80, 0xBB, 0, 0, 0, 0, 0]);
    let tags = opus_tags_packet();
    let mut expected = b"OpusTags".to_vec();
    expected.extend_from_slice(&8u32.to_le_bytes());
    expected.extend_from_slice(b"vrmemoir");
    expected.extend_from_slice(&0u32.to_le_bytes());
    assert_eq!(tags, expected);
}

#[test]
fn serial_is_the_low_bits_of_the_time() {
    assert_eq!(serial_from_nanos(0x1_2345_6789), 0x2345_6789);
}

#[test]
fn vrchat_process_by_name() {
    let procs = vec![(1, "explorer.exe".to_string()), (7, "VRChat.EXE".to_string()), (9, "vrchat.exe".to_string())];
    assert_eq!(vrchat_pid_in(&procs), Some(7));
    assert_eq!(vrchat_pid_in(&procs[..1]), None);
}

#[test]
fn microphone_settings() {
    let c = MicConfig::from_settings(Some("TRUE"), Some("  "), Some("Reg Mic".to_string()));
    assert!(c.enabled);
    assert_eq!(c.device_name, Some("Reg Mic".to_string()));
    let c = MicConfig::from_settings(Some("1"), Some("USB"), Some("Reg".to_string()));
    assert_eq!(c.device_name, Some("USB".to_string()));
    let c = MicConfig::from_settings(Some("no"), Some("USB"), None);
    assert!(!c.enabled);
    assert_eq!(c.device_name, None);
    assert!(MicConfig::needs_registry_device(Some("true"), None));
    assert!(!MicConfig::needs_registry_device(Some("true"), Some("USB")));
}

#[test]
fn registry_device_name() {
    assert_eq!(mic_device_from_registry(b"Headset Mic\0\0"), Some("Headset Mic".to_string()));
    assert_eq!(mic_device_from_registry(b"\0\0"), None);
    assert_eq!(mic_device_from_registry(b"  x \0"), Some("x".to_string()));
}

#[test]
fn input_device_by_part_of_its_name() {
    let names = vec![None, Some("Speakers".to_string()), Some("USB Microphone (Blue)".to_string())];
    assert_eq!(find_input_device_by_name(&names, "microphone"), Some(2));
    assert_eq!(find_input_device_by_name(&names, "webcam"), None);
}

#[test]
fn stamp_map_reads_back_writes() {
    let mut m = StampMap::new();
    assert_eq!(m.get("a"), None);
    m.set("a", 1);
    m.set("b", 2);
    m.set("a", 3);
    assert_eq!(m.get("a"), Some(3));
    assert_eq!(m.get("b"), Some(2));
    assert_eq!(m.entries.len(), 2);
    m.remove("a");
    assert_eq!(m.get("a"), None);
    assert_eq!(m.get("b"), Some(2));
    assert_eq!(elapsed_since(5, 10), 0);
    assert_eq!(elapsed_since(10, 4), 6);
}
