use shroom_trace::config::{
    tracing_data, AutoLoginData, Config, LocalTime, LogBackend, PacketTracingData, WindowData,
    WzData, WzFileData, WzImageData,
};
use shroom_trace::error_codes::ClientErrorCode;
use shroom_trace::exceptions::{
    is_cxx_exception, is_recorded, is_zexception, listed_frames, ExceptionHandler,
};
use shroom_trace::le_bytes::{from_le_bytes, le_bytes, signed, twos_complement};
use shroom_trace::patch::{branch_bytes, branch_offset, in_branch_range, BranchPatch, MemPatch};
use shroom_trace::profiler::{AddressModuleMapper, ModuleRange};
use shroom_trace::ref_time::{time_after_exchange, time_since, RefTime};
use shroom_trace::stack_walker::{name_until_nul, RecursionGuard};

#[test]
fn the_default_configuration() {
    let cfg = Config::default();
    assert!(matches!(cfg.log_backend, LogBackend::Stdout));
    assert!(cfg.skip_logo);
    assert!(!cfg.log_msgbox);
    assert_eq!(cfg.pdb_file.as_deref(), Some("MapleStory.pdb"));
    let login = cfg.auto_login_data.as_ref().unwrap();
    assert_eq!(login.username, "admin");
    assert_eq!(login.password, "test1234");
    assert_eq!(login.get_world_channel(), Some((0, 0)));
    assert_eq!(login.char_index, Some(0));
    let wnd = cfg.window_data.as_ref().unwrap();
    assert_eq!(wnd.name, "DinputStory");
    assert!(wnd.pid && wnd.time);
    assert!(cfg.packet_tracing.is_none());
    assert_eq!(cfg.multi_jump, Some(2));
    assert!(cfg.extra_dlls.is_empty());
    assert!(cfg.disable_shanda);
    assert!(cfg.handle_exceptions);
    assert!(cfg.wz.is_wz());
    assert_eq!(cfg.wz.as_wz().unwrap().version, "95");
    assert_eq!(cfg.wz.as_wz().unwrap().path.as_deref(), Some("wz95"));
    assert!(cfg.lazy_tmpl_loading);
}

#[test]
fn the_window_title_is_made_of_name_pid_and_time() {
    let wnd = WindowData { name: "DinputStory".to_string(), pid: true, time: true };
    assert_eq!(
        wnd.title(4242, "Thu Mar  3 23:05:25 2005"),
        "DinputStory - PID: 4242 - Time: Thu Mar  3 23:05:25 2005"
    );
    let wnd = WindowData { name: "Client".to_string(), pid: true, time: false };
    assert_eq!(wnd.title(0, "now"), "Client - PID: 0");
    assert_eq!(wnd.title(u32::MAX, "now"), "Client - PID: 4294967295");
    assert_eq!(wnd.title(1000, "now"), "Client - PID: 1000");
    let wnd = WindowData { name: "Client".to_string(), pid: false, time: true };
    assert_eq!(wnd.title(7, "now"), "Client - Time: now");
    let wnd = WindowData { name: "Client".to_string(), pid: false, time: false };
    assert_eq!(wnd.title(7, "now"), "Client");
}

#[test]
fn the_window_title_shows_the_local_time_of_the_instant() {
    let mut cfg = Config::default();
    let now = LocalTime { unix_secs: 1109891125, nanos: 0, utc_offset_secs: 0 };
    assert_eq!(
        cfg.window_title(4242, now).as_deref(),
        Some("DinputStory - PID: 4242 - Time: Thu Mar  3 23:05:25 2005")
    );
    let east = LocalTime { unix_secs: 1700000000, nanos: 5, utc_offset_secs: 3600 };
    assert_eq!(
        cfg.window_title(1, east).as_deref(),
        Some("DinputStory - PID: 1 - Time: Tue Nov 14 23:13:20 2023")
    );
    let west = LocalTime { unix_secs: 1700000000, nanos: 0, utc_offset_secs: -18000 };
    assert_eq!(
        cfg.window_title(1, west).as_deref(),
        Some("DinputStory - PID: 1 - Time: Tue Nov 14 17:13:20 2023")
    );
    let no_zone = LocalTime { unix_secs: 0, nanos: 0, utc_offset_secs: 86_400 };
    assert_eq!(cfg.window_title(1, no_zone), None);
    let no_date = LocalTime { unix_secs: i64::MAX, nanos: 0, utc_offset_secs: 0 };
    assert_eq!(cfg.window_title(1, no_date), None);
    cfg.window_data = Some(WindowData { name: "Client".to_string(), pid: true, time: false });
    assert_eq!(cfg.window_title(7, no_zone).as_deref(), Some("Client - PID: 7"));
    cfg.window_data = None;
    assert_eq!(cfg.window_title(7, now), None);
}

#[test]
fn an_instant_is_spelled_out_in_its_zone() {
    let epoch = LocalTime { unix_secs: 0, nanos: 0, utc_offset_secs: 0 };
    assert_eq!(epoch.text().as_deref(), Some("Thu Jan  1 00:00:00 1970"));
    let leap_day = LocalTime { unix_secs: 951782400, nanos: 0, utc_offset_secs: 0 };
    assert_eq!(leap_day.text().as_deref(), Some("Tue Feb 29 00:00:00 2000"));
    let bad_nanos = LocalTime { unix_secs: 0, nanos: 2_000_000_000, utc_offset_secs: 0 };
    assert_eq!(bad_nanos.text(), None);
}

#[test]
fn resource_sources_tell_themselves_apart() {
    let image = WzData::Image(WzImageData {
        path: "Data".to_string(),
        retain_delay: 1000,
        cachte_delay: 500,
    });
    assert!(image.is_image() && !image.is_wz() && !image.is_default());
    assert_eq!(image.as_image().unwrap().retain_delay, 1000);
    assert!(image.as_wz().is_none());
    let wz = WzData::Wz(WzFileData { version: "95".to_string(), path: None });
    assert!(wz.is_wz() && !wz.is_image() && !wz.is_default());
    assert_eq!(wz.as_wz().unwrap().version, "95");
    assert!(wz.as_image().is_none());
    let default = WzData::Default;
    assert!(default.is_default() && !default.is_wz() && !default.is_image());
    assert!(default.as_wz().is_none() && default.as_image().is_none());
}

#[test]
fn world_and_channel_come_together_or_not_at_all() {
    let mut login = AutoLoginData {
        username: "a".to_string(),
        password: "b".to_string(),
        world: Some(1),
        channel: Some(7),
        char_index: None,
    };
    assert_eq!(login.get_world_channel(), Some((1, 7)));
    login.channel = None;
    assert_eq!(login.get_world_channel(), None);
    login.channel = Some(7);
    login.world = None;
    assert_eq!(login.get_world_channel(), None);
}

#[test]
fn tracing_settings_are_read_from_the_configuration() {
    let mut cfg = Config::default();
    cfg.packet_tracing = Some(PacketTracingData {
        send_file: "send_packets.txt".to_string(),
        recv_file: "recv_packets.txt".to_string(),
        log_data: true,
    });
    let data = tracing_data(&cfg);
    assert_eq!(data.send_file, "send_packets.txt");
    assert_eq!(data.recv_file, "recv_packets.txt");
    assert!(data.log_data);
}

#[test]
fn error_codes_map_to_their_numbers_and_back() {
    assert_eq!(ClientErrorCode::EC_PATCH.code(), 536870912);
    assert_eq!(ClientErrorCode::EC_DISCONNECT_BEGIN.code(), 553648128);
    assert_eq!(ClientErrorCode::EC_FAILED_PROTOCOL_WITH_GAME.code(), 553648131);
    assert_eq!(ClientErrorCode::EC_DISCONNECT_END.code(), 553648134);
    assert_eq!(ClientErrorCode::EC_TERMINATE_BEGIN.code(), 570425344);
    assert_eq!(ClientErrorCode::EC_TERMINATE_END.code(), 570425358);
    assert_eq!(ClientErrorCode::from_code(570425350), Some(ClientErrorCode::EC_INVALID_GAME_DATA));
    assert_eq!(
        ClientErrorCode::from_code(570425355),
        Some(ClientErrorCode::EC_DOWNLOAD_FULL_CLIENT)
    );
    assert_eq!(ClientErrorCode::from_code(0), None);
    assert_eq!(ClientErrorCode::from_code(553648135), None);
    assert_eq!(ClientErrorCode::from_code(570425359), None);
    let mut known = 0;
    for code in 536870912u32..=536870912 {
        known += ClientErrorCode::from_code(code).is_some() as u32;
    }
    for code in 553648120u32..570425370 {
        if let Some(error) = ClientErrorCode::from_code(code) {
            assert_eq!(error.code(), code);
            known += 1;
        }
    }
    assert_eq!(known, 23);
}

#[test]
fn symbols_are_loaded_for_the_first_exception_only() {
    let mut handler = ExceptionHandler::new();
    assert!(handler.claim_sym_init());
    assert!(!handler.claim_sym_init());
    assert!(!handler.claim_sym_init());
    let mut other = ExceptionHandler::default();
    assert!(other.claim_sym_init());
}

#[test]
fn exceptions_are_told_apart_by_code_and_magic() {
    assert!(!is_recorded(1080890248));
    assert!(is_recorded(0xc0000005));
    assert!(is_recorded(0xe06d7363));
    assert!(is_cxx_exception(0xe06d7363, 3));
    assert!(!is_cxx_exception(0xe06d7363, 4));
    assert!(!is_cxx_exception(0xe06d7363, 0));
    assert!(!is_cxx_exception(0xc0000005, 3));
    assert!(is_zexception(0x19930520));
    assert!(!is_zexception(0x19930521));
}

#[test]
fn a_trace_lists_nine_frames_at_most() {
    assert_eq!(listed_frames(0), (0, false));
    assert_eq!(listed_frames(1), (1, false));
    assert_eq!(listed_frames(9), (9, false));
    assert_eq!(listed_frames(10), (9, true));
    assert_eq!(listed_frames(1000), (9, true));
}

#[test]
fn a_branch_is_encoded_relative_to_its_end() {
    assert!(in_branch_range(0x1000, 0x2000));
    assert_eq!(branch_offset(0x1000, 0x2000), 0xffb);
    assert_eq!(branch_bytes(0xe9, 0x1000, 0x2000), [0xe9, 0xfb, 0x0f, 0x00, 0x00]);
    assert_eq!(branch_offset(0x2000, 0x1000), -0x1005);
    assert_eq!(branch_bytes(0xe8, 0x2000, 0x1000), [0xe8, 0xfb, 0xef, 0xff, 0xff]);
    assert_eq!(branch_offset(0x0040_1000, 0x0040_1005), 0);
    assert_eq!(branch_bytes(0xe9, 0x0040_1000, 0x0040_1005), [0xe9, 0, 0, 0, 0]);
    assert_eq!(branch_offset(0x1000_0000, 0xf000_0000), -536870917);
    assert_eq!(branch_bytes(0xe9, 0x1000_0000, 0xf000_0000), [0xe9, 0xfb, 0xff, 0xff, 0xdf]);
    assert_eq!(branch_offset(0xf000_0000, 0x1000_0000), 536870907);
    assert_eq!(branch_offset(0, 0x7fff_ffff), 2147483642);
    assert_eq!(branch_offset(0x7fff_fffb, 0), i32::MIN);
    assert_eq!(branch_bytes(0xe9, 0x7fff_fffb, 0), [0xe9, 0, 0, 0, 0x80]);
    assert_eq!(branch_bytes(0xe9, 0x0040_1000, 0x1234_5678), [0xe9, 0x73, 0x46, 0xf4, 0x11]);
}

#[test]
fn branches_out_of_range_are_recognised() {
    assert!(!in_branch_range(0x8000_0000, 0x7fff_ffff));
    assert!(!in_branch_range(0x7fff_ffff, 0x8000_0000));
    assert!(!in_branch_range(0x8000_0000, 0));
    assert!(!in_branch_range(0x7000_0000, 0x9000_0000));
    assert!(in_branch_range(0, 0x7fff_ffff));
    assert!(in_branch_range(0x7fff_fffb, 0));
    assert!(!in_branch_range(0x7fff_fffc, 0));
    assert!(!in_branch_range(0x7fff_ffff, 0xffff_ffff));
    assert!(in_branch_range(0x7fff_fffa, 0xffff_ffff));
    assert!(!in_branch_range(0x7fff_fffc, 0xffff_ffff));
    assert!(in_branch_range(0xf000_0000, 0x1000_0000));
}

#[test]
fn patches_give_the_bytes_for_both_directions() {
    let patch = MemPatch::new(0x401000, [0x90, 0x90], [0x74, 0x05]);
    assert_eq!(patch.addr(), 0x401000);
    assert_eq!(patch.bytes(true), &[0x90, 0x90]);
    assert_eq!(patch.bytes(false), &[0x74, 0x05]);
    let jmp = BranchPatch::jmp(0x1000, 0x2000, [1, 2, 3, 4, 5]);
    assert_eq!(jmp.patch().addr(), 0x1000);
    assert_eq!(jmp.patch().bytes(true), &[0xe9, 0xfb, 0x0f, 0x00, 0x00]);
    assert_eq!(jmp.patch().bytes(false), &[1, 2, 3, 4, 5]);
    let call = BranchPatch::call(0x1000, 0x2000, [1, 2, 3, 4, 5]);
    assert_eq!(call.patch().bytes(true), &[0xe8, 0xfb, 0x0f, 0x00, 0x00]);
    let other = BranchPatch::new(0x0f, 0x2000, 0x1000, [0; 5]);
    assert_eq!(other.patch().bytes(true), &[0x0f, 0xfb, 0xef, 0xff, 0xff]);
}

#[test]
fn time_is_counted_from_the_reference_on_a_wrapping_clock() {
    assert_eq!(time_since(5000, 0), Some(5100));
    assert_eq!(time_since(5000, 4000), Some(1100));
    assert_eq!(time_since(5000, 5000), Some(100));
    assert_eq!(time_since(10, u32::MAX), Some(111));
    assert_eq!(time_since(u32::MAX - 100, 0), Some(u32::MAX));
    assert_eq!(time_since(u32::MAX - 99, 0), None);
    assert_eq!(time_since(0, 1), None);
    assert_eq!(time_since(0, 101), Some(u32::MAX - 100 + 100));
    assert_eq!(time_after_exchange(5000, Ok(0)), Some(5100));
    assert_eq!(time_after_exchange(5000, Err(4000)), Some(1100));
    assert_eq!(time_after_exchange(5000, Err(5000)), Some(100));
}

#[test]
fn the_first_reading_becomes_the_reference() {
    let clock = RefTime::new();
    assert_eq!(clock.get_time(5000), Some(5100));
    assert_eq!(clock.get_time(5000), Some(100));
    assert_eq!(clock.get_time(5250), Some(350));
    assert_eq!(clock.get_time(4999), None);
    let zero = RefTime::new();
    assert_eq!(zero.get_time(0), Some(100));
    assert_eq!(zero.get_time(7), Some(107));
    assert_eq!(zero.get_time(9), Some(102));
}

#[test]
fn an_address_belongs_to_the_first_module_that_holds_it() {
    let mapper = AddressModuleMapper::from_modules(vec![
        ModuleRange { base: 0x40_0000, size: 0x1000, module: 1 },
        ModuleRange { base: 0x40_0800, size: 0x1000, module: 2 },
        ModuleRange { base: usize::MAX - 0x10, size: 0x100, module: 3 },
        ModuleRange { base: 0x50_0000, size: 0, module: 4 },
    ]);
    assert_eq!(mapper.get_module(0x40_0000), Some(1));
    assert_eq!(mapper.get_module(0x40_0fff), Some(1));
    assert_eq!(mapper.get_module(0x40_1000), Some(2));
    assert_eq!(mapper.get_module(0x40_17ff), Some(2));
    assert_eq!(mapper.get_module(0x40_1800), None);
    assert_eq!(mapper.get_module(0x3f_ffff), None);
    assert_eq!(mapper.get_module(usize::MAX), Some(3));
    assert_eq!(mapper.get_module(0x50_0000), None);
    assert_eq!(AddressModuleMapper::from_modules(vec![]).get_module(0), None);
    let module = ModuleRange { base: 10, size: 5, module: 0 };
    assert!(!module.contains(9));
    assert!(module.contains(10));
    assert!(module.contains(14));
    assert!(!module.contains(15));
}

#[test]
fn a_walk_ends_after_too_many_frames_that_return_to_themselves() {
    let mut guard = RecursionGuard::new();
    assert!(guard.next_frame(0x10, 0x20));
    assert!(guard.next_frame(0x20, 0x20));
    assert!(guard.next_frame(0x20, 0x20));
    assert!(guard.next_frame(0x20, 0x20));
    assert!(guard.next_frame(0x20, 0x20));
    assert!(!guard.next_frame(0x20, 0x20));
    assert!(!guard.next_frame(0x20, 0x20));
    assert!(guard.next_frame(0x20, 0x30));
    assert!(guard.next_frame(0x30, 0x30));
}

#[test]
fn a_name_ends_at_the_first_zero_byte() {
    assert_eq!(name_until_nul(b"main\0rest\0"), Some(&b"main"[..]));
    assert_eq!(name_until_nul(b"\0"), Some(&b""[..]));
    assert_eq!(name_until_nul(b"abc"), None);
    assert_eq!(name_until_nul(b""), None);
}

#[test]
fn words_have_four_bytes_lowest_first() {
    assert_eq!(le_bytes(0x1234_5678), [0x78, 0x56, 0x34, 0x12]);
    assert_eq!(le_bytes(0), [0, 0, 0, 0]);
    assert_eq!(le_bytes(u32::MAX), [0xff; 4]);
    assert_eq!(from_le_bytes(&[0x78, 0x56, 0x34, 0x12]), 0x1234_5678);
    assert_eq!(from_le_bytes(&[0xff; 4]), u32::MAX);
    for word in [0u32, 1, 0xff, 0x100, 0xdead_beef, u32::MAX] {
        assert_eq!(le_bytes(word), word.to_le_bytes());
        assert_eq!(from_le_bytes(&le_bytes(word)), word);
    }
}

#[test]
fn negative_numbers_are_held_in_twos_complement() {
    assert_eq!(twos_complement(-1), u32::MAX);
    assert_eq!(twos_complement(i32::MIN), 0x8000_0000);
    assert_eq!(twos_complement(5), 5);
    assert_eq!(signed(u32::MAX), -1);
    assert_eq!(signed(0x8000_0000), i32::MIN);
    assert_eq!(signed(0x7fff_ffff), i32::MAX);
}
