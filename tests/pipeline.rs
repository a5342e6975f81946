use base64::Engine;
use mnemnk_screen::{
    fast_downsample, get_difference_ratio2, is_blank, make_image_id, parse_line, process_line,
    ratio_below, split_command, AgentConfig, Args, ConfigError, ConfigField, ConfigFields, DiffRatio, Fingerprint,
    Frame, FrameError, LineAction, ScreenAgent, ScreenOutput, Screenshot, TaskError, TimerState,
};

fn solid(width: u32, height: u32, rgb: [u8; 3]) -> Frame {
    let mut data = Vec::new();
    for _ in 0..(width * height) {
        data.extend_from_slice(&[rgb[0], rgb[1], rgb[2], 255]);
    }
    Frame::new(width, height, data).unwrap()
}

fn shot(t: i64, image: Frame) -> Screenshot {
    Screenshot { timestamp_ms: t, monitor: 1, image }
}

#[test]
fn frame_rejects_wrong_length() {
    assert_eq!(Frame::new(2, 2, vec![0; 15]).err(), Some(FrameError::LengthMismatch));
    assert!(Frame::new(2, 2, vec![0; 16]).is_ok());
}

#[test]
fn black_frame_is_blank_with_defaults() {
    let cfg = AgentConfig::default();
    let f = solid(50, 50, [0, 0, 0]);
    assert!(is_blank(&f, cfg.almost_black_threshold, cfg.non_blank_threshold));
}

#[test]
fn black_frame_gives_no_event() {
    let mut agent = ScreenAgent::new(AgentConfig::default());
    let r = agent.execute_task(&shot(0, solid(50, 50, [0, 0, 0])));
    assert_eq!(r, Ok(None));
    assert!(agent.last_image.is_none());
    assert!(agent.last_image_id.is_none());
}

#[test]
fn blank_filter_counts_only_sampled_pixels() {
    // 50 pixels give samples at pixels 0 and 25.
    let mut data = vec![0u8; 50 * 4];
    data[0] = 200;
    let f = Frame::new(50, 1, data.clone()).unwrap();
    assert!(!is_blank(&f, 20, 1));
    assert!(is_blank(&f, 20, 2));
    // Lighting pixels between the samples changes nothing.
    for p in (1..25).chain(26..50) {
        data[p * 4 + 1] = 255;
    }
    let g = Frame::new(50, 1, data.clone()).unwrap();
    assert!(is_blank(&g, 20, 2));
    data[25 * 4 + 2] = 30;
    let h = Frame::new(50, 1, data).unwrap();
    assert!(!is_blank(&h, 20, 2));
}

#[test]
fn blank_threshold_is_compared_per_channel() {
    let f = solid(120, 1, [19, 19, 19]);
    assert!(is_blank(&f, 20, 1));
    let g = solid(120, 1, [0, 20, 0]);
    assert!(!is_blank(&g, 20, 1));
}

#[test]
fn empty_frame_is_blank_even_with_zero_threshold() {
    let f = Frame::new(0, 0, Vec::new()).unwrap();
    assert!(is_blank(&f, 20, 0));
    assert!(!is_blank(&solid(1, 1, [0, 0, 0]), 20, 0));
}

#[test]
fn downsample_averages_luma_of_blocks() {
    let f = solid(4, 4, [100, 150, 200]);
    let fp = fast_downsample(&f);
    assert_eq!((fp.width, fp.height), (1, 1));
    assert_eq!(fp.luma, vec![140]);
}

#[test]
fn downsample_drops_partial_blocks() {
    let mut data = Vec::new();
    for y in 0..9u32 {
        for x in 0..10u32 {
            let v = if x < 4 && y < 4 { 255 } else if x < 8 && y < 4 { 16 } else { 99 };
            data.extend_from_slice(&[v, v, v, 255]);
        }
    }
    let fp = fast_downsample(&Frame::new(10, 9, data).unwrap());
    assert_eq!((fp.width, fp.height), (2, 2));
    assert_eq!(fp.luma, vec![255, 16, 99, 99]);
}

#[test]
fn difference_ratio_counts_beyond_sensitivity() {
    let a = Fingerprint { width: 2, height: 2, luma: vec![10, 10, 10, 10] };
    let b = Fingerprint { width: 2, height: 2, luma: vec![15, 16, 4, 10] };
    assert_eq!(get_difference_ratio2(&a, &b), DiffRatio { different: 2, total: 4 });
    let c = Fingerprint { width: 4, height: 1, luma: vec![10, 10, 10, 10] };
    assert_eq!(get_difference_ratio2(&a, &c), DiffRatio { different: 1, total: 1 });
}

#[test]
fn ratio_is_compared_strictly() {
    assert!(ratio_below(DiffRatio { different: 1, total: 101 }, 10_000));
    assert!(!ratio_below(DiffRatio { different: 1, total: 100 }, 10_000));
    assert!(!ratio_below(DiffRatio { different: 0, total: 0 }, 10_000));
}

#[test]
fn first_frame_is_different() {
    let mut agent = ScreenAgent::new(AgentConfig::default());
    let s = shot(0, solid(8, 8, [50, 60, 70]));
    assert!(!agent.is_same(&s));
    assert!(agent.last_image.is_some());
}

#[test]
fn identical_frames_are_same() {
    let mut agent = ScreenAgent::new(AgentConfig::default());
    let s = shot(0, solid(8, 8, [50, 60, 70]));
    assert!(!agent.is_same(&s));
    assert!(agent.is_same(&s));
}

#[test]
fn fully_changed_frames_are_different() {
    let mut cfg = AgentConfig::default();
    cfg.same_screen_ratio_ppm = 999_999;
    let mut agent = ScreenAgent::new(cfg);
    assert!(!agent.is_same(&shot(0, solid(8, 8, [0, 0, 0]))));
    assert!(!agent.is_same(&shot(1, solid(8, 8, [255, 255, 255]))));
    assert_eq!(agent.last_image.as_ref().unwrap().luma, vec![255; 4]);
}

#[test]
fn resized_frames_are_different() {
    let mut cfg = AgentConfig::default();
    cfg.same_screen_ratio_ppm = 2_000_000;
    let mut agent = ScreenAgent::new(cfg);
    assert!(!agent.is_same(&shot(0, solid(8, 8, [9, 9, 9]))));
    assert!(!agent.is_same(&shot(1, solid(8, 12, [9, 9, 9]))));
    assert_eq!(agent.last_image.as_ref().unwrap().height, 3);
}

#[test]
fn same_frame_keeps_old_baseline() {
    let mut cfg = AgentConfig::default();
    cfg.same_screen_ratio_ppm = 300_000;
    let mut agent = ScreenAgent::new(cfg);
    let mut data = Vec::new();
    for y in 0..8u32 {
        for x in 0..8u32 {
            let v = if x < 4 && y < 4 { 200 } else { 0 };
            data.extend_from_slice(&[v, v, v, 255]);
        }
    }
    assert!(!agent.is_same(&shot(0, solid(8, 8, [0, 0, 0]))));
    // One block in four changed: 25% is below 30%, and the baseline stays black.
    assert!(agent.is_same(&shot(1, Frame::new(8, 8, data).unwrap())));
    assert_eq!(agent.last_image.as_ref().unwrap().luma, vec![0; 4]);
}

#[test]
fn image_id_joins_time_and_monitor() {
    assert_eq!(make_image_id("20240102-030405", 0), "20240102-030405-0");
    assert_eq!(make_image_id("20240102-030405", 4_294_967_295), "20240102-030405-4294967295");
}

#[test]
fn screen_then_same_screen_event() {
    let cfg = AgentConfig {
        interval: 1,
        almost_black_threshold: 20,
        non_blank_threshold: 400,
        same_screen_ratio_ppm: 10_000,
    };
    let mut agent = ScreenAgent::new(cfg);
    let first = agent.execute_task(&shot(1_704_164_645_000, solid(100, 100, [255, 255, 255])));
    let id = match first {
        Ok(Some(ScreenOutput::Screen(e))) => {
            assert_eq!(e.t, 1_704_164_645_000);
            assert_eq!(e.image_id, "20240102-030405-1");
            assert!(!e.image.is_empty());
            e.image_id
        }
        other => panic!("expected a screen event, got {:?}", other),
    };
    let second = agent.execute_task(&shot(1_704_164_646_000, solid(100, 100, [255, 255, 255])));
    match second {
        Ok(Some(ScreenOutput::Same(e))) => {
            assert_eq!(e.t, 1_704_164_646_000);
            assert_eq!(e.image_id, id);
        }
        other => panic!("expected a same-screen event, got {:?}", other),
    }
    assert_eq!(agent.last_image_id, Some(id));
}

#[test]
fn white_frame_below_sample_threshold_is_blank() {
    // 60 x 60 pixels give 144 samples, fewer than 400.
    let mut agent = ScreenAgent::new(AgentConfig::default());
    assert_eq!(agent.execute_task(&shot(0, solid(60, 60, [255, 255, 255]))), Ok(None));
    assert!(!is_blank(&solid(100, 100, [255, 255, 255]), 20, 400));
}

#[test]
fn screen_event_image_round_trips() {
    let mut cfg = AgentConfig::default();
    cfg.non_blank_threshold = 1;
    let mut agent = ScreenAgent::new(cfg);
    let r = agent.execute_task(&shot(0, solid(13, 7, [200, 10, 10])));
    let event = match r {
        Ok(Some(ScreenOutput::Screen(e))) => e,
        other => panic!("expected a screen event, got {:?}", other),
    };
    assert_eq!(event.image_id, "19700101-000000-1");
    assert_eq!(event.image.len() % 4, 0);
    let png = base64::engine::general_purpose::STANDARD.decode(event.image.as_bytes()).unwrap();
    assert_eq!(&png[1..4], b"PNG");
    let img = image::load_from_memory_with_format(&png, image::ImageFormat::Png).unwrap();
    assert_eq!((img.width(), img.height()), (13, 7));
    assert_eq!(img.to_rgba8().get_pixel(3, 3).0, [200, 10, 10, 255]);
}

#[test]
fn out_of_range_time_fails_and_keeps_state() {
    let mut cfg = AgentConfig::default();
    cfg.non_blank_threshold = 1;
    let mut agent = ScreenAgent::new(cfg);
    let r = agent.execute_task(&shot(i64::MAX, solid(8, 8, [200, 200, 200])));
    assert_eq!(r, Err(TaskError::Timestamp));
    assert!(agent.last_image.is_none());
    assert!(agent.last_image_id.is_none());
}

#[test]
fn changed_frame_gets_new_id() {
    let mut cfg = AgentConfig::default();
    cfg.non_blank_threshold = 1;
    let mut agent = ScreenAgent::new(cfg);
    let a = agent.execute_task(&shot(0, solid(8, 8, [200, 200, 200])));
    assert!(matches!(a, Ok(Some(ScreenOutput::Screen(_)))));
    let b = agent.execute_task(&shot(61_000, solid(8, 8, [30, 30, 30])));
    match b {
        Ok(Some(ScreenOutput::Screen(e))) => assert_eq!(e.image_id, "19700101-000101-1"),
        other => panic!("expected a screen event, got {:?}", other),
    }
    assert_eq!(agent.last_image_id.as_deref(), Some("19700101-000101-1"));
}

#[test]
fn parse_line_splits_at_first_space() {
    assert_eq!(parse_line(""), None);
    assert_eq!(parse_line("   \n"), None);
    assert_eq!(parse_line(".QUIT\n"), Some((".QUIT", "")));
    assert_eq!(
        parse_line("  .CONFIG {\"interval\": 5}\n"),
        Some((".CONFIG", "{\"interval\": 5}"))
    );
    assert_eq!(parse_line("a b  c"), Some(("a", "b  c")));
}

#[test]
fn split_command_keeps_argument_spaces() {
    assert_eq!(split_command(".QUIT"), (".QUIT", ""));
    assert_eq!(split_command(".CONFIG {\"a\": 1}"), (".CONFIG", "{\"a\": 1}"));
    assert_eq!(split_command(" x"), ("", "x"));
}

#[test]
fn zero_interval_is_rejected() {
    let mut fields = ConfigFields::absent();
    fields.interval = ConfigField::Value(0);
    assert_eq!(AgentConfig::from_fields(fields), Err(ConfigError::Interval));
}

#[test]
fn config_line_is_recognised() {
    assert_eq!(
        process_line(".CONFIG {\"interval\": 5}\n"),
        LineAction::Configure("{\"interval\": 5}".to_string())
    );
}

#[test]
fn quit_line_is_recognised() {
    assert_eq!(process_line(".QUIT\n"), LineAction::Quit);
}

#[test]
fn unknown_and_empty_lines() {
    assert_eq!(process_line(".HELLO there"), LineAction::Unknown(".HELLO".to_string()));
    assert_eq!(process_line("\n"), LineAction::Nothing);
}

#[test]
fn config_interval_update_rearms_timer() {
    let mut agent = ScreenAgent::new(AgentConfig::default());
    let mut timer = TimerState::new(&agent.config);
    assert_eq!(timer.after_tick(&agent.config), None);
    let mut fields = ConfigFields::absent();
    fields.interval = ConfigField::Value(5);
    assert_eq!(agent.apply_config(fields), Ok(()));
    assert_eq!(
        agent.config,
        AgentConfig {
            interval: 5,
            almost_black_threshold: 20,
            non_blank_threshold: 400,
            same_screen_ratio_ppm: 10_000
        }
    );
    assert_eq!(timer.after_tick(&agent.config), Some(5));
    assert_eq!(timer.period, 5);
    assert_eq!(timer.after_tick(&agent.config), None);
}

#[test]
fn config_fields_override_defaults() {
    let fields = ConfigFields {
        interval: ConfigField::Absent,
        almost_black_threshold: ConfigField::Value(7),
        non_blank_threshold: ConfigField::Value(9),
        same_screen_ratio_ppm: ConfigField::Value(500_000),
    };
    assert_eq!(
        AgentConfig::from_fields(fields),
        Ok(AgentConfig {
            interval: 60,
            almost_black_threshold: 7,
            non_blank_threshold: 9,
            same_screen_ratio_ppm: 500_000
        })
    );
    assert_eq!(AgentConfig::from_fields(ConfigFields::absent()), Ok(AgentConfig::default()));
}

#[test]
fn malformed_config_field_is_an_error() {
    let mut fields = ConfigFields::absent();
    fields.non_blank_threshold = ConfigField::Malformed;
    fields.same_screen_ratio_ppm = ConfigField::Malformed;
    assert_eq!(AgentConfig::from_fields(fields), Err(ConfigError::NonBlankThreshold));
    let mut agent = ScreenAgent::new(AgentConfig::default());
    assert_eq!(agent.apply_config(fields), Err(ConfigError::NonBlankThreshold));
    assert_eq!(agent.config, AgentConfig::default());
    let mut one = ConfigFields::absent();
    one.interval = ConfigField::Malformed;
    assert_eq!(AgentConfig::from_fields(one), Err(ConfigError::Interval));
    one.interval = ConfigField::Absent;
    one.almost_black_threshold = ConfigField::Malformed;
    assert_eq!(AgentConfig::from_fields(one), Err(ConfigError::AlmostBlackThreshold));
    one.almost_black_threshold = ConfigField::Absent;
    one.same_screen_ratio_ppm = ConfigField::Malformed;
    assert_eq!(AgentConfig::from_fields(one), Err(ConfigError::SameScreenRatio));
}

#[test]
fn args_config_text() {
    assert_eq!(Args { config: None }.config_text(), "");
    assert_eq!(Args { config: Some("{}".to_string()) }.config_text(), "{}");
}
