//! The knobs of a demo host.
use welding::options::{
    demo_switches, env_background, first_char, initial_url, parse_count, parse_credentials,
    parse_drag, parse_integer, parse_point, parse_seconds, parse_switches, parse_trimmed_seconds,
    popup_limit, time_limit,
    surface_config, SurfaceVars, PIXEL_FIXTURE_URL,
};
use welding::text::{push_decimal, push_signed};
use welding::{PhysicalSize, Platform};

#[test]
fn points_are_two_numbers() {
    assert_eq!(parse_point("3,4"), Some((3, 4)));
    assert_eq!(parse_point(" -3 ,\t+4\n"), Some((-3, 4)));
    assert_eq!(parse_point("2147483647,-2147483648"), Some((i32::MAX, i32::MIN)));
    for bad in ["", "3", "3,", ",4", "3,4,5", "3.0,4", "2147483648,0", "0,-2147483649", "- 3,4"] {
        assert_eq!(parse_point(bad), None, "{bad:?}");
    }
}

#[test]
fn numbers_are_read_as_the_standard_library_reads_them() {
    for text in [
        "0", "-0", "+0", "00012", "-7", "+", "-", "", " 5", "5 ", "--5", "1_000", "0x10", "٣", "99999999999",
        "2147483647", "-2147483648", "2147483648",
    ] {
        assert_eq!(parse_integer(text), text.trim().parse::<i32>().ok(), "{text:?}");
        assert_eq!(parse_count(text), text.parse::<u32>().ok(), "{text:?}");
        assert_eq!(parse_seconds(text), text.parse::<u64>().ok(), "{text:?}");
        assert_eq!(parse_trimmed_seconds(text), text.trim().parse::<u64>().ok(), "{text:?}");
    }
    assert_eq!(parse_seconds("18446744073709551615"), Some(u64::MAX));
    assert_eq!(parse_seconds("18446744073709551616"), None);
}

#[test]
fn white_space_is_trimmed_as_the_standard_library_trims_it() {
    for code in 0..0x3100u32 {
        let Some(c) = char::from_u32(code) else { continue };
        let text = format!("{c}7{c}");
        assert_eq!(parse_integer(&text), text.trim().parse::<i32>().ok(), "{code:#x}");
    }
}

#[test]
fn numbers_are_written_in_decimal() {
    for n in [0, 7, 10, 999, 1000, u64::MAX] {
        let mut text = String::from("n=");
        push_decimal(&mut text, n);
        assert_eq!(text, format!("n={n}"));
    }
    for n in [0, -1, 42, i64::MAX, i64::MIN] {
        let mut text = String::new();
        push_signed(&mut text, n);
        assert_eq!(text, n.to_string());
    }
}

#[test]
fn a_drag_is_four_numbers_and_the_rest_does_not_count() {
    assert_eq!(parse_drag("1,2, 3 ,-4"), Some((1, 2, 3, -4)));
    assert_eq!(parse_drag("1,2,3,4,five"), Some((1, 2, 3, 4)));
    assert_eq!(parse_drag("1,2,3"), None);
    assert_eq!(parse_drag("1,2,x,4"), None);
}

#[test]
fn credentials_split_at_the_first_colon() {
    let owned = |user: &str, password: &str| (user.to_owned(), password.to_owned());
    assert_eq!(parse_credentials("u:p:q"), owned("u", "p:q"));
    assert_eq!(parse_credentials("user"), owned("user", ""));
    assert_eq!(parse_credentials(":p"), owned("", "p"));
}

#[test]
fn switches_may_have_values() {
    let entry = |name: &str, value: Option<&str>| (name.to_owned(), value.map(str::to_owned));
    assert_eq!(
        parse_switches("disable-popup-blocking,lang=en-GB,,x=a=b,=v"),
        vec![
            entry("disable-popup-blocking", None),
            entry("lang", Some("en-GB")),
            entry("x", Some("a=b")),
            entry("", Some("v")),
        ]
    );
    assert!(parse_switches("").is_empty());
    assert_eq!(
        demo_switches(Platform::Linux, Some("a")),
        vec![entry("no-first-run", None), entry("no-default-browser-check", None), entry("a", None)]
    );
    assert_eq!(demo_switches(Platform::Macos, None), vec![entry("use-mock-keychain", None)]);
    assert!(demo_switches(Platform::Windows, None).is_empty());
}

#[test]
fn a_background_is_a_colour_or_nothing() {
    assert_eq!(env_background(None), Some([255, 255, 255]));
    assert_eq!(env_background(Some("TransParent")), None);
    assert_eq!(env_background(Some("transparent ")), Some([255, 255, 255]));
    assert_eq!(env_background(Some("1e90ff")), Some([0x1e, 0x90, 0xff]));
    assert_eq!(env_background(Some("##1E90FF")), Some([0x1e, 0x90, 0xff]));
    assert_eq!(env_background(Some("12345678")), Some([0x34, 0x56, 0x78]));
    assert_eq!(env_background(Some("123456789")), Some([255, 255, 255]));
    assert_eq!(env_background(Some("+f")), Some([0, 0, 15]));
    assert_eq!(env_background(Some("red")), Some([255, 255, 255]));
}

#[test]
fn the_fixture_outranks_the_configured_page() {
    assert_eq!(initial_url(true, Some("https://a/".to_owned())), PIXEL_FIXTURE_URL);
    assert_eq!(initial_url(false, Some("https://a/".to_owned())), "https://a/");
    assert_eq!(initial_url(false, None), "https://example.com");
}

#[test]
fn a_key_is_the_first_character() {
    assert_eq!(first_char("éx"), Some('é'));
    assert_eq!(first_char(""), None);
}

#[test]
fn a_demo_surface_takes_what_the_environment_says() {
    let config = surface_config(
        "https://a/".to_owned(),
        PhysicalSize::new(3, 4),
        SurfaceVars {
            background: Some("transparent".to_owned()),
            download_dir: Some("/d".to_owned()),
            profile: None,
            protocol: true,
            auth: false,
            permissions: true,
        },
    );
    assert_eq!(config.initial_url, "https://a/");
    assert_eq!(config.background_color, None);
    assert_eq!(config.download_dir.as_deref(), Some("/d"));
    assert!(config.devtools_protocol && config.handle_permission_requests);
    assert!(!config.handle_auth_challenges);
}

#[test]
fn a_run_ends_by_what_is_asked_for() {
    assert_eq!(popup_limit(Some("3"), true), Some(3));
    assert_eq!(popup_limit(Some("x"), true), Some(1));
    assert_eq!(popup_limit(None, true), Some(1));
    assert_eq!(popup_limit(None, false), None);
    assert_eq!(time_limit(Some("5"), false, Platform::Linux), Some(5));
    assert_eq!(time_limit(Some("x"), true, Platform::Linux), None);
    assert_eq!(time_limit(None, true, Platform::Windows), None);
    assert_eq!(time_limit(Some("5"), true, Platform::Macos), Some(5));
    assert_eq!(time_limit(Some("x"), false, Platform::Macos), Some(60));
    assert_eq!(time_limit(None, true, Platform::Macos), Some(60));
    assert_eq!(time_limit(None, false, Platform::Macos), None);
}
