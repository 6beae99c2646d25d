use e_chess::eink::{format_pin, EinkState};
use e_chess::esp_requester::{check_status, end_stream, feed_stream, take_utf8, EspRequester, RequestError};
use e_chess::led_display::{get_pixel, spinner_trail, BORDER_SQUARES};
use e_chess::requester::ErrorMessage;
use e_chess::simulator::{apply_command, parse_command, parse_square, Command};
use e_chess::wifi::{ap_config, choose_config, connect_step, ConnectStep, WifiConfig};
use e_chess::web_form::{client_credentials, api_token, form_value_of, game_key_from_uri, split_text, wifi_credentials, KeyQuery};

#[test]
fn status_checks() {
    assert!(check_status(200).is_ok());
    assert!(check_status(299).is_ok());
    assert!(matches!(check_status(404), Err(RequestError::Status(404))));
    assert!(matches!(check_status(199), Err(RequestError::Status(199))));
    assert_eq!(RequestError::Status(404).message(), "HTTP status error: 404");
    assert_eq!(RequestError::Read("gone".to_string()).message(), "Read error: gone");
    assert_eq!(RequestError::Esp("E".to_string()).message(), "ESP error: E");
    assert_eq!(RequestError::EspIO("F".to_string()).message(), "ESP IO error: F");
    assert_eq!(EspRequester::new("key".to_string()).authorization(), "Bearer key");
}

#[test]
fn utf8_is_cut_before_an_incomplete_character() {
    let bytes = "aé".as_bytes();
    let (text, rest) = take_utf8(&bytes[..2]);
    assert_eq!(text, "a");
    assert_eq!(rest, vec![0xC3]);
    let mut joined = rest.clone();
    joined.push(bytes[2]);
    let (text, rest) = take_utf8(&joined);
    assert_eq!(text, "é");
    assert!(rest.is_empty());
}

#[test]
fn streams_are_cut_into_lines() {
    let mut acc = String::new();
    assert_eq!(feed_stream(&mut acc, "{\"a\"").unwrap(), Vec::<String>::new());
    assert_eq!(feed_stream(&mut acc, ":1}\n\n{\"b\":2}\n{").unwrap(), vec!["{\"a\":1}".to_string(), "{\"b\":2}".to_string()]);
    assert_eq!(acc, "{");
    assert!(feed_stream(&mut acc, " \n ").is_none());
    assert_eq!(acc, "{");
    assert_eq!(end_stream(acc), Some("{".to_string()));
    assert_eq!(end_stream(String::new()), None);
}

#[test]
fn leds_run_as_a_snake() {
    assert_eq!(get_pixel(56), 7); // a8
    assert_eq!(get_pixel(63), 0); // h8
    assert_eq!(get_pixel(48), 8); // a7
    assert_eq!(get_pixel(0), 56); // a1
    let mut seen = [false; 64];
    for square in 0u8..64 {
        let p = get_pixel(square);
        assert!(!seen[p]);
        seen[p] = true;
    }
    let trail = spinner_trail(0);
    assert_eq!(trail[0], BORDER_SQUARES[0]);
    assert_eq!(trail[1], BORDER_SQUARES[27]);
    assert_eq!(trail[7], BORDER_SQUARES[21]);
}

#[test]
fn the_screen_cycles_its_pages() {
    let mut screen = EinkState::new();
    let first = screen.tick(false, None).unwrap();
    assert_eq!(first, vec!["BLE Pin".to_string(), "No BLE Pin".to_string()]);
    assert!(screen.tick(false, None).is_none());
    assert!(screen.tick(false, Some(42)).is_none());
    let drawn = screen.tick(true, None).unwrap();
    assert_eq!(drawn, vec!["BLE Pin".to_string(), "000042".to_string()]);
    assert_eq!(format_pin(1234567), "1234567");
    assert_eq!(format_pin(0), "000000");
}

#[test]
fn squares_and_commands_of_the_simulator() {
    assert_eq!(parse_square("a1"), Some(0));
    assert_eq!(parse_square("b5"), Some(33));
    assert_eq!(parse_square("h8"), Some(63));
    assert_eq!(parse_square("i1"), None);
    assert_eq!(parse_square("a9"), None);
    assert_eq!(parse_square("a10"), None);
    assert_eq!(parse_command("take b5"), Command::Take(33));
    assert_eq!(parse_command("  P   a2 "), Command::Put(8));
    assert_eq!(parse_command("t a1 a2"), Command::InvalidFormat);
    assert_eq!(parse_command("put z9"), Command::InvalidSquare);
    assert_eq!(parse_command("quit"), Command::Quit);
    assert_eq!(parse_command("EXIT"), Command::Quit);
    assert_eq!(parse_command("move a1"), Command::Unknown);
    let board = apply_command(0b11, Command::Take(0));
    assert_eq!(board, 0b10);
    assert_eq!(apply_command(board, Command::Put(0)), 0b11);
    assert_eq!(apply_command(board, Command::Quit), board);
}

#[test]
fn settings_forms() {
    assert_eq!(split_text("a&&b", '&'), vec!["a".to_string(), String::new(), "b".to_string()]);
    assert_eq!(split_text("", '&'), vec![String::new()]);
    let (ssid, password) = wifi_credentials("ssid=My%20Net&password=p%26ss&x").unwrap();
    assert_eq!(ssid, "My Net");
    assert_eq!(password, "p&ss");
    assert!(wifi_credentials("ssid=net&password=").is_none());
    assert!(wifi_credentials("ssid=net").is_none());
    assert_eq!(api_token("api_token=abc&api_token=def"), "def");
    assert_eq!(api_token("other=1"), "");
    assert_eq!(form_value_of("k=a=b", "k"), "a");
    assert_eq!(form_value_of("k=%ff", "k"), "");
}

#[test]
fn keys_of_games_to_load() {
    assert!(matches!(game_key_from_uri("/load-game?x=1&key=abc%2Fd"), KeyQuery::Key(ref k) if k == "abc/d"));
    assert!(matches!(game_key_from_uri("/load-game?keys=1"), KeyQuery::Missing));
    assert!(matches!(game_key_from_uri("/load-game"), KeyQuery::Missing));
    assert!(matches!(game_key_from_uri("/load-game?key=%ff"), KeyQuery::Undecodable));
}

#[test]
fn stream_lines_do_not_depend_on_reads() {
    let text = "{\"a\":1}\n{\"b\":2}\n\nrest";
    let mut whole = String::new();
    let all = feed_stream(&mut whole, text).unwrap();
    for cut in 1..text.len() {
        let (x, y) = text.split_at(cut);
        if x.trim().is_empty() || y.trim().is_empty() {
            continue;
        }
        let mut acc = String::new();
        let mut lines = feed_stream(&mut acc, x).unwrap();
        lines.extend(feed_stream(&mut acc, y).unwrap());
        assert_eq!(lines, all);
        assert_eq!(acc, whole);
    }
}

#[test]
fn button_a_turns_the_page_on_a_debounced_rise() {
    let mut screen = EinkState::new();
    // The first tick draws the first page; the button starts released high and bounces.
    assert!(screen.tick_buttons(true, true, None).is_some());
    assert!(screen.tick_buttons(false, true, None).is_none());
    assert!(screen.tick_buttons(false, true, None).is_none());
    assert!(screen.tick_buttons(true, true, None).is_none());
    // Two high readings in a row: a rising edge, a new page to draw.
    assert!(screen.tick_buttons(true, true, Some(7)).is_some());
    assert!(screen.tick_buttons(true, true, None).is_none());
}

#[test]
fn wifi_credentials_fit_the_driver() {
    let (ssid, password) = client_credentials("net", "secret").unwrap();
    assert_eq!(ssid.as_str(), "net");
    assert_eq!(password.as_str(), "secret");
    assert!(client_credentials(&"s".repeat(32), &"p".repeat(64)).is_some());
    assert!(client_credentials(&"s".repeat(33), "p").is_none());
    assert!(client_credentials("s", &"p".repeat(65)).is_none());
    assert!(client_credentials(&"é".repeat(17), "p").is_none());
}

#[test]
fn the_board_opens_its_own_access_point_when_needed() {
    use_wifi();
}

fn use_wifi() {
    let ap = ap_config();
    assert_eq!(ap.ssid, "E-Chess");
    assert_eq!(ap.password, "1337_e-chess");
    assert_eq!((ap.channel, ap.max_connections), (1, 4));
    assert!(matches!(choose_config(None), (WifiConfig::AccessPoint { ref ssid }, true) if ssid == "E-Chess"));
    let other_ap = WifiConfig::AccessPoint { ssid: "Old".to_string() };
    assert!(matches!(choose_config(Some(other_ap)), (WifiConfig::AccessPoint { ref ssid }, true) if ssid == "E-Chess"));
    let own_ap = WifiConfig::AccessPoint { ssid: "E-Chess".to_string() };
    assert!(matches!(choose_config(Some(own_ap)), (WifiConfig::AccessPoint { .. }, false)));
    let client = WifiConfig::Client { ssid: "Home".to_string() };
    assert!(matches!(choose_config(Some(client)), (WifiConfig::Client { ref ssid }, false) if ssid == "Home"));
    assert_eq!(connect_step(3, true), ConnectStep::Connected);
    assert_eq!(connect_step(15, false), ConnectStep::Wait);
    assert_eq!(connect_step(16, false), ConnectStep::FallBack);
}

#[test]
fn simulator_input_is_read_after_lower_casing() {
    assert!(matches!(e_chess::simulator::parse_input("take e2"), e_chess::simulator::Command::Take(12)));
    assert!(matches!(e_chess::simulator::parse_input("quit"), e_chess::simulator::Command::Quit));
    assert!(matches!(e_chess::simulator::parse_input("put z9"), e_chess::simulator::Command::InvalidSquare));
}
