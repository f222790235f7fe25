use heartio::banner::table_row;
use heartio::config::{Config, SourceConfig};
use heartio::osc::{encode_chatbox_message, NotifyError, MESSAGE_MAX_LENGTH};
use heartio::thresholds::{render_template, select_label, text_for_choice, HeartRateLabel};

fn table(rows: &[(&str, &[&str])]) -> Vec<HeartRateLabel> {
    rows.iter()
        .map(|(k, ts)| HeartRateLabel {
            threshold: k.to_string(),
            templates: ts.iter().map(|t| t.to_string()).collect(),
        })
        .collect()
}

fn selected_bound(labels: &Vec<HeartRateLabel>, bpm: u32) -> Option<String> {
    select_label(labels, bpm).map(|i| labels[i].threshold.clone())
}

#[test]
fn selector_picks_smallest_bound_above() {
    let cfg = Config::default();
    let labels = &cfg.heart_rate_label;
    assert_eq!(selected_bound(labels, 65).as_deref(), Some("70"));
    assert_eq!(selected_bound(labels, 70).as_deref(), Some("80"));
    assert_eq!(selected_bound(labels, 999).as_deref(), Some("999"));
    assert_eq!(selected_bound(labels, 5000).as_deref(), Some("999"));
    assert_eq!(selected_bound(labels, 0).as_deref(), Some("70"));
    assert_eq!(selected_bound(labels, 149).as_deref(), Some("150"));
}

#[test]
fn selector_ignores_row_order_and_non_numeric_keys() {
    let labels = table(&[
        ("999", &["top {{bpm}}"]),
        ("abc", &["never"]),
        ("+80", &["mid {{bpm}}"]),
        ("70", &["low {{bpm}}"]),
        ("", &["never"]),
        ("99999999999", &["never"]),
    ]);
    assert_eq!(selected_bound(&labels, 10).as_deref(), Some("70"));
    assert_eq!(selected_bound(&labels, 75).as_deref(), Some("+80"));
    assert_eq!(selected_bound(&labels, 80).as_deref(), Some("999"));
    assert_eq!(selected_bound(&labels, 4000).as_deref(), Some("999"));
}

#[test]
fn selector_on_table_without_numeric_bound_is_none() {
    assert_eq!(select_label(&vec![], 70), None);
    let labels = table(&[("x", &["a"])]);
    assert_eq!(select_label(&labels, 70), None);
    let cfg = Config { heart_rate_label: labels, ..Config::default() };
    assert_eq!(cfg.get_heart_rate_text(70), None);
}

#[test]
fn selector_with_duplicate_bounds_prefers_plain_decimal_key() {
    let labels = table(&[("070", &["x{{bpm}}"]), ("70", &["y{{bpm}}"])]);
    assert_eq!(select_label(&labels, 5), Some(1));
    assert_eq!(text_for_choice(&labels, 5, 0).as_deref(), Some("y5"));
    let labels = table(&[("80", &["first {{bpm}}"]), ("080", &["second {{bpm}}"])]);
    assert_eq!(select_label(&labels, 50), Some(0));
    assert_eq!(text_for_choice(&labels, 50, 0).as_deref(), Some("first 50"));
}

#[test]
fn selector_with_only_padded_keys_uses_first_row() {
    let labels = table(&[("+70", &["a{{bpm}}"]), ("070", &["b{{bpm}}"])]);
    assert_eq!(text_for_choice(&labels, 5, 0).as_deref(), Some("a5"));
    let labels = table(&[("070", &["only{{bpm}}"])]);
    assert_eq!(text_for_choice(&labels, 5, 0).as_deref(), Some("only5"));
}

#[test]
fn template_substitutes_every_token() {
    assert_eq!(render_template("{{bpm}}", 72), "72");
    assert_eq!(render_template("a {{bpm}} b {{bpm}}", 105), "a 105 b 105");
    assert_eq!(render_template("no token", 72), "no token");
    assert_eq!(render_template("{{bpm}", 72), "{{bpm}");
    assert_eq!(render_template("{{{bpm}}}", 9), "{9}");
    assert_eq!(render_template("", 9), "");
    assert_eq!(render_template("\u{2661} {{bpm}}", 65), "\u{2661} 65");
}

#[test]
fn default_config_texts() {
    let cfg = Config::default();
    assert_eq!(cfg.get_heart_rate_text(65).as_deref(), Some("\u{2661} 65"));
    assert_eq!(cfg.get_heart_rate_text(75).as_deref(), Some("\u{2764}\u{fe0f} 75"));
    assert_eq!(cfg.get_heart_rate_text(99).as_deref(), Some("\u{1f495} 99 \u{1f495}"));
}

#[test]
fn random_template_is_one_of_the_bucket() {
    let cfg = Config::default();
    let options: Vec<String> = (0..3).map(|c| text_for_choice(&cfg.heart_rate_label, 200, c).unwrap()).collect();
    assert_eq!(options[2], "LOVE \u{2764}\u{fe0f} 200 \u{2764}\u{fe0f} LOVE");
    for _ in 0..50 {
        let t = cfg.get_heart_rate_text(200).unwrap();
        assert!(options.contains(&t));
    }
    assert_eq!(text_for_choice(&cfg.heart_rate_label, 200, 5), text_for_choice(&cfg.heart_rate_label, 200, 2));
}

#[test]
fn empty_bucket_gives_no_text() {
    let labels = table(&[("100", &[])]);
    assert_eq!(text_for_choice(&labels, 50, 0), None);
}

#[test]
fn source_selection_order() {
    let mut cfg = Config::default();
    assert!(matches!(cfg.source(), SourceConfig::HeuristicBluetooth));
    cfg.heart_rate_device_address = Some("AA:BB".to_string());
    assert!(matches!(cfg.source(), SourceConfig::AddressedBluetooth(a) if a == "AA:BB"));
    cfg.heart_rate_device_name = Some("Polar".to_string());
    assert!(matches!(cfg.source(), SourceConfig::NamedBluetooth(n) if n == "Polar"));
    cfg.apple_watch = true;
    assert!(matches!(cfg.source(), SourceConfig::HttpIngest(2333)));
    cfg.xiaomi_band = true;
    assert!(matches!(cfg.source(), SourceConfig::AdvertisementScan));
}

#[test]
fn default_config_values() {
    let cfg = Config::default();
    assert_eq!(cfg.osc_host, "127.0.0.1");
    assert_eq!(cfg.osc_port, 9000);
    assert!(cfg.heart_rate_device_name.is_none());
    assert!(!cfg.apple_watch && !cfg.xiaomi_band);
    assert_eq!(cfg.heart_rate_label.len(), 6);
}

#[test]
fn chatbox_message_bytes() {
    let bytes = match encode_chatbox_message("hi") {
        Ok(b) => b,
        Err(_) => panic!("encoding failed"),
    };
    let mut expected = b"/chatbox/input\0\0".to_vec();
    expected.extend_from_slice(b",sTF\0\0\0\0");
    expected.extend_from_slice(b"hi\0\0");
    assert_eq!(bytes, expected);
}

#[test]
fn chatbox_message_pads_full_words() {
    let bytes = match encode_chatbox_message("abcd") {
        Ok(b) => b,
        Err(_) => panic!("encoding failed"),
    };
    assert_eq!(bytes.len(), 16 + 8 + 8);
    assert_eq!(&bytes[24..], b"abcd\0\0\0\0");
}

#[test]
fn chatbox_message_length_limit() {
    let longest = "x".repeat(MESSAGE_MAX_LENGTH);
    assert!(encode_chatbox_message(&longest).is_ok());
    let too_long = "x".repeat(MESSAGE_MAX_LENGTH + 1);
    assert!(matches!(encode_chatbox_message(&too_long), Err(NotifyError::TooLong { length: 145 })));
    let hearts = "\u{2661}".repeat(144);
    assert!(encode_chatbox_message(&hearts).is_ok());
}

#[test]
fn banner_row_is_padded_to_width() {
    let row = table_row("Platform", "linux-x86_64", 44);
    assert_eq!(row, format!("\u{2551}  Platform: linux-x86_64{} \u{2551}", " ".repeat(13)));
    assert_eq!(row.len(), 44);
    let wide = table_row("Platform", &"x".repeat(60), 44);
    assert_eq!(wide, format!("\u{2551}  Platform: {} \u{2551}", "x".repeat(60)));
}
