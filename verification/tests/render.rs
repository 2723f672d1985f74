use tada_rust::domain::SurahMeta;
use tada_rust::qari_urls::QariUrls;
use tada_rust::tui::arabic::{format_arabic, format_arabic_checked};
use tada_rust::tui::theme::{parse_color, ColorError, ThemeColor};
use tada_rust::tui::render::{
    active_ayah_ref, audio_badge, ayah_label, ayah_list_window, ayah_row_height,
    can_show_sidebar_in_frame, compute_visible_window, filter_surah_indices, header_title,
    list_capacity, padded_arabic_text, playback_badge, playback_speed, reader_density,
    reader_hints, secondary_panel_height, sidebar_cards, sidebar_width, viewport_mode, CardStyle,
    ReaderDensity, Rect, SidebarCard, UiScale, VisibleWindow,
};
use tada_rust::tui::PaneFocus;

fn mk_surah(no: u16, name_id: &str) -> SurahMeta {
    SurahMeta {
        surah_no: no,
        name_ar: name_id.to_string(),
        name_id: name_id.to_string(),
        ayah_count: 7,
        audio_full: None,
        audio_full_urls: QariUrls::new(),
    }
}

#[test]
fn filter_surah_indices_supports_number_and_name() {
    let surahs = vec![
        mk_surah(1, "Al-Fatihah"),
        mk_surah(2, "Al-Baqarah"),
        mk_surah(3, "Ali Imran"),
    ];

    assert_eq!(filter_surah_indices(&surahs, "2"), vec![1]);
    assert_eq!(filter_surah_indices(&surahs, "baq"), vec![1]);
    assert_eq!(filter_surah_indices(&surahs, "ALI"), vec![2]);
}

#[test]
fn filter_surah_indices_empty_query_returns_all() {
    let surahs = vec![mk_surah(1, "A"), mk_surah(2, "B"), mk_surah(3, "C")];
    assert_eq!(filter_surah_indices(&surahs, ""), vec![0, 1, 2]);
}

#[test]
fn compute_visible_window_bounds_are_valid() {
    let VisibleWindow { start, end } = compute_visible_window(8, 20, 5);
    assert!(start < end);
    assert!(end <= 20);
    assert!(end - start <= 5);
}

#[test]
fn reader_density_switches_for_roomy_layouts() {
    assert_eq!(
        reader_density(Rect::new(0, 0, 120, 32)),
        ReaderDensity::Wide
    );
    assert_eq!(
        reader_density(Rect::new(0, 0, 90, 24)),
        ReaderDensity::Compact
    );
}

#[test]
fn ayah_row_height_grows_when_translation_is_enabled() {
    assert!(
        ayah_row_height(ReaderDensity::Wide, true) > ayah_row_height(ReaderDensity::Wide, false)
    );
}

#[test]
fn ayah_row_height_grows_in_compact_mode() {
    assert!(
        ayah_row_height(ReaderDensity::Compact, true) > ayah_row_height(ReaderDensity::Wide, true)
    );
}

#[test]
fn sidebar_visibility_uses_full_frame_constraints() {
    assert!(can_show_sidebar_in_frame(Rect::new(0, 0, 140, 35)));
    assert!(!can_show_sidebar_in_frame(Rect::new(0, 0, 131, 35)));
    assert!(!can_show_sidebar_in_frame(Rect::new(0, 0, 140, 33)));
}

#[test]
fn padded_arabic_text_adds_single_top_padding() {
    let padded = padded_arabic_text("ayat", 5);
    let lines: Vec<_> = padded.split('\n').collect();
    assert_eq!(lines.len(), 2);
    assert_eq!(lines.first(), Some(&""));
    assert_eq!(lines.get(1), Some(&"ayat"));
}

#[test]
fn test_arabic_reshape_behavior() {
    let text = "Hello World";
    let reshaped = format_arabic(text, None);
    assert_eq!(text, reshaped, "Non-Arabic text should remain unchanged");

    let mixed = "Hello سلام World";
    let reshaped_mixed = format_arabic(mixed, None);
    assert_ne!(mixed, reshaped_mixed, "Arabic text should be reshaped");
    assert!(
        reshaped_mixed.contains("Hello"),
        "Should still contain 'Hello'"
    );
    assert!(
        reshaped_mixed.contains("World"),
        "Should still contain 'World'"
    );

    let with_harakat = "بِسْمِ اللَّهِ";
    let reshaped_harakat = format_arabic(with_harakat, None);
    assert_ne!(
        with_harakat, reshaped_harakat,
        "Arabic with harakat should be reshaped"
    );
    assert!(!reshaped_harakat.is_empty());
}

#[test]
fn format_arabic_wraps_long_text_into_lines() {
    let wrapped = format_arabic("alpha beta gamma delta", Some(11));
    assert_eq!(wrapped.split('\n').count(), 2);
    let unwrapped = format_arabic("alpha beta gamma delta", Some(0));
    assert_eq!(unwrapped, "alpha beta gamma delta");
}

#[test]
fn padded_arabic_text_leaves_full_rows_alone() {
    assert_eq!(padded_arabic_text("a\nb\nc", 3), "a\nb\nc");
    assert_eq!(padded_arabic_text("a\nb", 3), "a\nb");
    assert_eq!(padded_arabic_text("ayat", 0), "ayat");
    assert_eq!(padded_arabic_text("", 5), "");
}

#[test]
fn visible_window_follows_the_ends_of_the_list() {
    let w = compute_visible_window(0, 20, 5);
    assert_eq!((w.start, w.end), (0, 5));
    let w = compute_visible_window(19, 20, 5);
    assert_eq!((w.start, w.end), (15, 20));
    let w = compute_visible_window(8, 20, 5);
    assert_eq!((w.start, w.end), (6, 11));
    let w = compute_visible_window(3, 4, 10);
    assert_eq!((w.start, w.end), (0, 4));
}

#[test]
fn sidebar_width_is_a_quarter_within_bounds() {
    assert_eq!(sidebar_width(80), 28);
    assert_eq!(sidebar_width(200), 48);
    assert_eq!(sidebar_width(120), 28);
    assert_eq!(sidebar_width(150), 36);
}

#[test]
fn layout_helpers_report_exact_values() {
    let scale = UiScale::from_area(Rect::new(0, 0, 100, 28));
    assert_eq!((scale.header_height, scale.footer_height), (2, 4));
    let scale = UiScale::from_area(Rect::new(0, 0, 100, 27));
    assert_eq!(scale.footer_height, 3);
    let r = Rect::new(65000, 0, 1000, 10);
    assert_eq!(r.width, 535);
    let mode = viewport_mode(Rect::new(0, 0, 140, 35), false);
    assert!(mode.show_sidebar);
    assert_eq!(mode.sidebar_width, 33);
    assert!(!viewport_mode(Rect::new(0, 0, 140, 35), true).show_sidebar);
    assert_eq!(secondary_panel_height(true, true), 2);
    assert_eq!(secondary_panel_height(false, true), 1);
    assert_eq!(audio_badge(true), "audio siap");
    assert_eq!(audio_badge(false), "tanpa audio");
    assert_eq!(ayah_label(2, 255), " 2:255 ");
}

fn mk_ayah(surah_no: u16, ayah_no: u16) -> tada_rust::domain::Ayah {
    tada_rust::domain::Ayah {
        surah_no,
        ayah_no,
        arabic_text: "x".to_string(),
        transliteration: None,
        translation: None,
        audio_url: None,
        audio_urls: QariUrls::new(),
    }
}

fn mk_state(count: u16) -> tada_rust::tui::TuiState {
    let surahs = (1..=count).map(|n| mk_surah(n, &format!("Surah-{n}"))).collect();
    tada_rust::tui::TuiState::new(
        surahs,
        tada_rust::tui::theme::default_themes(),
        "dark",
        true,
        false,
        "ar.alafasy".to_string(),
    )
}

#[test]
fn sidebar_cards_center_on_the_cursor_and_mark_styles() {
    let mut state = mk_state(20);
    state.surah_cursor_idx = 10;
    state.selected_surah_idx = 9;
    state.focus = PaneFocus::SurahCards;
    // 15 rows hold five cards of three rows, centred on the cursor.
    let cards = sidebar_cards(&state, 15);
    let idx: Vec<usize> = cards.iter().map(|c| c.surah_idx).collect();
    assert_eq!(idx, vec![8, 9, 10, 11, 12]);
    assert_eq!(cards[1], SidebarCard { surah_idx: 9, style: CardStyle::Active });
    assert_eq!(cards[2], SidebarCard { surah_idx: 10, style: CardStyle::Focus });
    assert_eq!(cards[0].style, CardStyle::Plain);
    // Without the focus, the cursor's card is drawn like any other.
    state.focus = PaneFocus::AyahReader;
    assert_eq!(sidebar_cards(&state, 15)[2].style, CardStyle::Plain);
}

#[test]
fn sidebar_cards_follow_the_filter_and_show_one_card_at_least() {
    let mut state = mk_state(20);
    state.surah_cursor_idx = 10;
    state.surah_filter = "Surah-1".to_string();
    // Surahs 1 and 10..=19 match; the cursor's surah (11, index 10) is the third.
    let cards = sidebar_cards(&state, 2);
    assert_eq!(cards.len(), 1);
    assert_eq!(cards[0].surah_idx, 10);
    // A filter that hides the cursor centres on the first card.
    state.surah_filter = "Surah-2".to_string();
    let cards = sidebar_cards(&state, 3);
    assert_eq!(cards.iter().map(|c| c.surah_idx).collect::<Vec<_>>(), vec![1]);
    state.surah_filter = "zzz".to_string();
    assert!(sidebar_cards(&state, 30).is_empty());
}

#[test]
fn list_capacity_counts_whole_items_and_at_least_one() {
    assert_eq!(list_capacity(15, 3), 5);
    assert_eq!(list_capacity(17, 3), 5);
    assert_eq!(list_capacity(2, 3), 1);
    assert_eq!(list_capacity(0, 7), 1);
}

#[test]
fn ayah_list_window_uses_the_row_height() {
    let mut state = mk_state(1);
    state.ayahs = (1..=30).map(|n| mk_ayah(1, n)).collect();
    state.selected_ayah_idx = 15;
    // Wide rows without translation are 6 tall: 30 rows show five ayahs.
    let w = ayah_list_window(&state, 30, ReaderDensity::Wide);
    assert_eq!((w.start, w.end), (13, 18));
    state.show_translation = true;
    // Compact rows with translation are 9 tall: three ayahs.
    let w = ayah_list_window(&state, 30, ReaderDensity::Compact);
    assert_eq!((w.start, w.end), (14, 17));
}

#[test]
fn header_texts_name_the_surah_and_the_active_ayah() {
    let mut state = mk_state(3);
    state.selected_surah_idx = 1;
    assert_eq!(header_title(&state), "02. SURAH-2");
    assert_eq!(active_ayah_ref(&state), "-");
    state.ayahs = vec![mk_ayah(2, 1), mk_ayah(2, 255)];
    state.selected_ayah_idx = 1;
    assert_eq!(active_ayah_ref(&state), "2:255");
}

#[test]
fn playback_texts_without_a_player() {
    let state = mk_state(1);
    assert_eq!(playback_badge(&state), "STOP");
    assert_eq!(playback_speed(&state), "1.00x");
    assert_eq!(
        reader_hints(true, true),
        ("terjemahan aktif", "Ctrl+B untuk membuka panel surat.")
    );
    assert_eq!(
        reader_hints(false, false),
        ("reader fokus Arabic", "Panel surat terbuka. Ketik untuk filter.")
    );
}

#[test]
fn ascii_uppercase_leaves_other_characters() {
    assert_eq!(tada_rust::text::ascii_uppercase("Al-Fātiḥah 1"), "AL-FāTIḥAH 1");
}

#[test]
fn arabic_text_with_a_joiner_is_not_reshaped() {
    assert_eq!(format_arabic_checked("\u{200D}\u{0644}\u{0627}", None), None);
    assert_eq!(
        format_arabic_checked("\u{0644}\u{0627}", None),
        Some(format_arabic("\u{0644}\u{0627}", None))
    );
}

#[test]
fn colours_outside_ascii_are_unknown_or_invalid_hex() {
    assert_eq!(parse_color("ééé"), Err(ColorError::Unknown));
    assert_eq!(parse_color("#ééé"), Err(ColorError::InvalidHex));
    assert_eq!(parse_color("##0a0B0c"), Ok(ThemeColor::Rgb(10, 11, 12)));
    assert_eq!(parse_color("#12345"), Err(ColorError::InvalidHexLength));
    assert_eq!(parse_color("Light_Blue"), Ok(ThemeColor::LightBlue));
}

#[test]
fn very_long_arabic_text_is_not_reshaped() {
    let long = "\u{0628}".repeat(32768);
    assert_eq!(format_arabic_checked(&long, None), None);
}
