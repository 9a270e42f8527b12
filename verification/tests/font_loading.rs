use azul_frame::font_loading::{
    font_source_get_bytes, font_source_get_bytes_inner, gsettings_key, join_lines,
    linux_get_native_font, load_system_font, native_font_kind, parse_gsettings_font,
    resolve_system_font, system_font_or_error, FontReloadError, FontSource,
    LinuxNativeFontType, SystemFontQuery,
};
use azul_frame::text::has_nul;
use std::path::PathBuf;

#[test]
fn test_parse_gsettings_font() {
    assert_eq!(parse_gsettings_font("'Ubuntu 11'"), "Ubuntu");
    assert_eq!(parse_gsettings_font("'Ubuntu Mono 13'"), "Ubuntu Mono");
}

#[test]
fn parse_gsettings_font_strips_space_and_newline() {
    assert_eq!(parse_gsettings_font("  'Cantarell 11'\n"), "Cantarell");
    assert_eq!(parse_gsettings_font("''"), "");
    assert_eq!(parse_gsettings_font("DejaVu Sans"), "DejaVu Sans");
}

#[test]
fn parse_gsettings_font_knows_white_space_and_numbers() {
    // a no-break space and an ideographic space are white space
    assert_eq!(parse_gsettings_font("\u{a0}'Noto Sans 10'\u{3000}"), "Noto Sans");
    // a zero-width space is not
    assert_eq!(parse_gsettings_font("\u{200b}Noto"), "\u{200b}Noto");
    // only digits are numeric among the ASCII characters
    assert_eq!(parse_gsettings_font("Font 12.5"), "Font 12.");
    assert_eq!(parse_gsettings_font("Font x9"), "Font x");
    assert_eq!(parse_gsettings_font("1234"), "");
    // the size is taken off once the quotes are: inside them it stays
    assert_eq!(parse_gsettings_font("'Ubuntu 11 '"), "Ubuntu 11");
}

#[test]
fn lines_are_joined_without_their_endings() {
    assert_eq!(join_lines("'Ubuntu 11'\n"), "'Ubuntu 11'");
    assert_eq!(join_lines("a\r\nb\nc"), "abc");
    assert_eq!(join_lines("\n\n"), "");
    assert_eq!(join_lines(""), "");
    // a carriage return stays where no line feed follows it
    assert_eq!(join_lines("a\rb\r"), "a\rb\r");
    assert_eq!(join_lines("a\r\r\nb"), "a\rb");
    assert_eq!(
        linux_get_native_font(LinuxNativeFontType::SansSerif, Some("'Cantarell\r\n 11'\n")),
        "Cantarell"
    );
}

#[test]
fn native_font_falls_back_without_gsettings() {
    assert_eq!(linux_get_native_font(LinuxNativeFontType::SansSerif, None), "Ubuntu");
    assert_eq!(linux_get_native_font(LinuxNativeFontType::Monospace, None), "Ubuntu Mono");
    assert_eq!(
        linux_get_native_font(LinuxNativeFontType::Monospace, Some("'Fira Code 12'")),
        "Fira Code"
    );
}

#[test]
fn generic_font_names_are_mapped() {
    let family = |name: &str| SystemFontQuery::Family(name.to_string());
    assert_eq!(resolve_system_font("monospace", Some("Fira Code")), family("Fira Code"));
    assert_eq!(resolve_system_font("monospace", None), SystemFontQuery::Monospace);
    assert_eq!(resolve_system_font("fantasy", Some("Fira Code")), SystemFontQuery::Oblique);
    assert_eq!(resolve_system_font("fantasy", None), SystemFontQuery::Oblique);
    assert_eq!(resolve_system_font("sans-serif", Some("Cantarell")), family("Cantarell"));
    assert_eq!(resolve_system_font("sans-serif", None), family("Segoe UI"));
    assert_eq!(resolve_system_font("serif", Some("Cantarell")), family("Times New Roman"));
    assert_eq!(resolve_system_font("serif", None), family("Times New Roman"));
    assert_eq!(resolve_system_font("Helvetica", Some("Cantarell")), family("Helvetica"));
    assert_eq!(resolve_system_font("", None), family(""));
}

#[test]
fn only_two_names_stand_for_a_font_of_the_desktop() {
    assert_eq!(native_font_kind("monospace"), Some(LinuxNativeFontType::Monospace));
    assert_eq!(native_font_kind("sans-serif"), Some(LinuxNativeFontType::SansSerif));
    assert_eq!(native_font_kind("serif"), None);
    assert_eq!(native_font_kind("fantasy"), None);
    assert_eq!(native_font_kind("Monospace"), None);
    assert_eq!(native_font_kind("Ubuntu"), None);
    assert_eq!(native_font_kind(""), None);
}

#[test]
fn embedded_font_gives_its_bytes() {
    let source = FontSource::Embedded(vec![1, 2, 3]);
    assert_eq!(font_source_get_bytes(&source, Ok(Vec::new()), None), Some((vec![1, 2, 3], 0)));
    // what the font database may have answered is not looked at
    assert_eq!(
        font_source_get_bytes(&source, Ok(vec![4]), Some((vec![5], 6))),
        Some((vec![1, 2, 3], 0))
    );
}

#[test]
fn font_file_gives_what_was_read() {
    let source = FontSource::File(PathBuf::from("font.ttf"));
    assert_eq!(font_source_get_bytes(&source, Ok(vec![9, 8]), None), Some((vec![9, 8], 0)));
    let failed = std::io::Error::new(std::io::ErrorKind::NotFound, "gone");
    assert_eq!(font_source_get_bytes(&source, Err(failed), None), None);
}

#[test]
fn font_name_with_nul_is_not_asked_for() {
    assert_eq!(load_system_font("Bad\0Font", Some("Ubuntu")), None);
    assert_eq!(load_system_font("Bad\0Font", None), None);
    assert_eq!(load_system_font("monospace", Some("Mono\0")), None);
    assert_eq!(load_system_font("monospace", None), Some(SystemFontQuery::Monospace));
    assert_eq!(
        load_system_font("sans-serif", Some("Sans")),
        Some(SystemFontQuery::Family("Sans".to_string()))
    );
    assert_eq!(load_system_font("fantasy", Some("Mono\0")), Some(SystemFontQuery::Oblique));
    assert!(!SystemFontQuery::Family("a\0".to_string()).is_askable());
    assert!(SystemFontQuery::Family("Arial".to_string()).is_askable());
    assert!(SystemFontQuery::Oblique.is_askable());
}

#[test]
fn system_font_gives_what_the_database_answered() {
    let source = FontSource::System("Arial".to_string());
    assert_eq!(
        font_source_get_bytes(&source, Ok(Vec::new()), Some((vec![1, 2], 3))),
        Some((vec![1, 2], 3))
    );
    assert_eq!(font_source_get_bytes(&source, Ok(vec![7]), None), None);
}

#[test]
fn every_font_error_has_its_cause() {
    let source = FontSource::File(PathBuf::from("font.ttf"));
    let failed = std::io::Error::new(std::io::ErrorKind::NotFound, "gone");
    match font_source_get_bytes_inner(&source, Err(failed), None) {
        Err(FontReloadError::Io(err, path)) => {
            assert_eq!(err.kind(), std::io::ErrorKind::NotFound);
            assert_eq!(path, PathBuf::from("font.ttf"));
        }
        other => panic!("unexpected: {:?}", other),
    }
    let source = FontSource::System("Bad\0Font".to_string());
    match font_source_get_bytes_inner(&source, Ok(Vec::new()), None) {
        Err(FontReloadError::FontNotFound(id)) => assert_eq!(id, "Bad\0Font"),
        other => panic!("unexpected: {:?}", other),
    }
    match system_font_or_error(&"Arial".to_string(), None) {
        Err(FontReloadError::FontNotFound(id)) => assert_eq!(id, "Arial"),
        other => panic!("unexpected: {:?}", other),
    }
    match system_font_or_error(&"Arial".to_string(), Some((vec![1, 2], 3))) {
        Ok(font) => assert_eq!(font, (vec![1, 2], 3)),
        other => panic!("unexpected: {:?}", other),
    }
}

#[test]
fn the_desktop_settings_have_their_keys() {
    assert_eq!(gsettings_key(LinuxNativeFontType::SansSerif), "font-name");
    assert_eq!(gsettings_key(LinuxNativeFontType::Monospace), "monospace-font-name");
}

#[test]
fn font_error_messages() {
    let not_found = FontReloadError::FontNotFound("Arial".to_string());
    assert_eq!(not_found.to_string(), "Could not locate system font: \"Arial\" found");
    let io = FontReloadError::Io(
        std::io::Error::new(std::io::ErrorKind::NotFound, "gone"),
        PathBuf::from("font.ttf"),
    );
    assert_eq!(io.to_string(), "Could not load \"font.ttf\" - IO error: gone");
    match io.clone() {
        FontReloadError::Io(err, path) => {
            assert_eq!(err.kind(), std::io::ErrorKind::NotFound);
            assert_eq!(err.to_string(), "Io Error");
            assert_eq!(path, PathBuf::from("font.ttf"));
        }
        FontReloadError::FontNotFound(_) => panic!("the kind of the error changed"),
    }
}

#[test]
fn a_nul_character_is_found_wherever_it_stands() {
    assert!(!has_nul(""));
    assert!(!has_nul("u_color"));
    assert!(has_nul("\0"));
    assert!(has_nul("\0u_color"));
    assert!(has_nul("u_\0color"));
    assert!(has_nul("u_color\0"));
    assert!(!has_nul("u_color0"));
}
