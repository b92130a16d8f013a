use lightpdf::i18n::I18n;
use lightpdf::i18n::Language;
use lightpdf::loader::PdfLoader;
use lightpdf::paths::is_pdf_file;
use lightpdf::shortcut::ShortcutAction;
use lightpdf::shortcut::ShortcutHandler;
use lightpdf::theme::Theme;
use lightpdf::theme::ThemeColors;

#[test]
fn test_is_pdf() {
    assert!(PdfLoader::is_pdf("test.pdf"));
    assert!(PdfLoader::is_pdf("test.PDF"));
    assert!(PdfLoader::is_pdf("test.Pdf"));
    assert!(!PdfLoader::is_pdf("test.txt"));
    assert!(!PdfLoader::is_pdf("test"));
}

#[test]
fn test_is_pdf_file() {
    assert!(is_pdf_file("test.pdf"));
    assert!(is_pdf_file("test.PDF"));
    assert!(!is_pdf_file("test.txt"));
}

#[test]
fn test_is_pdf_file_looks_at_file_name_only() {
    assert!(is_pdf_file("/srv/files/report.pdf"));
    assert!(is_pdf_file("archive.old/report.pdf"));
    assert!(!is_pdf_file("archive.pdf/report.txt"));
    assert!(!is_pdf_file(".pdf"));
    assert!(!is_pdf_file(""));
}

#[test]
fn test_is_pdf_file_ignores_trailing_separators() {
    assert!(is_pdf_file("dir.pdf/"));
    assert!(is_pdf_file("a/report.pdf//"));
    assert!(!is_pdf_file("///"));
}

#[test]
fn test_translations_per_language() {
    let en = I18n::new(Language::English);
    assert_eq!(en.t("menu_file"), "File");
    assert_eq!(en.t("status_ready"), "Ready");
    let zh = I18n::new(Language::Chinese);
    assert_eq!(zh.t("menu_file"), "文件");
    assert_eq!(zh.t("status_ready"), "就绪");
    let es = I18n::new(Language::Spanish);
    assert_eq!(es.t("menu_file"), "Archivo");
    assert_eq!(es.t("status_ready"), "Listo");
}

#[test]
fn test_unknown_key_comes_back_unchanged() {
    let en = I18n::new(Language::English);
    assert_eq!(en.t("no_such_key"), "no_such_key");
    let zh = I18n::new(Language::Chinese);
    assert_eq!(zh.t("no_such_key"), "no_such_key");
}

#[test]
fn test_language_for_locale() {
    assert_eq!(Language::for_locale("zh_CN.UTF-8"), Language::Chinese);
    assert_eq!(Language::for_locale("es_MX"), Language::Spanish);
    assert_eq!(Language::for_locale("en_US"), Language::English);
    assert_eq!(Language::for_locale(""), Language::English);
    assert_eq!(Language::for_locale("z"), Language::English);
}

#[test]
fn test_theme_palettes_differ() {
    let light = ThemeColors::for_theme(Theme::Light);
    let dark = ThemeColors::for_theme(Theme::Dark);
    assert_eq!(light.background, 0xffffff);
    assert_eq!(dark.background, 0x333333);
    assert_eq!(light.sun_color, 0xffcc00);
    assert_eq!(dark.sun_color, 0xffdd44);
    assert_ne!(light.text, dark.text);
}

#[test]
fn test_theme_toggle_round_trip() {
    assert_eq!(Theme::Light.toggled(), Theme::Dark);
    assert_eq!(Theme::Dark.toggled(), Theme::Light);
    assert_eq!(Theme::default(), Theme::Dark);
}

#[test]
fn test_shortcut_messages() {
    assert_eq!(ShortcutHandler::handle(ShortcutAction::OpenFile), "快捷键: 打开文件");
    assert_eq!(ShortcutHandler::handle(ShortcutAction::ZoomIn), "快捷键: 放大");
    assert_eq!(ShortcutHandler::handle(ShortcutAction::Exit), "快捷键: 退出");
}
