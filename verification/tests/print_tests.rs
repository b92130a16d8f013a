use lightpdf::print::get_default_settings;
use lightpdf::print::validate_page_range;
use lightpdf::print::Margins;
use lightpdf::print::Orientation;
use lightpdf::print::PageRange;
use lightpdf::print::PaperSize;
use lightpdf::print::PrintError;
use lightpdf::print::Printer;
use lightpdf::print::StubPrinter;

#[test]
fn test_page_range_all() {
    let range = PageRange::all(10);
    assert_eq!(range.start, 0);
    assert_eq!(range.end, 9);
    assert_eq!(range.page_count(), 10);
}

#[test]
fn test_page_range_single() {
    let range = PageRange::single(5);
    assert_eq!(range.start, 5);
    assert_eq!(range.end, 5);
    assert_eq!(range.page_count(), 1);
}

#[test]
fn test_validate_page_range_all() {
    let result = validate_page_range("all", 10).unwrap();
    assert_eq!(result.start, 0);
    assert_eq!(result.end, 9);
}

#[test]
fn test_validate_page_range_single() {
    let result = validate_page_range("5", 10).unwrap();
    assert_eq!(result.start, 4);
    assert_eq!(result.end, 4);
}

#[test]
fn test_validate_page_range_range() {
    let result = validate_page_range("3-7", 10).unwrap();
    assert_eq!(result.start, 2);
    assert_eq!(result.end, 6);
}

#[test]
fn test_validate_page_range_trims_and_upcases() {
    let result = validate_page_range("  ALL \t", 4).unwrap();
    assert_eq!(result.start, 0);
    assert_eq!(result.end, 3);
    let result = validate_page_range(" 2-3 ", 4).unwrap();
    assert_eq!(result.start, 1);
    assert_eq!(result.end, 2);
}

#[test]
fn test_validate_page_range_empty_is_all() {
    let result = validate_page_range("", 7).unwrap();
    assert_eq!(result.start, 0);
    assert_eq!(result.end, 6);
}

#[test]
fn test_validate_page_range_rejects_zero_page() {
    let result = validate_page_range("0", 10);
    assert!(matches!(result, Err(PrintError::InvalidPageRange(_))));
}

#[test]
fn test_validate_page_range_rejects_page_past_end() {
    assert!(validate_page_range("11", 10).is_err());
}

#[test]
fn test_validate_page_range_rejects_inverted_range() {
    assert!(validate_page_range("5-3", 10).is_err());
}

#[test]
fn test_validate_page_range_rejects_text() {
    assert!(validate_page_range("abc", 10).is_err());
    assert!(validate_page_range("1-x", 10).is_err());
    assert!(validate_page_range("-3", 10).is_err());
    assert!(validate_page_range("+ 5", 10).is_err());
    assert!(validate_page_range("++5", 10).is_err());
}

#[test]
fn test_validate_page_range_trims_sides_and_takes_plus() {
    let result = validate_page_range("3 - 7", 10).unwrap();
    assert_eq!(result.start, 2);
    assert_eq!(result.end, 6);
    let result = validate_page_range("+5", 10).unwrap();
    assert_eq!(result.start, 4);
    assert_eq!(result.end, 4);
    let result = validate_page_range("+2-+3", 10).unwrap();
    assert_eq!(result.start, 1);
    assert_eq!(result.end, 2);
}

#[test]
fn test_validate_page_range_rejects_huge_number() {
    assert!(validate_page_range("99999999999999999999999999", 10).is_err());
}

#[test]
fn test_page_range_contains() {
    let range = PageRange::range(2, 6);
    assert!(range.contains(2));
    assert!(range.contains(6));
    assert!(!range.contains(1));
    assert!(!range.contains(7));
}

#[test]
fn test_paper_size_dimensions() {
    assert_eq!(PaperSize::A4.dimensions_mm(), (2100, 2970));
    assert_eq!(PaperSize::Letter.dimensions_mm(), (2159, 2794));
}

#[test]
fn test_default_settings() {
    let settings = get_default_settings();
    assert_eq!(settings.paper_size, PaperSize::A4);
    assert_eq!(settings.orientation, Orientation::Portrait);
    assert!(settings.page_range.is_none());
    assert_eq!(settings.copies, 1);
    assert!(!settings.duplex);
    assert!(settings.color);
    assert!(settings.scale_to_fit);
    assert_eq!(settings.margins, Margins::default());
}

#[test]
fn test_margins() {
    let margins = Margins::all(50);
    assert_eq!(margins.top, 50);
    assert_eq!(margins.bottom, 50);
    assert_eq!(margins.left, 50);
    assert_eq!(margins.right, 50);
    let margins = Margins::new(1, 2, 3, 4);
    assert_eq!((margins.top, margins.bottom, margins.left, margins.right), (1, 2, 3, 4));
}

#[test]
fn test_stub_printer_has_no_printers() {
    assert!(matches!(StubPrinter::get_printers(), Err(PrintError::PlatformError(_))));
    assert!(StubPrinter::show_print_dialog("a.pdf").is_err());
    assert!(StubPrinter::show_print_preview("a.pdf").is_err());
}

#[test]
fn test_validate_page_range_all_of_empty_document() {
    let result = validate_page_range("all", 0).unwrap();
    assert_eq!(result.start, 0);
    assert_eq!(result.end, 0);
    assert!(validate_page_range("1", 0).is_err());
}
