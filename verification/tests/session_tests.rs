use lightpdf::raster::PageImage;
use lightpdf::session::AppState;
use lightpdf::session::ScrollMode;
use lightpdf::tabs::Tab;
use lightpdf::tabs::TabManager;
use lightpdf::theme::Theme;

fn open_session(paths: &[&str], pages: usize) -> AppState {
    let mut state = AppState::new();
    for (i, p) in paths.iter().enumerate() {
        state.open_file(p.to_string(), i as u64, pages);
    }
    state
}

fn active_tab(state: &AppState) -> &Tab {
    let id = state.get_active_tab_id().unwrap();
    state.get_tab(id).unwrap()
}

#[test]
fn test_open_file_registers_active_tab() {
    let state = open_session(&["/docs/a.pdf"], 3);
    let tab = active_tab(&state);
    assert_eq!(tab.path, "/docs/a.pdf");
    assert_eq!(tab.page_count, 3);
    assert_eq!(tab.current_page, 0);
    assert_eq!(tab.zoom, 100);
    assert_eq!(tab.rotation, 0);
    assert!(tab.page_image.is_none());
    assert!(tab.page_dimensions.is_none());
    assert_eq!(state.get_recent_files().as_slice(), ["/docs/a.pdf"]);
}

#[test]
fn test_navigation_clamps_at_last_page() {
    // A five-page document sitting on its last page stays there.
    let mut state = open_session(&["a.pdf"], 5);
    state.navigate_to_page(4);
    assert_eq!(active_tab(&state).current_page, 4);
    state.next_page();
    assert_eq!(active_tab(&state).current_page, 4);
    assert!(state.render_request(state.get_active_tab_id().unwrap()).is_some());
}

#[test]
fn test_navigation_clamps_at_first_page() {
    let mut state = open_session(&["a.pdf"], 5);
    state.prev_page();
    assert_eq!(active_tab(&state).current_page, 0);
    state.next_page();
    state.prev_page();
    state.prev_page();
    assert_eq!(active_tab(&state).current_page, 0);
}

#[test]
fn test_navigate_out_of_range_clamps_to_last_page() {
    let mut state = open_session(&["a.pdf"], 3);
    state.navigate_to_page(1);
    state.navigate_to_page(9);
    assert_eq!(active_tab(&state).current_page, 2);
    state.navigate_to_page(0);
    assert_eq!(active_tab(&state).current_page, 0);
}

#[test]
fn test_zoom_stays_within_bounds() {
    let mut state = open_session(&["a.pdf"], 3);
    for _ in 0..40 {
        state.zoom_in();
    }
    assert_eq!(active_tab(&state).zoom, 300);
    for _ in 0..60 {
        state.zoom_out();
    }
    assert_eq!(active_tab(&state).zoom, 50);
    state.set_zoom(1000);
    assert_eq!(active_tab(&state).zoom, 300);
    state.set_zoom(0);
    assert_eq!(active_tab(&state).zoom, 50);
    state.reset_zoom();
    assert_eq!(active_tab(&state).zoom, 100);
}

#[test]
fn test_zoom_steps_by_tenth() {
    let mut state = open_session(&["a.pdf"], 3);
    state.zoom_in();
    assert_eq!(active_tab(&state).zoom, 110);
    state.zoom_out();
    state.zoom_out();
    assert_eq!(active_tab(&state).zoom, 90);
}

#[test]
fn test_rotation_cycles_through_quarter_turns() {
    let mut state = open_session(&["a.pdf"], 3);
    let mut seen = Vec::new();
    for _ in 0..4 {
        state.rotate_clockwise();
        seen.push(active_tab(&state).rotation);
    }
    assert_eq!(seen, [90, 180, 270, 0]);
    state.rotate_counter_clockwise();
    assert_eq!(active_tab(&state).rotation, 270);
}

#[test]
fn test_fit_width_sets_clamped_zoom() {
    let mut state = open_session(&["a.pdf"], 3);
    // A 400-point page in an 800-point viewport doubles.
    state.fit_width(400, 800);
    assert_eq!(active_tab(&state).zoom, 200);
    // An extreme ratio is clamped to the policy bounds.
    state.fit_width(10, 8000);
    assert_eq!(active_tab(&state).zoom, 300);
    state.fit_width(8000, 10);
    assert_eq!(active_tab(&state).zoom, 50);
}

#[test]
fn test_fit_page_takes_smaller_fit() {
    let mut state = open_session(&["a.pdf"], 3);
    // 600x800 page into 600x800 viewport: exactly 1.0.
    state.fit_page(600, 800, 600, 800);
    assert_eq!(active_tab(&state).zoom, 100);
    // Width would allow 2.0 but height only 1.5.
    state.fit_page(300, 400, 600, 600);
    assert_eq!(active_tab(&state).zoom, 150);
}

#[test]
fn test_close_active_tab_promotes_same_index() {
    let mut state = open_session(&["a.pdf", "b.pdf", "c.pdf"], 2);
    let tabs: Vec<usize> = state.get_all_tabs().iter().map(|t| t.id).collect();
    state.set_active_tab(tabs[1]);
    state.close_tab(tabs[1]);
    // The tab now occupying index 1 is promoted.
    assert_eq!(state.get_active_tab_id(), Some(tabs[2]));
    let remaining: Vec<usize> = state.get_all_tabs().iter().map(|t| t.id).collect();
    assert_eq!(remaining, [tabs[0], tabs[2]]);
}

#[test]
fn test_close_last_active_tab_promotes_new_last() {
    let mut state = open_session(&["a.pdf", "b.pdf", "c.pdf"], 2);
    let tabs: Vec<usize> = state.get_all_tabs().iter().map(|t| t.id).collect();
    state.set_active_tab(tabs[2]);
    state.close_tab(tabs[2]);
    assert_eq!(state.get_active_tab_id(), Some(tabs[1]));
}

#[test]
fn test_close_only_tab_clears_active() {
    let mut state = open_session(&["a.pdf"], 2);
    let id = state.get_active_tab_id().unwrap();
    state.close_tab(id);
    assert_eq!(state.get_active_tab_id(), None);
    assert!(state.get_all_tabs().is_empty());
}

#[test]
fn test_close_inactive_tab_keeps_active() {
    let mut state = open_session(&["a.pdf", "b.pdf"], 2);
    let tabs: Vec<usize> = state.get_all_tabs().iter().map(|t| t.id).collect();
    state.close_tab(tabs[0]);
    assert_eq!(state.get_active_tab_id(), Some(tabs[1]));
}

#[test]
fn test_close_unknown_tab_is_ignored() {
    let mut state = open_session(&["a.pdf"], 2);
    let id = state.get_active_tab_id().unwrap();
    state.close_tab(id + 77);
    assert_eq!(state.get_active_tab_id(), Some(id));
    assert_eq!(state.get_all_tabs().len(), 1);
}

#[test]
fn test_tab_ids_are_never_reused() {
    let mut state = open_session(&["a.pdf", "b.pdf"], 2);
    let first = state.get_all_tabs()[0].id;
    state.close_tab(first);
    let new_id = state.open_file("c.pdf".to_string(), 9, 2);
    assert_ne!(new_id, first);
    assert_eq!(new_id, 2);
}

#[test]
fn test_reopening_recent_path_moves_it_to_front() {
    // Recent files are ["b.pdf", "a.pdf"]; opening "b.pdf" again keeps
    // the order and adds no duplicate.
    let mut state = open_session(&["a.pdf", "b.pdf"], 2);
    assert_eq!(state.get_recent_files().as_slice(), ["b.pdf", "a.pdf"]);
    state.open_file("b.pdf".to_string(), 5, 2);
    assert_eq!(state.get_recent_files().as_slice(), ["b.pdf", "a.pdf"]);
}

#[test]
fn test_reopening_older_path_moves_it_to_front() {
    let mut state = open_session(&["a.pdf", "b.pdf"], 2);
    state.open_file("a.pdf".to_string(), 5, 2);
    assert_eq!(state.get_recent_files().as_slice(), ["a.pdf", "b.pdf"]);
}

#[test]
fn test_recent_files_never_exceed_ten() {
    let names: Vec<String> = (0..12).map(|i| format!("doc{}.pdf", i)).collect();
    let mut state = AppState::new();
    for (i, name) in names.iter().enumerate() {
        state.open_file(name.clone(), i as u64, 1);
    }
    let recent = state.get_recent_files();
    assert_eq!(recent.len(), 10);
    assert_eq!(recent[0], "doc11.pdf");
    assert_eq!(recent[9], "doc2.pdf");
}

#[test]
fn test_remove_from_recent() {
    let mut state = open_session(&["a.pdf", "b.pdf"], 2);
    state.remove_from_recent("a.pdf");
    assert_eq!(state.get_recent_files().as_slice(), ["b.pdf"]);
    state.remove_from_recent("missing.pdf");
    assert_eq!(state.get_recent_files().as_slice(), ["b.pdf"]);
}

#[test]
fn test_theme_and_language_round_trip() {
    let mut state = AppState::new();
    assert_eq!(state.get_theme(), Theme::Dark);
    state.toggle_theme();
    assert_eq!(state.get_theme(), Theme::Light);
    state.toggle_theme();
    assert_eq!(state.get_theme(), Theme::Dark);
    state.set_theme(Theme::Light);
    assert_eq!(state.get_theme(), Theme::Light);
    let lang = lightpdf::i18n::Language::Spanish;
    state.set_language(lang);
    assert_eq!(state.get_language(), lang);
}

#[test]
fn test_scroll_mode_switches() {
    let mut state = AppState::new();
    assert_eq!(state.get_scroll_mode(), ScrollMode::Page);
    state.set_scroll_mode(ScrollMode::Smooth);
    assert_eq!(state.get_scroll_mode(), ScrollMode::Smooth);
}

#[test]
fn test_render_request_reads_tab_state() {
    let mut state = open_session(&["a.pdf"], 4);
    let id = state.get_active_tab_id().unwrap();
    state.navigate_to_page(2);
    state.zoom_in();
    state.rotate_clockwise();
    let request = state.render_request(id).unwrap();
    assert_eq!(request.page, 2);
    assert_eq!(request.zoom, 110);
    assert_eq!(request.rotation, 90);
    assert!(state.render_request(id + 50).is_none());
}

fn gradient_image(width: u32, height: u32) -> PageImage {
    let pixels: Vec<u32> = (0..width as usize * height as usize).map(|i| i as u32).collect();
    PageImage { width, height, pixels }
}

#[test]
fn test_rotated_render_swaps_dimensions() {
    // An unrotated 600x800 render published under a 90-degree rotation
    // caches an 800x600 image.
    let mut state = open_session(&["a.pdf"], 3);
    let id = state.get_active_tab_id().unwrap();
    state.rotate_clockwise();
    assert_eq!(active_tab(&state).rotation, 90);
    let request = state.render_request(id).unwrap();
    state.complete_render(id, request, gradient_image(600, 800));
    let tab = active_tab(&state);
    assert_eq!(tab.page_dimensions, Some((800, 600)));
    let image = tab.page_image.as_ref().unwrap();
    assert_eq!((image.width, image.height), (800, 600));
}

#[test]
fn test_render_is_idempotent() {
    // Publishing the same engine output twice under the same request
    // caches bitwise-identical pixels.
    let mut state = open_session(&["a.pdf"], 3);
    let id = state.get_active_tab_id().unwrap();
    state.rotate_clockwise();
    let request = state.render_request(id).unwrap();
    state.complete_render(id, request, gradient_image(6, 4));
    let first = active_tab(&state).page_image.as_ref().unwrap().pixels.clone();
    state.complete_render(id, request, gradient_image(6, 4));
    let second = active_tab(&state).page_image.as_ref().unwrap().pixels.clone();
    assert_eq!(first, second);
}

#[test]
fn test_render_for_unknown_tab_is_dropped() {
    let mut state = open_session(&["a.pdf"], 3);
    let id = state.get_active_tab_id().unwrap();
    let request = state.render_request(id).unwrap();
    state.complete_render(id + 9, request, gradient_image(2, 2));
    assert!(active_tab(&state).page_image.is_none());
}

#[test]
fn test_close_file_closes_active() {
    let mut state = open_session(&["a.pdf", "b.pdf"], 2);
    let tabs: Vec<usize> = state.get_all_tabs().iter().map(|t| t.id).collect();
    state.close_file();
    assert_eq!(state.get_active_tab_id(), Some(tabs[0]));
    assert_eq!(state.get_all_tabs().len(), 1);
}

#[test]
fn test_set_outline() {
    let mut state = open_session(&["a.pdf"], 3);
    let id = state.get_active_tab_id().unwrap();
    let outline = vec![lightpdf::outline::OutlineItem::new("Intro".to_string(), 0)];
    state.set_outline(id, outline);
    let items = active_tab(&state).outline_items.as_ref().unwrap();
    assert_eq!(items.len(), 1);
    assert_eq!(items[0].title, "Intro");
    assert_eq!(items[0].page, 0);
}

#[test]
fn test_tab_manager_direct_operations() {
    let mut tabs = TabManager::new();
    assert_eq!(tabs.get_active_tab(), None);
    let a = tabs.create_tab("a.pdf".to_string());
    let b = tabs.create_tab("b.pdf".to_string());
    assert_eq!(tabs.get_active_tab(), Some(b));
    tabs.set_active_tab(a);
    assert_eq!(tabs.get_active_tab(), Some(a));
    tabs.set_active_tab(b + 10);
    assert_eq!(tabs.get_active_tab(), Some(a));
    assert!(tabs.get_tab(a).is_some());
    assert!(tabs.get_tab(b + 10).is_none());
    assert_eq!(tabs.get_all_tabs().len(), 2);
}

#[test]
fn test_tab_file_name() {
    let tab = Tab::new(0, "/home/user/docs/report.pdf".to_string());
    assert_eq!(tab.file_name(), "report.pdf");
    let tab = Tab::new(1, "plain.pdf".to_string());
    assert_eq!(tab.file_name(), "plain.pdf");
    let tab = Tab::new(2, "".to_string());
    assert_eq!(tab.file_name(), "Untitled");
    let tab = Tab::new(3, "dir/".to_string());
    assert_eq!(tab.file_name(), "dir");
    let tab = Tab::new(4, "//".to_string());
    assert_eq!(tab.file_name(), "Untitled");
}

#[test]
fn test_operations_without_active_tab_do_nothing() {
    let mut state = AppState::new();
    state.next_page();
    state.prev_page();
    state.zoom_in();
    state.rotate_clockwise();
    state.close_file();
    assert_eq!(state.get_active_tab_id(), None);
    assert!(state.get_all_tabs().is_empty());
}

#[test]
fn test_empty_document_stays_on_page_zero() {
    // A document with no pages keeps the placeholder page zero through
    // every navigation.
    let mut state = open_session(&["empty.pdf"], 0);
    state.next_page();
    state.prev_page();
    state.navigate_to_page(3);
    let tab = active_tab(&state);
    assert_eq!(tab.page_count, 0);
    assert_eq!(tab.current_page, 0);
}
