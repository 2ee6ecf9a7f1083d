use blairpng::{is_png_name, resolve_worker_count, select_pngs};

#[test]
fn png_extension_is_matched_case_insensitively() {
    assert!(is_png_name("a.png"));
    assert!(is_png_name("A.PNG"));
    assert!(is_png_name("archive.PnG"));
}

#[test]
fn other_extensions_are_rejected() {
    assert!(!is_png_name("x.txt"));
    assert!(!is_png_name("pic.png.bak"));
    assert!(!is_png_name("noext"));
    assert!(!is_png_name("png"));
    assert!(!is_png_name("a.pngs"));
}

#[test]
fn hidden_file_without_stem_has_no_extension() {
    assert!(!is_png_name(".png"));
    assert!(is_png_name("..png"));
}

#[test]
fn select_pngs_keeps_only_candidates_in_order() {
    let names = vec![
        "b.PNG".to_string(),
        "notes.txt".to_string(),
        "a.png".to_string(),
        ".png".to_string(),
    ];
    let picked = select_pngs(&names);
    assert_eq!(picked, vec!["b.PNG".to_string(), "a.png".to_string()]);
}

#[test]
fn select_pngs_of_empty_listing_is_empty() {
    let picked = select_pngs(&vec![]);
    assert!(picked.is_empty());
}

#[test]
fn worker_count_resolution() {
    assert_eq!(resolve_worker_count(Some(4), 8), 4);
    assert_eq!(resolve_worker_count(Some(0), 8), 1);
    assert_eq!(resolve_worker_count(None, 8), 8);
    assert_eq!(resolve_worker_count(None, 0), 1);
    assert_eq!(resolve_worker_count(Some(1), 0), 1);
}
