use history_clipboard::content::Content;
use history_clipboard::history::{is_shown, update_clipboard, Clipboard, ContentType, MultiVector};

fn text(s: &str) -> Content {
    Content::Text(s.to_string())
}

fn text_at(h: &Clipboard, i: usize) -> String {
    match h.get(i) {
        Content::Text(t) => t.clone(),
        _ => panic!("expected text"),
    }
}

fn image() -> Content {
    let img = image::RgbaImage::from_pixel(1, 1, image::Rgba([1, 2, 3, 255]));
    let mut out = std::io::Cursor::new(Vec::new());
    image::DynamicImage::ImageRgba8(img)
        .write_to(&mut out, image::ImageOutputFormat::Png)
        .unwrap();
    Content::decode_image(out.into_inner()).unwrap()
}

#[test]
fn history_keeps_newest_within_capacity() {
    let mut h = Clipboard::new(3);
    for s in ["a", "b", "c", "d"] {
        update_clipboard(&mut h, text(s));
    }
    assert_eq!(h.len(), 3);
    assert_eq!(text_at(&h, 0), "d");
    assert_eq!(text_at(&h, 1), "c");
    assert_eq!(text_at(&h, 2), "b");
}

#[test]
fn history_below_capacity_keeps_all() {
    let mut h = Clipboard::new(5);
    update_clipboard(&mut h, text("a"));
    update_clipboard(&mut h, text("b"));
    assert_eq!(h.len(), 2);
    assert_eq!(text_at(&h, 0), "b");
    assert_eq!(text_at(&h, 1), "a");
}

#[test]
fn history_of_capacity_zero_stays_empty() {
    let mut h = Clipboard::new(0);
    update_clipboard(&mut h, text("a"));
    assert_eq!(h.len(), 0);
}

#[test]
fn history_filter_type_can_be_changed() {
    let mut h = Clipboard::new(2);
    h.set_content_type(ContentType::Image);
    update_clipboard(&mut h, text("a"));
    assert_eq!(h.len(), 1);
}

#[test]
fn multi_vector_counts_by_type() {
    let mut v = MultiVector::new(ContentType::Text, vec![text("a"), image(), text("b")]);
    assert_eq!(v.len(), 2);
    v.push_front(image());
    assert_eq!(v.len(), 2);
    assert_eq!(MultiVector::new(ContentType::Image, vec![text("a"), image(), image()]).len(), 2);
    assert_eq!(MultiVector::new(ContentType::All, vec![text("a"), image()]).len(), 2);
    assert_eq!(MultiVector::new(ContentType::All, Vec::new()).len(), 0);
    match v.pop_back() {
        Some(Content::Text(t)) => assert_eq!(t, "b"),
        _ => panic!("expected the last text"),
    }
    assert_eq!(v.len(), 1);
}

#[test]
fn multi_vector_pop_back_on_empty() {
    let mut v = MultiVector::new(ContentType::All, Vec::new());
    assert!(v.pop_back().is_none());
}

#[test]
fn filter_shows_matching_kinds() {
    assert!(is_shown(ContentType::All, &text("a")));
    assert!(is_shown(ContentType::Text, &text("a")));
    assert!(!is_shown(ContentType::Image, &text("a")));
    assert!(is_shown(ContentType::Image, &image()));
    assert!(!is_shown(ContentType::Text, &image()));
}

#[test]
fn multi_vector_lists_shown_positions() {
    let v = MultiVector::new(ContentType::Text, vec![image(), text("a"), image(), text("b")]);
    assert_eq!(v.shown_positions(), vec![1, 3]);
    let v = MultiVector::new(ContentType::Image, vec![image(), text("a"), image()]);
    assert_eq!(v.shown_positions(), vec![0, 2]);
    let v = MultiVector::new(ContentType::All, vec![text("a"), image()]);
    assert_eq!(v.shown_positions(), vec![0, 1]);
}

#[test]
fn multi_vector_same() {
    let a = MultiVector::new(ContentType::All, vec![text("a"), image()]);
    let b = MultiVector::new(ContentType::All, vec![text("a"), image()]);
    let c = MultiVector::new(ContentType::Text, vec![text("a"), image()]);
    let d = MultiVector::new(ContentType::All, vec![text("b"), image()]);
    let e = MultiVector::new(ContentType::All, vec![text("a")]);
    assert!(a.same(&b));
    assert!(!a.same(&c));
    assert!(!a.same(&d));
    assert!(!a.same(&e));
}
