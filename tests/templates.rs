use tarkuck::capture::FrameCapture;
use tarkuck::detection::{
    accepts, select_detections, BestMatch, Candidate, ItemDetector, Rect, TemplateMatcher, DEFAULT_THRESHOLD,
};
use tarkuck::image::Image;
use tarkuck::item::Item;
use tarkuck::template::{template_file_name, template_uid, TemplateError, TemplateManager};

fn gray(w: u32, h: u32, fill: u8) -> Image {
    Image::new(w, h, 1, vec![fill; (w * h) as usize]).unwrap()
}

fn item(uid: &str, name: &str, price: i32) -> Item {
    Item {
        uid: uid.to_string(),
        name: name.to_string(),
        short_name: name.to_string(),
        price,
        avg_24h_price: price,
        avg_7days_price: price,
        trader_name: String::new(),
        trader_price: 0,
        icon: String::new(),
        img: String::new(),
        img_big: String::new(),
        bsg_id: String::new(),
        is_functional: true,
        tags: Vec::new(),
        updated: String::new(),
    }
}

#[test]
fn image_size_must_match_data() {
    assert!(Image::new(2, 3, 1, vec![0; 6]).is_some());
    assert!(Image::new(2, 3, 3, vec![0; 6]).is_none());
    assert!(Image::new(0, 0, 1, Vec::new()).is_some());
}

#[test]
fn template_names() {
    assert_eq!(template_file_name("5c0e"), "5c0e.png");
    assert_eq!(template_uid("5c0e.png"), Some("5c0e".to_string()));
    assert_eq!(template_uid("a.b.png"), Some("a.b".to_string()));
    assert_eq!(template_uid("5c0e.jpg"), None);
    assert_eq!(template_uid(".png"), None);
    assert_eq!(template_uid("png"), None);
}

#[test]
fn load_with_one_corrupt_file_fails_and_changes_nothing() {
    let mut m = TemplateManager::new("templates");
    let r = m.load_templates(vec![("good".to_string(), Some(gray(2, 2, 1))), ("bad".to_string(), None)]);
    assert_eq!(r, Err(TemplateError::Decode("bad".to_string())));
    assert_eq!(m.get_template_count(), 0);
    assert!(m.get_template(&"good".to_string()).is_none());
}

#[test]
fn load_replaces_the_library() {
    let mut m = TemplateManager::new("templates");
    m.add_template("old".to_string(), gray(1, 1, 0));
    assert_eq!(m.load_templates(vec![("a".to_string(), Some(gray(2, 2, 1))), ("b".to_string(), Some(gray(3, 3, 2)))]), Ok(()));
    assert_eq!(m.get_template_count(), 2);
    assert!(m.get_template(&"old".to_string()).is_none());
    assert_eq!(m.get_template(&"b".to_string()).unwrap().width, 3);
    let before = m.get_template_count();
    assert!(m.load_templates(vec![("c".to_string(), None)]).is_err());
    assert_eq!(m.get_template_count(), before);
}

#[test]
fn download_skips_failed_items() {
    let mut m = TemplateManager::new("templates");
    let count = m.download_templates(vec![
        ("one".to_string(), Some(gray(2, 2, 1))),
        ("two".to_string(), None),
        ("three".to_string(), Some(gray(2, 2, 3))),
    ]);
    assert_eq!(count, 2);
    assert!(m.get_template(&"one".to_string()).is_some());
    assert!(m.get_template(&"two".to_string()).is_none());
    assert_eq!(m.get_template(&"three".to_string()).unwrap().data[0], 3);
    let mut ids = m.get_all_template_ids();
    ids.sort();
    assert_eq!(ids, vec!["one".to_string(), "three".to_string()]);
}

#[test]
fn process_leaves_loaded_templates_alone() {
    let mut m = TemplateManager::new("templates");
    m.add_template("a".to_string(), gray(1, 1, 9));
    m.process_templates(vec![("a".to_string(), gray(1, 1, 0)), ("b".to_string(), gray(1, 1, 5))]);
    assert_eq!(m.get_template(&"a".to_string()).unwrap().data[0], 9);
    assert_eq!(m.get_template(&"b".to_string()).unwrap().data[0], 5);
    assert!(m.has_template(&"b".to_string()));
    assert_eq!(m.get_template_count(), 2);
    m.process_templates(vec![("c".to_string(), gray(1, 1, 7)), ("c".to_string(), gray(1, 1, 8))]);
    assert_eq!(m.get_template(&"c".to_string()).unwrap().data[0], 7);
}

#[test]
fn remove_twice_is_harmless() {
    let mut m = TemplateManager::new("templates");
    m.add_template("a".to_string(), gray(1, 1, 0));
    m.add_template("b".to_string(), gray(1, 1, 0));
    m.remove_template(&"a".to_string());
    assert_eq!(m.get_template_count(), 1);
    m.remove_template(&"a".to_string());
    assert_eq!(m.get_template_count(), 1);
    assert!(m.get_template(&"b".to_string()).is_some());
    assert_eq!(m.template_dir, "templates");
}

#[test]
fn threshold_is_inclusive() {
    assert!(accepts(800_000, 800_000));
    assert!(!accepts(790_000, 800_000));
    assert!(!accepts(799_999, DEFAULT_THRESHOLD));
}

fn candidate(uid: &str, x: i32, y: i32, score: u32) -> Candidate {
    Candidate { item_uid: uid.to_string(), width: 32, height: 32, best: BestMatch { x, y, score } }
}

#[test]
fn matcher_keeps_matches_at_or_above_threshold() {
    let cands = vec![candidate("a", 1, 2, 800_000), candidate("b", 3, 4, 790_000), candidate("c", 5, 6, 1_000_000)];
    let d = select_detections(&cands, 800_000);
    assert_eq!(d.len(), 2);
    assert_eq!(d[0].item_uid, "a");
    assert_eq!(d[0].rect, Rect { x: 1, y: 2, width: 32, height: 32 });
    assert_eq!(d[1].item_uid, "c");
    assert_eq!(d[1].confidence, 1_000_000);
}

#[test]
fn matcher_without_templates_finds_nothing() {
    let mut m = TemplateMatcher::new(DEFAULT_THRESHOLD);
    let cands = vec![candidate("a", 1, 2, 900_000)];
    assert!(m.match_templates(&cands).is_empty());
    m.set_template_manager();
    assert_eq!(m.match_templates(&cands).len(), 1);
    m.set_threshold(950_000);
    assert!(m.match_templates(&cands).is_empty());
}

#[test]
fn detector_finds_known_icon() {
    let mut det = ItemDetector::new(DEFAULT_THRESHOLD);
    det.add_template(gray(32, 32, 1), item("ledx", "LEDX", 1_000_000));
    let found = det.detect_items(&vec![Some(BestMatch { x: 50, y: 50, score: 990_000 })]);
    assert_eq!(found.len(), 1);
    assert_eq!(found[0].0, Rect { x: 50, y: 50, width: 32, height: 32 });
    assert_eq!(found[0].1.uid, "ledx");
    let none = det.detect_items(&vec![Some(BestMatch { x: 3, y: 7, score: 200_000 })]);
    assert!(none.is_empty());
    assert!(det.detect_items(&vec![None]).is_empty());
}

#[test]
fn capture_keeps_latest_pair() {
    let mut c = FrameCapture::new(640, 480);
    assert!(c.get_last_frame().is_none());
    assert!(c.get_preprocessed_frame().is_none());
    c.capture_frame(gray(2, 2, 1), gray(2, 2, 2));
    c.capture_frame(gray(2, 2, 3), gray(2, 2, 4));
    assert_eq!(c.get_last_frame().unwrap().data[0], 3);
    assert_eq!(c.get_preprocessed_frame().unwrap().data[0], 4);
    assert_eq!(c.get_dimensions(), (640, 480));
}
