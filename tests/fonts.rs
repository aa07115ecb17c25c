use std::path::PathBuf;
use typst::text::{Coverage, Font, FontFlags, FontInfo, FontStretch, FontStyle, FontVariant, FontWeight};
use typst_docker::fonts::{FaceEntry, FontDb};

fn info(family: &str) -> FontInfo {
    FontInfo {
        family: family.to_string(),
        variant: FontVariant::new(FontStyle::Normal, FontWeight::REGULAR, FontStretch::NORMAL),
        flags: FontFlags::empty(),
        coverage: Coverage::from_vec(vec![65, 66]),
    }
}

fn face(path: Option<&str>, index: u32, family: Option<&str>) -> FaceEntry {
    FaceEntry { path: path.map(PathBuf::from), index, info: family.map(info) }
}

#[test]
fn scan_keeps_file_backed_faces_in_order() {
    let (db, infos) = FontDb::new(vec![
        face(Some("/f/a.ttf"), 0, Some("A")),
        face(None, 0, Some("InMemory")),
        face(Some("/f/b.ttc"), 2, Some("B")),
        face(Some("/f/c.ttf"), 0, None),
        face(Some("/f/d.ttf"), 1, Some("D")),
    ]);
    assert_eq!(db.len(), 3);
    let families: Vec<&str> = infos.iter().map(|i| i.family.as_str()).collect();
    assert_eq!(families, vec!["A", "B", "D"]);
    assert_eq!(db.path(0), &PathBuf::from("/f/a.ttf"));
    assert_eq!(db.path(1), &PathBuf::from("/f/b.ttc"));
    assert_eq!(db.fonts[1].index, 2);
    assert_eq!(db.path(2), &PathBuf::from("/f/d.ttf"));
    assert_eq!(db.fonts[2].index, 1);
    assert!(db.cached(0).is_none() && db.cached(1).is_none() && db.cached(2).is_none());
}

#[test]
fn scan_of_nothing_is_empty() {
    let (db, infos) = FontDb::new(vec![face(None, 0, Some("X"))]);
    assert_eq!(db.len(), 0);
    assert!(infos.is_empty());
}

#[test]
fn unreadable_font_file_gives_no_font() {
    let (mut db, _) = FontDb::new(vec![face(Some("/gone/x.ttf"), 0, Some("X"))]);
    assert!(db.load(0, None).is_none());
    assert!(matches!(db.cached(0), Some(None)));
}

#[test]
fn undecodable_font_file_gives_no_font() {
    let (mut db, _) = FontDb::new(vec![face(Some("/f/x.ttf"), 0, Some("X"))]);
    assert!(db.load(0, Some(b"not a font".to_vec())).is_none());
    assert!(matches!(db.cached(0), Some(None)));
}

#[test]
fn loaded_slot_is_kept() {
    let (mut db, _) = FontDb::new(vec![face(Some("/f/x.ttf"), 0, Some("X")), face(Some("/f/y.ttf"), 0, Some("Y"))]);
    assert!(db.load(0, Some(Vec::new())).is_none());
    assert!(matches!(db.cached(0), Some(None)));
    assert!(matches!(db.cached(0), Some(None)));
    assert!(db.cached(1).is_none());
    let _: Option<Font> = db.load(1, None);
    assert!(matches!(db.cached(1), Some(None)));
}
