use typst::syntax::{FileId, VirtualPath};
use typst::foundations::Datetime;
use typst::model::Document;
use typst_docker::clock::{Moment, Stamp};
use typst_docker::fonts::FontDb;
use typst_docker::store::DocumentFile;
use typst_docker::world::{CompileError, DockerWorld};

fn id(name: &str) -> FileId {
    FileId::new(None, VirtualPath::new(name))
}

fn moment() -> Moment {
    let t = Stamp { year: 2024, month: 6, day: 30, hour: 12, minute: 0, second: 0 };
    Moment { local: t, utc: t }
}

fn world() -> DockerWorld {
    let (fonts, _) = FontDb::new(vec![]);
    DockerWorld::new(DocumentFile::new(id("main.typ"), b"= Title".to_vec()), vec![], fonts)
}

#[test]
fn failed_compilation_is_one_error() {
    let mut w = world();
    assert_eq!(w.export(None, moment()), Err(CompileError::Failed));
    assert!(w.now.now.is_none());
}

#[test]
fn compiled_document_becomes_pdf() {
    let mut w = world();
    let pdf = w.export(Some(Document::default()), moment()).expect("a pdf");
    assert!(pdf.len() > 5);
    assert_eq!(&pdf[..5], b"%PDF-");
    assert_eq!(w.now.now, Some(moment()));
    assert_eq!(w.now(moment()), Datetime::from_ymd_hms(2024, 6, 30, 12, 0, 0));
}

#[test]
fn pdf_carries_the_kept_moment() {
    let mut w = world();
    let first = w.now(moment());
    let later = Moment {
        local: Stamp { year: 2030, month: 1, day: 1, hour: 0, minute: 0, second: 0 },
        utc: Stamp { year: 2030, month: 1, day: 1, hour: 0, minute: 0, second: 0 },
    };
    let pdf = w.export(Some(Document::default()), later).expect("a pdf");
    let expected = typst_pdf::pdf(&Document::default(), typst::foundations::Smart::Auto, first);
    assert_eq!(pdf, expected);
    let other = typst_pdf::pdf(&Document::default(), typst::foundations::Smart::Auto, Datetime::from_ymd_hms(2030, 1, 1, 0, 0, 0));
    assert_ne!(pdf, other);
}
