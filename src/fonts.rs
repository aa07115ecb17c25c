use vstd::prelude::*;
use std::path::PathBuf;
use typst::foundations::Bytes;
use typst::text::{Font, FontInfo};

verus! {

#[verifier::external_type_specification]
#[verifier::external_body]
pub struct ExFont(Font);

#[verifier::external_type_specification]
#[verifier::external_body]
pub struct ExFontInfo(FontInfo);

#[verifier::external_type_specification]
#[verifier::external_body]
pub struct ExPathBuf(PathBuf);

/// Relies on the derived `Clone` of `Font`, a single `Arc`: the clone is a
/// handle to the same decoded font.
pub assume_specification[ <Font as Clone>::clone ](f: &Font) -> (r: Font)
    ensures
        r == *f,
;

/// Whether typst can parse a face at `index` of the font file `data`.
pub uninterp spec fn font_parses(data: Seq<u8>, index: u32) -> bool;

/// Relies on `Font::new` (with `Bytes::from` on a `Vec<u8>`): parses the face
/// at `index` of a font file's bytes, `None` where it cannot; whether it can
/// depends on the bytes and the index alone. An empty buffer holds no face.
#[verifier::external_body]
fn parse_font(data: Vec<u8>, index: u32) -> (r: Option<Font>)
    ensures
        r is Some <==> font_parses(data@, index),
        data@.len() == 0 ==> r is None,
{
    Font::new(Bytes::from(data), index)
}

/// One face found by the font scan, as the scan reports it.
pub struct FaceEntry {
    /// The file that backs the face; `None` for a face held only in memory.
    pub path: Option<PathBuf>,
    /// The face's index inside its file.
    pub index: u32,
    /// The metadata read from the face; `None` where it has none usable.
    pub info: Option<FontInfo>,
}

/// A face whose font is decoded from its file on first use and kept.
pub struct LazyFont {
    pub index: u32,
    pub path: PathBuf,
    /// `None` until the first load; then what that load gave.
    pub data: Option<Option<Font>>,
}

/// Clones a font slot, each font by its shared handle.
fn share(slot: &Option<Option<Font>>) -> (r: Option<Option<Font>>)
    ensures
        r == *slot,
{
    match slot {
        None => None,
        Some(None) => Some(None),
        Some(Some(f)) => Some(Some(f.clone())),
    }
}

/// Whether the font `after` is `before` with its slot filled by `r`.
pub open spec fn filled(before: LazyFont, after: LazyFont, r: Option<Font>) -> bool {
    &&& after.path == before.path
    &&& after.index == before.index
    &&& after.data == Some(r)
}

/// Whether the catalog `after` is `before` with the slot of font `i` filled by
/// `r` and every other font unchanged.
pub open spec fn loaded(before: Seq<LazyFont>, after: Seq<LazyFont>, i: int, r: Option<Font>) -> bool {
    &&& after.len() == before.len()
    &&& filled(before[i], after[i], r)
    &&& forall|j: int| 0 <= j < before.len() && j != i ==> after[j] == before[j]
}

impl LazyFont {
    /// The font kept by an earlier load, or `None` where there was none yet.
    pub fn cached(&self) -> (r: Option<Option<Font>>)
        ensures
            r == self.data,
    {
        share(&self.data)
    }

    /// Decodes the font from `bytes`, the content of its file (`None` where
    /// the file could not be read), and keeps the outcome for good.
    pub fn load(&mut self, bytes: Option<Vec<u8>>) -> (r: Option<Font>)
        requires
            old(self).data is None,
        ensures
            filled(*old(self), *final(self), r),
            bytes is None ==> r is None,
            bytes is Some ==> (r is Some <==> font_parses(bytes->0@, old(self).index)),
    {
        let font = match bytes {
            None => None,
            Some(data) => parse_font(data, self.index),
        };
        let kept = match &font {
            None => None,
            Some(f) => Some(f.clone()),
        };
        self.data = Some(kept);
        font
    }
}

/// Whether the scan keeps a face: it must be file-backed and carry metadata.
pub open spec fn kept(f: FaceEntry) -> bool {
    f.path is Some && f.info is Some
}

/// The faces of `s` that the scan keeps, in order.
pub open spec fn kept_faces(s: Seq<FaceEntry>) -> Seq<FaceEntry>
    decreases s.len(),
{
    if s.len() == 0 {
        Seq::empty()
    } else if kept(s.last()) {
        kept_faces(s.drop_last()).push(s.last())
    } else {
        kept_faces(s.drop_last())
    }
}

/// Whether `font` stands for the kept face `f`, not loaded yet.
pub open spec fn fresh_for(font: LazyFont, f: FaceEntry) -> bool {
    &&& f.path is Some
    &&& font.path == f.path->0
    &&& font.index == f.index
    &&& font.data is None
}

/// The catalog of file-backed faces, each loaded lazily.
pub struct FontDb {
    pub fonts: Vec<LazyFont>,
}

impl FontDb {
    /// Keeps each face that is file-backed and has metadata, in scan order.
    /// Returns the catalog and the metadata of its faces, index for index.
    pub fn new(faces: Vec<FaceEntry>) -> (r: (FontDb, Vec<FontInfo>))
        ensures
            r.0.fonts@.len() == kept_faces(faces@).len(),
            r.1@.len() == kept_faces(faces@).len(),
            forall|k: int| 0 <= k < r.1@.len() ==> {
                &&& fresh_for(#[trigger] r.0.fonts@[k], kept_faces(faces@)[k])
                &&& r.1@[k] == kept_faces(faces@)[k].info->0
            },
    {
        let total = faces.len();
        let ghost all = faces@;
        let mut rest = faces;
        let mut fonts: Vec<LazyFont> = Vec::new();
        let mut book: Vec<FontInfo> = Vec::new();
        let mut i: usize = 0;
        while rest.len() > 0
            invariant
                i + rest@.len() == all.len(),
                all.len() == total,
                rest@ == all.subrange(i as int, all.len() as int),
                fonts@.len() == kept_faces(all.take(i as int)).len(),
                book@.len() == fonts@.len(),
                forall|k: int| 0 <= k < book@.len() ==> {
                    &&& fresh_for(#[trigger] fonts@[k], kept_faces(all.take(i as int))[k])
                    &&& book@[k] == kept_faces(all.take(i as int))[k].info->0
                },
            decreases rest.len(),
        {
            let face = rest.remove(0);
            assert(all.take(i + 1).drop_last() =~= all.take(i as int));
            assert(all.take(i + 1).last() == face);
            i = i + 1;
            let FaceEntry { path, index, info } = face;
            match (path, info) {
                (Some(p), Some(inf)) => {
                    fonts.push(LazyFont { index, path: p, data: None });
                    book.push(inf);
                },
                _ => {},
            }
        }
        assert(all.take(i as int) =~= all);
        (FontDb { fonts }, book)
    }

    /// The number of fonts in the catalog.
    pub fn len(&self) -> (r: usize)
        ensures
            r == self.fonts@.len(),
    {
        self.fonts.len()
    }

    /// The file that backs font `index`.
    pub fn path(&self, index: usize) -> (r: &PathBuf)
        requires
            index < self.fonts@.len(),
        ensures
            *r == self.fonts@[index as int].path,
    {
        &self.fonts[index].path
    }

    /// The font kept for `index`, or `None` where it was not loaded yet.
    pub fn cached(&self, index: usize) -> (r: Option<Option<Font>>)
        requires
            index < self.fonts@.len(),
        ensures
            r == self.fonts@[index as int].data,
    {
        self.fonts[index].cached()
    }

    /// Loads font `index` from `bytes`, its file's content (`None` where the
    /// file could not be read), keeps the outcome and returns it.
    pub fn load(&mut self, index: usize, bytes: Option<Vec<u8>>) -> (r: Option<Font>)
        requires
            index < old(self).fonts@.len(),
            old(self).fonts@[index as int].data is None,
        ensures
            loaded(old(self).fonts@, final(self).fonts@, index as int, r),
            bytes is None ==> r is None,
            bytes is Some ==> (r is Some <==> font_parses(bytes->0@, old(self).fonts@[index as int].index)),
    {
        let mut font = self.fonts.remove(index);
        let r = font.load(bytes);
        self.fonts.insert(index, font);
        assert(self.fonts@ =~= old(self).fonts@.update(index as int, font));
        r
    }
}

} // verus!

verus! {

/// A font is decoded at most once: after its slot has been filled by a load
/// that gave `r`, a query of it gives back `r` itself (the same shared
/// handle, with no second read), and no other font has changed.
pub proof fn lemma_load_is_kept(before: Seq<LazyFont>, after: Seq<LazyFont>, i: int, r: Option<Font>)
    requires
        0 <= i < before.len(),
        before[i].data is None,
        loaded(before, after, i, r),
    ensures
        after[i].data == Some(r),
        after[i].path == before[i].path,
        after[i].index == before[i].index,
        forall|j: int| 0 <= j < after.len() && j != i ==> after[j] == before[j],
{
}

} // verus!
