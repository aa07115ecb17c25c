use vstd::prelude::*;
use std::path::PathBuf;
use typst::foundations::{Datetime, Smart};
use typst::model::Document;
use typst::syntax::FileId;
use typst::text::Font;
use crate::clock::{date_of, kept_moment, shifted, timestamp_of, today_of, valid_stamp, Clock, Moment, Stamp};
use crate::fonts::{font_parses, loaded, FontDb};
use crate::store::{lemma_inserted_name_is_held, DocumentFile, DocumentStore};
use crate::text::{decoded, try_decode_utf8};

verus! {

#[verifier::external_type_specification]
#[verifier::external_body]
pub struct ExDocument(Document);

/// Whether `b` begins with the PDF file header's `%PDF-`.
pub open spec fn is_pdf(b: Seq<u8>) -> bool {
    &&& b.len() >= 5
    &&& b[0] == 0x25u8
    &&& b[1] == 0x50u8
    &&& b[2] == 0x44u8
    &&& b[3] == 0x46u8
    &&& b[4] == 0x2Du8
}

/// The PDF that typst writes for a document with a creation timestamp.
pub uninterp spec fn pdf_of(document: Document, timestamp: Option<Datetime>) -> Seq<u8>;

/// Relies on `typst_pdf::pdf`, with the document identifier left to typst: its
/// output depends on the document and the timestamp alone; it writes through
/// pdf-writer's `Pdf::new`, which opens the buffer with the `%PDF-1.7`
/// header, and returns that buffer from `Pdf::finish`.
#[verifier::external_body]
fn export_pdf(document: &Document, timestamp: Option<Datetime>) -> (r: Vec<u8>)
    ensures
        r@ == pdf_of(*document, timestamp),
        is_pdf(r@),
{
    typst_pdf::pdf(document, Smart::Auto, timestamp)
}

/// Why a compilation gave no document. Compiler diagnostics are not kept.
#[derive(Clone, Copy, PartialEq, Eq, Structural, Debug)]
pub enum CompileError {
    Failed,
}

/// What a compilation sees of its environment: the documents, the fonts and
/// the moment it runs at.
pub struct DockerWorld {
    pub fonts: FontDb,
    pub main: FileId,
    pub now: Clock,
    pub sources: DocumentStore,
}

impl DockerWorld {
    /// Whether the entry point names a document of the store.
    pub open spec fn wf(&self) -> bool {
        &&& self.sources.main == self.main
        &&& self.sources.lookup(self.main) is Some
    }

    /// The environment of `main_document` and `other_files`, inserted in that
    /// order (a later file replaces an earlier one of the same name), with the
    /// fonts of `fonts` and a clock not read yet.
    pub fn new(main_document: DocumentFile, other_files: Vec<DocumentFile>, fonts: FontDb) -> (r: DockerWorld)
        ensures
            r.wf(),
            r.main == main_document.name,
            r.sources.inserted() == seq![main_document].add(other_files@),
            r.fonts == fonts,
            r.now.now is None,
    {
        let main = main_document.name;
        let sources = DocumentStore::new(main_document, other_files);
        proof {
            lemma_inserted_name_is_held(sources.inserted(), 0);
        }
        DockerWorld { fonts, main, now: Clock::new(), sources }
    }

    /// The text of the entry point, `None` where it is not UTF-8 after its
    /// byte-order mark.
    pub fn main_source(&self) -> (r: Option<String>)
        requires
            self.wf(),
        ensures
            r is Some <==> decoded(self.sources.lookup(self.main)->0) is Some,
            r is Some ==> r->0@ == decoded(self.sources.lookup(self.main)->0)->0,
    {
        match self.sources.file(self.main) {
            Some(data) => try_decode_utf8(data.as_slice()),
            None => None,
        }
    }

    /// The text of document `id`: `None` where there is no such document,
    /// `Some(None)` where it is not UTF-8 after its byte-order mark.
    pub fn source(&self, id: FileId) -> (r: Option<Option<String>>)
        ensures
            r is Some <==> self.sources.lookup(id) is Some,
            r is Some ==> (r->0 is Some <==> decoded(self.sources.lookup(id)->0) is Some),
            r is Some && r->0 is Some ==> r->0->0@ == decoded(self.sources.lookup(id)->0)->0,
    {
        self.sources.source(id)
    }

    /// The bytes of document `id`, unchanged; `None` where there is no such document.
    pub fn file(&self, id: FileId) -> (r: Option<&Vec<u8>>)
        ensures
            r is Some <==> self.sources.lookup(id) is Some,
            r is Some ==> r->0@ == self.sources.lookup(id)->0,
    {
        self.sources.file(id)
    }

    /// The number of fonts in the catalog.
    pub fn font_count(&self) -> (r: usize)
        ensures
            r == self.fonts.fonts@.len(),
    {
        self.fonts.len()
    }

    /// The file that backs font `index`.
    pub fn font_path(&self, index: usize) -> (r: &PathBuf)
        requires
            index < self.fonts.fonts@.len(),
        ensures
            *r == self.fonts.fonts@[index as int].path,
    {
        self.fonts.path(index)
    }

    /// Font `index` where it was loaded before (`Some`, holding what that
    /// load gave), else `None`: then its file is to be read and handed to
    /// `load_font`.
    pub fn font(&self, index: usize) -> (r: Option<Option<Font>>)
        requires
            index < self.fonts.fonts@.len(),
        ensures
            r == self.fonts.fonts@[index as int].data,
    {
        self.fonts.cached(index)
    }

    /// Decodes font `index` from `bytes`, its file's content (`None` where the
    /// file could not be read), and keeps the outcome for later queries.
    pub fn load_font(&mut self, index: usize, bytes: Option<Vec<u8>>) -> (r: Option<Font>)
        requires
            index < old(self).fonts.fonts@.len(),
            old(self).fonts.fonts@[index as int].data is None,
        ensures
            loaded(old(self).fonts.fonts@, final(self).fonts.fonts@, index as int, r),
            bytes is None ==> r is None,
            bytes is Some ==> (r is Some <==> font_parses(bytes->0@, old(self).fonts.fonts@[index as int].index)),
            final(self).main == old(self).main,
            final(self).sources == old(self).sources,
            final(self).now == old(self).now,
    {
        self.fonts.load(index, bytes)
    }

    /// The local date and time of this compilation; `fresh` is the wall
    /// clock's reading, kept where the clock was not read before.
    pub fn now(&mut self, fresh: Moment) -> (r: Option<Datetime>)
        ensures
            final(self).now.now == Some(kept_moment(old(self).now.now, fresh)),
            r == timestamp_of(kept_moment(old(self).now.now, fresh).local),
            r is Some ==> valid_stamp(kept_moment(old(self).now.now, fresh).local),
            valid_stamp(kept_moment(old(self).now.now, fresh).local)
                && -9999 <= kept_moment(old(self).now.now, fresh).local.year <= 9999 ==> r is Some,
            final(self).main == old(self).main,
            final(self).sources == old(self).sources,
            final(self).fonts == old(self).fonts,
    {
        self.now.now(fresh)
    }

    /// The date of this compilation: the local date without `offset`, else
    /// the UTC date `offset` hours later; `fresh` is the wall clock's reading,
    /// kept where the clock was not read before.
    pub fn today(&mut self, offset: Option<i64>, fresh: Moment) -> (r: Option<Datetime>)
        ensures
            final(self).now.now == Some(kept_moment(old(self).now.now, fresh)),
            offset is None ==> r == date_of(kept_moment(old(self).now.now, fresh).local),
            offset is Some ==> exists|s: Option<Stamp>|
                shifted(kept_moment(old(self).now.now, fresh).utc, offset->0, s)
                && r == today_of(kept_moment(old(self).now.now, fresh), offset, s),
            final(self).main == old(self).main,
            final(self).sources == old(self).sources,
            final(self).fonts == old(self).fonts,
    {
        self.now.today(offset, fresh)
    }

    /// Finishes a compilation whose outcome is `compiled` (`None` where the
    /// compiler reported any error): the document as PDF, stamped with this
    /// compilation's moment (`fresh` being the wall clock's reading, kept
    /// where the clock was not read before), or the one compile error.
    pub fn export(&mut self, compiled: Option<Document>, fresh: Moment) -> (r: Result<Vec<u8>, CompileError>)
        ensures
            compiled is None <==> r == Err::<Vec<u8>, CompileError>(CompileError::Failed),
            compiled is None ==> final(self).now == old(self).now,
            compiled is Some ==> r is Ok && is_pdf(r->Ok_0@)
                && r->Ok_0@ == pdf_of(compiled->0, timestamp_of(kept_moment(old(self).now.now, fresh).local)),
            compiled is Some ==> final(self).now.now == Some(kept_moment(old(self).now.now, fresh)),
            final(self).main == old(self).main,
            final(self).sources == old(self).sources,
            final(self).fonts == old(self).fonts,
    {
        match compiled {
            None => Err(CompileError::Failed),
            Some(document) => {
                let timestamp = self.now(fresh);
                Ok(export_pdf(&document, timestamp))
            },
        }
    }
}

} // verus!
