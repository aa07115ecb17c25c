use vstd::prelude::*;
use typst::syntax::FileId;
use crate::text::{decoded, try_decode_utf8};

verus! {

#[verifier::external_type_specification]
#[verifier::external_body]
pub struct ExFileId(FileId);

/// Relies on the derived `PartialEq` of `FileId`, a copy of one interned
/// number: two identifiers compare equal exactly when they are the same value.
pub assume_specification[ <FileId as PartialEq>::eq ](a: &FileId, b: &FileId) -> (r: bool)
    ensures
        r == (*a == *b),
;

/// One named document of a compilation.
pub struct DocumentFile {
    pub name: FileId,
    pub data: Vec<u8>,
}

impl DocumentFile {
    /// The document `data` under the identifier `name`.
    pub fn new(name: FileId, data: Vec<u8>) -> (r: DocumentFile)
        ensures
            r.name == name,
            r.data@ == data@,
    {
        DocumentFile { name, data }
    }
}

/// What the documents `s`, inserted in order, hold under `k`: the payload of
/// the last one named `k`.
pub open spec fn last_with(s: Seq<DocumentFile>, k: FileId) -> Option<Seq<u8>>
    decreases s.len(),
{
    if s.len() == 0 {
        None
    } else if s.last().name == k {
        Some(s.last().data@)
    } else {
        last_with(s.drop_last(), k)
    }
}

/// The closed set of documents of one compilation, with its entry point.
/// Inserting under a name that is already there replaces the earlier payload.
pub struct DocumentStore {
    pub main: FileId,
    pub entries: Vec<DocumentFile>,
}

impl DocumentStore {
    /// The documents in the order they were inserted.
    pub open spec fn inserted(&self) -> Seq<DocumentFile> {
        self.entries@
    }

    /// The payload held under `k`.
    pub open spec fn lookup(&self, k: FileId) -> Option<Seq<u8>> {
        last_with(self.inserted(), k)
    }

    /// A store that holds `main_document` and then each of `other_files`, in
    /// order; `main_document` is the entry point.
    pub fn new(main_document: DocumentFile, other_files: Vec<DocumentFile>) -> (r: DocumentStore)
        ensures
            r.main == main_document.name,
            r.inserted() == seq![main_document].add(other_files@),
    {
        let main = main_document.name;
        let mut entries: Vec<DocumentFile> = Vec::new();
        entries.push(main_document);
        let mut rest = other_files;
        let ghost others = rest@;
        while rest.len() > 0
            invariant
                entries@.len() >= 1,
                entries@[0] == main_document,
                entries@.add(rest@) == seq![main_document].add(others),
            decreases rest.len(),
        {
            let ghost before = entries@.add(rest@);
            let file = rest.remove(0);
            entries.push(file);
            assert(entries@.add(rest@) =~= before);
        }
        assert(entries@.add(rest@) =~= entries@);
        DocumentStore { main, entries }
    }

    /// The payload under `id`, if any.
    pub fn file(&self, id: FileId) -> (r: Option<&Vec<u8>>)
        ensures
            r is Some <==> self.lookup(id) is Some,
            r is Some ==> r->0@ == self.lookup(id)->0,
    {
        let mut i: usize = self.entries.len();
        assert(self.entries@.take(i as int) =~= self.entries@);
        while i > 0
            invariant
                i <= self.entries@.len(),
                last_with(self.entries@, id) == last_with(self.entries@.take(i as int), id),
            decreases i,
        {
            assert(self.entries@.take(i as int).drop_last() =~= self.entries@.take(i - 1));
            if self.entries[i - 1].name == id {
                return Some(&self.entries[i - 1].data);
            }
            i = i - 1;
        }
        None
    }

    /// The text under `id`: `None` where there is no payload under `id`,
    /// `Some(None)` where it is not UTF-8 after its byte-order mark.
    pub fn source(&self, id: FileId) -> (r: Option<Option<String>>)
        ensures
            r is Some <==> self.lookup(id) is Some,
            r is Some ==> (r->0 is Some <==> decoded(self.lookup(id)->0) is Some),
            r is Some && r->0 is Some ==> r->0->0@ == decoded(self.lookup(id)->0)->0,
    {
        match self.file(id) {
            None => None,
            Some(data) => Some(try_decode_utf8(data.as_slice())),
        }
    }
}

} // verus!

verus! {

/// Inserting documents in order keeps, under each name, the payload of the
/// last document of that name: where the document at `i` is the last one
/// named so, the store holds exactly its bytes under its name.
pub proof fn lemma_last_insert_is_held(docs: Seq<DocumentFile>, i: int)
    requires
        0 <= i < docs.len(),
        forall|j: int| i < j < docs.len() ==> (#[trigger] docs[j]).name != docs[i].name,
    ensures
        last_with(docs, docs[i].name) == Some(docs[i].data@),
    decreases docs.len(),
{
    if i < docs.len() - 1 {
        let rest = docs.drop_last();
        assert(docs.last() == docs[docs.len() - 1]);
        assert forall|j: int| i < j < rest.len() implies (#[trigger] rest[j]).name != rest[i].name by {
            assert(rest[j] == docs[j]);
        }
        lemma_last_insert_is_held(rest, i);
    }
}

/// A name that some inserted document carries has a payload in the store.
pub proof fn lemma_inserted_name_is_held(docs: Seq<DocumentFile>, i: int)
    requires
        0 <= i < docs.len(),
    ensures
        last_with(docs, docs[i].name) is Some,
    decreases docs.len(),
{
    if i < docs.len() - 1 && docs.last().name != docs[i].name {
        lemma_inserted_name_is_held(docs.drop_last(), i);
    }
}

/// Last write wins over the entry point too: where the document `others[i]`
/// carries the main document's name and no later one does, the entry point
/// holds that document's bytes.
pub proof fn lemma_later_file_replaces_main(main: DocumentFile, others: Seq<DocumentFile>, i: int)
    requires
        0 <= i < others.len(),
        others[i].name == main.name,
        forall|j: int| i < j < others.len() ==> (#[trigger] others[j]).name != main.name,
    ensures
        last_with(seq![main].add(others), main.name) == Some(others[i].data@),
{
    let docs = seq![main].add(others);
    assert forall|j: int| i + 1 < j < docs.len() implies (#[trigger] docs[j]).name != docs[i + 1].name by {
        assert(docs[j] == others[j - 1]);
    }
    lemma_last_insert_is_held(docs, i + 1);
}

} // verus!
