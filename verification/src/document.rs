//! The document of `lopdf`: its object table, the highest object number it has
//! given out, and its trailer.

use crate::objects::{object_value, utf8, PdfValue};
use vstd::prelude::*;

verus! {

/// `lopdf::Document`, kept as the store of the objects.
#[verifier::external_type_specification]
#[verifier::external_body]
pub struct ExDocument(lopdf::Document);

/// The objects of a document, each under its identifier.
pub uninterp spec fn document_objects(doc: lopdf::Document) -> Map<(u32, u16), PdfValue>;

/// The highest object number that a document has given out.
pub uninterp spec fn document_max_id(doc: lopdf::Document) -> u32;

/// The entries of a document's trailer, in the order in which it keeps them.
pub uninterp spec fn document_trailer(doc: lopdf::Document) -> Seq<(Seq<u8>, PdfValue)>;

/// The version that a document writes in its header.
pub uninterp spec fn document_version(doc: lopdf::Document) -> Seq<char>;

/// Whether a document writes its cross-reference data as a stream, as every
/// new document of `lopdf` does, and not as a table.
pub uninterp spec fn document_xref_stream(doc: lopdf::Document) -> bool;

/// The bytes of the binary mark that a document writes after its header.
pub uninterp spec fn document_binary_mark(doc: lopdf::Document) -> Seq<u8>;

/// Whether a binary mark can be written: each of its bytes must be 128 or
/// more.
pub open spec fn mark_valid(mark: Seq<u8>) -> bool {
    forall|i: int| 0 <= i < mark.len() ==> #[trigger] mark[i] >= 128
}

/// Whether a document can be saved: its binary mark can be written, and an
/// object number is left for the cross-reference data.
pub open spec fn saveable(doc: lopdf::Document) -> bool {
    mark_valid(document_binary_mark(doc)) && document_max_id(doc) < u32::MAX
}

/// The bytes that `lopdf` writes for a document of the given version, binary
/// mark, kind of cross-reference data, objects, trailer and highest object
/// number, or nothing where it cannot write it. These are all that the writer
/// reads of a document.
pub uninterp spec fn written(
    version: Seq<char>,
    mark: Seq<u8>,
    xref_stream: bool,
    objects: Map<(u32, u16), PdfValue>,
    trailer: Seq<(Seq<u8>, PdfValue)>,
    max_id: u32,
) -> Option<Seq<u8>>;

/// The bytes that saving a document writes, or nothing where saving fails.
pub open spec fn serialized(doc: lopdf::Document) -> Option<Seq<u8>> {
    written(
        document_version(doc),
        document_binary_mark(doc),
        document_xref_stream(doc),
        document_objects(doc),
        document_trailer(doc),
        document_max_id(doc),
    )
}

/// Whether two documents agree in what stays as it is when objects and trailer
/// entries are added: the version, the binary mark and the kind of
/// cross-reference data.
pub open spec fn same_frame(after: lopdf::Document, before: lopdf::Document) -> bool {
    &&& document_version(after) == document_version(before)
    &&& document_binary_mark(after) == document_binary_mark(before)
    &&& document_xref_stream(after) == document_xref_stream(before)
}

/// The empty object table.
pub open spec fn no_objects() -> Map<(u32, u16), PdfValue> {
    Map::empty()
}

/// The empty dictionary.
pub open spec fn no_entries() -> Seq<(Seq<u8>, PdfValue)> {
    Seq::empty()
}

/// `Document::with_version`: a document of the given version with no object,
/// an empty trailer, no object number given out yet, and the binary mark and
/// the kind of cross-reference data that `lopdf` gives every new document.
#[verifier::external_body]
pub(crate) fn new_document(version: &str) -> (doc: lopdf::Document)
    ensures
        document_objects(doc) == no_objects(),
        document_max_id(doc) == 0,
        document_trailer(doc) == no_entries(),
        document_binary_mark(doc) == seq![0xBBu8, 0xADu8, 0xC0u8, 0xDEu8],
        document_version(doc) == version@,
        document_xref_stream(doc),
{
    lopdf::Document::with_version(version)
}

/// `Document::new_object_id`: gives out the next object number, with
/// generation 0, and stores nothing. It panics when the numbers are used up,
/// which `requires` leaves out.
#[verifier::external_body]
pub(crate) fn new_object_id(doc: &mut lopdf::Document) -> (id: (u32, u16))
    requires
        document_max_id(*old(doc)) < u32::MAX,
    ensures
        id == ((document_max_id(*old(doc)) + 1) as u32, 0u16),
        document_max_id(*final(doc)) == document_max_id(*old(doc)) + 1,
        document_objects(*final(doc)) == document_objects(*old(doc)),
        document_trailer(*final(doc)) == document_trailer(*old(doc)),
        same_frame(*final(doc), *old(doc)),
{
    doc.new_object_id()
}

/// `Document::add_object`: gives out the next object number, with generation
/// 0, and stores the object under it. It panics when the numbers are used up,
/// which `requires` leaves out.
#[verifier::external_body]
pub(crate) fn add_object(doc: &mut lopdf::Document, object: lopdf::Object) -> (id: (u32, u16))
    requires
        document_max_id(*old(doc)) < u32::MAX,
    ensures
        id == ((document_max_id(*old(doc)) + 1) as u32, 0u16),
        document_max_id(*final(doc)) == document_max_id(*old(doc)) + 1,
        document_objects(*final(doc)) == document_objects(*old(doc)).insert(
            id,
            object_value(object),
        ),
        document_trailer(*final(doc)) == document_trailer(*old(doc)),
        same_frame(*final(doc), *old(doc)),
{
    doc.add_object(object)
}

/// `BTreeMap::insert` on the document's public object table: stores the object
/// under `id`, in place of what was there.
#[verifier::external_body]
pub(crate) fn insert_object(doc: &mut lopdf::Document, id: (u32, u16), object: lopdf::Object)
    ensures
        document_objects(*final(doc)) == document_objects(*old(doc)).insert(
            id,
            object_value(object),
        ),
        document_max_id(*final(doc)) == document_max_id(*old(doc)),
        document_trailer(*final(doc)) == document_trailer(*old(doc)),
        same_frame(*final(doc), *old(doc)),
{
    doc.objects.insert(id, object);
}

/// No entry of the dictionary has the key `key`.
pub open spec fn key_absent(entries: Seq<(Seq<u8>, PdfValue)>, key: Seq<u8>) -> bool {
    forall|i: int| 0 <= i < entries.len() ==> (#[trigger] entries[i]).0 != key
}

/// `Dictionary::set` on the document's public trailer: puts the object under
/// `key`. It is stated for a key that the trailer does not hold yet, which
/// `Dictionary::set` appends.
#[verifier::external_body]
pub(crate) fn set_trailer(doc: &mut lopdf::Document, key: &str, object: lopdf::Object)
    requires
        key_absent(document_trailer(*old(doc)), utf8(key@)),
    ensures
        document_trailer(*final(doc)) == document_trailer(*old(doc)).push(
            (utf8(key@), object_value(object)),
        ),
        document_objects(*final(doc)) == document_objects(*old(doc)),
        document_max_id(*final(doc)) == document_max_id(*old(doc)),
        same_frame(*final(doc), *old(doc)),
{
    doc.trailer.set(key, object);
}

/// `Document::save_to` into a byte vector: the bytes of the document as it
/// was given, which are those of `written` for what the writer reads of it, or
/// the failure where the document cannot be saved. Writing into
/// a vector does not fail, so saving fails only where the binary mark cannot
/// be written or no object number is left for the cross-reference data.
#[verifier::external_body]
pub(crate) fn save_document(doc: lopdf::Document) -> (saved: Result<Vec<u8>, std::io::Error>)
    ensures
        match saved {
            Ok(bytes) => written(
                document_version(doc),
                document_binary_mark(doc),
                document_xref_stream(doc),
                document_objects(doc),
                document_trailer(doc),
                document_max_id(doc),
            ) == Some(bytes@),
            Err(_) => written(
                document_version(doc),
                document_binary_mark(doc),
                document_xref_stream(doc),
                document_objects(doc),
                document_trailer(doc),
                document_max_id(doc),
            ) is None,
        },
        saveable(doc) ==> saved is Ok,
{
    let mut doc = doc;
    let mut bytes = Vec::new();
    doc.save_to(&mut bytes).map(|_| bytes)
}

} // verus!
