//! PDF objects as `lopdf` holds them, seen through a model that contracts can
//! speak of.

use vstd::prelude::*;

verus! {

/// What a PDF object holds. Names and dictionary keys are given by their
/// bytes; a dictionary as its entries in the order in which it keeps them.
pub enum PdfValue {
    Null,
    Boolean(bool),
    Integer(i64),
    /// A real number, by the bits of its single-precision encoding. The
    /// library makes none and reads none: it places the ones it is handed.
    Real(u32),
    Name(Seq<u8>),
    /// A string and whether it is written in hexadecimal.
    String(Seq<u8>, bool),
    Array(Seq<PdfValue>),
    Dictionary(Seq<(Seq<u8>, PdfValue)>),
    /// A stream's dictionary and its content.
    Stream(Seq<(Seq<u8>, PdfValue)>, Seq<u8>),
    Reference((u32, u16)),
}

/// `lopdf::Object`, carried as it is.
#[verifier::external_type_specification]
#[verifier::external_body]
pub struct ExObject(lopdf::Object);

/// `lopdf::Error`, carried to where its text is taken.
#[verifier::external_type_specification]
#[verifier::external_body]
pub struct ExPdfError(lopdf::Error);

/// The bytes of a text: its UTF-8 encoding, which is how a `str` holds it.
pub open spec fn utf8(text: Seq<char>) -> Seq<u8> {
    vstd::utf8::encode_utf8(text)
}

/// What an object holds.
pub uninterp spec fn object_value(object: lopdf::Object) -> PdfValue;

/// The bytes that `lopdf` writes for a content stream of the given operations:
/// each an operator with its operands.
pub uninterp spec fn encoded_content(operations: Seq<(Seq<char>, Seq<PdfValue>)>) -> Seq<u8>;

/// The values of a sequence of objects, in order.
pub open spec fn object_values(objects: Seq<lopdf::Object>) -> Seq<PdfValue> {
    objects.map_values(|o: lopdf::Object| object_value(o))
}

/// A dictionary entry: the key and the object under it.
pub struct Entry {
    pub key: String,
    pub value: lopdf::Object,
}

/// The entries as the model has them: each key's bytes with its object's
/// value.
pub open spec fn entry_values(entries: Seq<Entry>) -> Seq<(Seq<u8>, PdfValue)> {
    entries.map_values(|e: Entry| (utf8(e.key@), object_value(e.value)))
}

/// No two entries have the same key.
pub open spec fn distinct_keys(entries: Seq<Entry>) -> bool {
    forall|i: int, j: int|
        0 <= i < j < entries.len() ==> (#[trigger] entries[i]).key@ != (#[trigger] entries[j]).key@
}

/// No entry has the key `key`.
pub open spec fn lacks_key(entries: Seq<Entry>, key: Seq<char>) -> bool {
    forall|i: int| 0 <= i < entries.len() ==> (#[trigger] entries[i]).key@ != key
}

/// An operation of a content stream: the operator and its operands.
pub struct Operation {
    pub operator: String,
    pub operands: Vec<lopdf::Object>,
}

/// The operations as the model has them.
pub open spec fn operation_values(operations: Seq<Operation>) -> Seq<(Seq<char>, Seq<PdfValue>)> {
    operations.map_values(|op: Operation| (op.operator@, object_values(op.operands@)))
}

/// `Object::from(i64)`: the integer object that holds `number`.
#[verifier::external_body]
pub(crate) fn integer_object(number: i64) -> (object: lopdf::Object)
    ensures
        object_value(object) == PdfValue::Integer(number),
{
    lopdf::Object::from(number)
}

/// `Object::as_f32`: the bits of the real number that an object holds, or
/// nothing where the object is no real number.
#[verifier::external_body]
pub(crate) fn real_bits(object: &lopdf::Object) -> (bits: Option<u32>)
    ensures
        match bits {
            Some(b) => object_value(*object) == PdfValue::Real(b),
            None => !(object_value(*object) is Real),
        },
{
    object.as_f32().ok().map(|number| number.to_bits())
}

/// `Object::from(&str)`: the name object whose bytes are those of `name`.
#[verifier::external_body]
pub(crate) fn name_object(name: &str) -> (object: lopdf::Object)
    ensures
        object_value(object) == PdfValue::Name(utf8(name@)),
{
    lopdf::Object::from(name)
}

/// `Object::from(ObjectId)`: the reference to the object `id`.
#[verifier::external_body]
pub(crate) fn reference_object(id: (u32, u16)) -> (object: lopdf::Object)
    ensures
        object_value(object) == PdfValue::Reference(id),
{
    lopdf::Object::from(id)
}

/// `Object::from(Vec<Object>)`: the array of the given objects, in order.
#[verifier::external_body]
pub(crate) fn array_object(items: Vec<lopdf::Object>) -> (object: lopdf::Object)
    ensures
        object_value(object) == PdfValue::Array(object_values(items@)),
{
    lopdf::Object::from(items)
}

/// `Dictionary::from_iter` and `Object::from(Dictionary)`: the dictionary that
/// holds the entries in the order given. It is stated for entries whose keys
/// differ, for which `Dictionary::set` only ever appends.
#[verifier::external_body]
pub(crate) fn dictionary_object(entries: Vec<Entry>) -> (object: lopdf::Object)
    requires
        distinct_keys(entries@),
    ensures
        object_value(object) == PdfValue::Dictionary(entry_values(entries@)),
{
    lopdf::Object::from(lopdf::Dictionary::from_iter(entries.into_iter().map(|e| (e.key, e.value))))
}

/// `Stream::new` and `Object::from(Stream)`: the stream with the given content,
/// whose dictionary holds the entries in the order given and then `Length`,
/// which `Stream::new` sets to the content's length in bytes. It is stated for
/// entries whose keys differ and of which none is `Length`.
#[verifier::external_body]
pub(crate) fn stream_object(entries: Vec<Entry>, content: Vec<u8>) -> (object: lopdf::Object)
    requires
        distinct_keys(entries@),
        lacks_key(entries@, "Length"@),
    ensures
        object_value(object) == PdfValue::Stream(
            entry_values(entries@).push(
                (utf8("Length"@), PdfValue::Integer(content@.len() as i64)),
            ),
            content@,
        ),
{
    let dict = lopdf::Dictionary::from_iter(entries.into_iter().map(|e| (e.key, e.value)));
    lopdf::Object::from(lopdf::Stream::new(dict, content))
}

/// `Object::clone`: an object that holds what `object` holds.
#[verifier::external_body]
pub(crate) fn clone_object(object: &lopdf::Object) -> (copy: lopdf::Object)
    ensures
        object_value(copy) == object_value(*object),
{
    object.clone()
}

/// `Content::encode`: the bytes of the content stream that holds the
/// operations in the order given. It always succeeds: it fails only where a
/// write fails, and it writes into a vector of its own.
#[verifier::external_body]
pub(crate) fn encode_content(operations: Vec<Operation>) -> (encoded: Result<Vec<u8>, lopdf::Error>)
    ensures
        encoded is Ok,
        encoded matches Ok(bytes) ==> bytes@ == encoded_content(operation_values(operations@)),
{
    let operations: Vec<lopdf::content::Operation> = operations.into_iter().map(
        |op| lopdf::content::Operation { operator: op.operator, operands: op.operands },
    ).collect();
    lopdf::content::Content { operations }.encode()
}

/// An entry with the given key and object.
pub fn entry(key: &str, value: lopdf::Object) -> (e: Entry)
    ensures
        e.key@ == key@,
        e.value == value,
{
    Entry { key: String::from_str(key), value }
}

} // verus!
