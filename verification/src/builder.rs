//! The object graph of the document: a catalog, a page tree, and for each image
//! an image stream, a content stream and a page.

use crate::document::{
    add_object, document_binary_mark, document_max_id, document_objects, document_trailer,
    document_version, document_xref_stream, insert_object, new_document, new_object_id,
    no_objects, save_document, saveable, serialized, set_trailer, written,
};
use crate::error::{AppError, ErrorView};
use crate::objects::{
    array_object, clone_object, dictionary_object, encode_content, encoded_content, entry,
    integer_object, name_object, object_value, real_bits, reference_object, stream_object, utf8,
    Entry, Operation, PdfValue,
};
use vstd::prelude::*;

verus! {

/// A decoded image: its size in pixels and its samples, eight bits each of red,
/// green and blue, row by row.
pub struct DecodedImage {
    pub width: u32,
    pub height: u32,
    pub rgb: Vec<u8>,
}

impl DecodedImage {
    /// Whether the samples are those of an image of this size: three for
    /// each pixel.
    pub open spec fn wf(&self) -> bool {
        self.rgb@.len() == 3 * self.width * self.height
    }

    /// The image of the given size and samples, if there are three samples
    /// for each pixel.
    pub fn new(width: u32, height: u32, rgb: Vec<u8>) -> (made: Option<DecodedImage>)
        ensures
            match made {
                Some(image) => image.wf() && image.width == width && image.height == height
                    && image.rgb == rgb,
                None => rgb@.len() != 3 * width * height,
            },
    {
        assert(width * height <= 0xFFFF_FFFF * 0xFFFF_FFFF) by (nonlinear_arith)
            requires
                width <= 0xFFFF_FFFF,
                height <= 0xFFFF_FFFF,
        ;
        assert(3 * (width * height) == 3 * width * height) by (nonlinear_arith);
        let pixels: u64 = width as u64 * height as u64;
        if rgb.len() as u128 == 3 * (pixels as u128) {
            Some(DecodedImage { width, height, rgb })
        } else {
            None
        }
    }
}

/// The size of every page, in points: two real numbers of the document.
pub struct PageBox {
    pub width: lopdf::Object,
    pub height: lopdf::Object,
}

impl PageBox {
    /// Whether both are real numbers.
    pub open spec fn wf(&self) -> bool {
        object_value(self.width) is Real && object_value(self.height) is Real
    }

    /// The page box of the given width and height, if both are real numbers.
    pub fn new(width: lopdf::Object, height: lopdf::Object) -> (made: Option<PageBox>)
        ensures
            match made {
                Some(page_box) => page_box.wf() && page_box.width == width && page_box.height
                    == height,
                None => !(object_value(width) is Real && object_value(height) is Real),
            },
    {
        if real_bits(&width).is_some() && real_bits(&height).is_some() {
            Some(PageBox { width, height })
        } else {
            None
        }
    }
}

/// The rectangle into which an image is drawn, in points from the page's lower
/// left corner: four real numbers of the document.
pub struct Placement {
    pub x: lopdf::Object,
    pub y: lopdf::Object,
    pub width: lopdf::Object,
    pub height: lopdf::Object,
}

impl Placement {
    /// Whether all four are real numbers.
    pub open spec fn wf(&self) -> bool {
        &&& object_value(self.x) is Real
        &&& object_value(self.y) is Real
        &&& object_value(self.width) is Real
        &&& object_value(self.height) is Real
    }

    /// The rectangle at the given place and of the given size, if all four
    /// are real numbers.
    pub fn new(
        x: lopdf::Object,
        y: lopdf::Object,
        width: lopdf::Object,
        height: lopdf::Object,
    ) -> (made: Option<Placement>)
        ensures
            match made {
                Some(placement) => placement.wf() && placement.x == x && placement.y == y
                    && placement.width == width && placement.height == height,
                None => !(object_value(x) is Real && object_value(y) is Real && object_value(
                    width,
                ) is Real && object_value(height) is Real),
            },
    {
        if real_bits(&x).is_some() && real_bits(&y).is_some() && real_bits(&width).is_some()
            && real_bits(&height).is_some() {
            Some(Placement { x, y, width, height })
        } else {
            None
        }
    }
}

/// What one page was made from: the image, and the numbers of the rectangle
/// and of the page box, each by the bits of its single-precision encoding.
pub struct PageRecord {
    pub width: u32,
    pub height: u32,
    pub rgb: Seq<u8>,
    pub x: u32,
    pub y: u32,
    pub draw_width: u32,
    pub draw_height: u32,
    pub box_width: u32,
    pub box_height: u32,
}

/// The bits of the real number that an object holds.
pub open spec fn bits_of(object: lopdf::Object) -> u32 {
    object_value(object)->Real_0
}

/// The record of a page made from these inputs.
pub open spec fn record_of(
    image: DecodedImage,
    placement: Placement,
    page_box: PageBox,
) -> PageRecord {
    PageRecord {
        width: image.width,
        height: image.height,
        rgb: image.rgb@,
        x: bits_of(placement.x),
        y: bits_of(placement.y),
        draw_width: bits_of(placement.width),
        draw_height: bits_of(placement.height),
        box_width: bits_of(page_box.width),
        box_height: bits_of(page_box.height),
    }
}

/// The identifier of the page tree: the first that the document gives out.
pub open spec fn pages_id() -> (u32, u16) {
    (1u32, 0u16)
}

/// The identifier of the catalog.
pub open spec fn catalog_id() -> (u32, u16) {
    (2u32, 0u16)
}

/// The identifier of the image stream of page `k`, counted from 0.
pub open spec fn image_id(k: int) -> (u32, u16) {
    ((3 + 3 * k) as u32, 0u16)
}

/// The identifier of the content stream of page `k`.
pub open spec fn content_id(k: int) -> (u32, u16) {
    ((4 + 3 * k) as u32, 0u16)
}

/// The identifier of page `k`.
pub open spec fn page_id(k: int) -> (u32, u16) {
    ((5 + 3 * k) as u32, 0u16)
}

/// The identifiers of the first `n` pages, in order.
pub open spec fn page_ids(n: nat) -> Seq<(u32, u16)> {
    Seq::new(n, |k: int| page_id(k))
}

/// The most pages that a document can hold: each takes three object numbers
/// after the first two, and an object number fits in 32 bits.
pub const MAX_PAGES: usize = 1431655764;

/// The catalog: the root of the document, which names the page tree.
pub open spec fn catalog_value(pages: (u32, u16)) -> PdfValue {
    PdfValue::Dictionary(
        seq![
            (utf8("Type"@), PdfValue::Name(utf8("Catalog"@))),
            (utf8("Pages"@), PdfValue::Reference(pages)),
        ],
    )
}

/// The image stream: the samples, uncompressed, with what a reader needs to
/// lay them out. For a well-formed image the length is three bytes for each
/// pixel.
pub open spec fn image_value(width: u32, height: u32, rgb: Seq<u8>) -> PdfValue {
    PdfValue::Stream(
        seq![
            (utf8("Type"@), PdfValue::Name(utf8("XObject"@))),
            (utf8("Subtype"@), PdfValue::Name(utf8("Image"@))),
            (utf8("Width"@), PdfValue::Integer(width as i64)),
            (utf8("Height"@), PdfValue::Integer(height as i64)),
            (utf8("ColorSpace"@), PdfValue::Name(utf8("DeviceRGB"@))),
            (utf8("BitsPerComponent"@), PdfValue::Integer(8)),
            (utf8("Length"@), PdfValue::Integer(rgb.len() as i64)),
        ],
        rgb,
    )
}

/// The four operations that draw the image: save the graphics state, map the
/// unit square onto the rectangle, paint the image, restore the state.
pub open spec fn draw_operations(
    x: PdfValue,
    y: PdfValue,
    width: PdfValue,
    height: PdfValue,
) -> Seq<(Seq<char>, Seq<PdfValue>)> {
    seq![
        ("q"@, Seq::<PdfValue>::empty()),
        ("cm"@, seq![width, PdfValue::Integer(0), PdfValue::Integer(0), height, x, y]),
        ("Do"@, seq![PdfValue::Name(utf8("Im1"@))]),
        ("Q"@, Seq::<PdfValue>::empty()),
    ]
}

/// The bytes of a page's content stream.
pub open spec fn page_content(record: PageRecord) -> Seq<u8> {
    encoded_content(
        draw_operations(
            PdfValue::Real(record.x),
            PdfValue::Real(record.y),
            PdfValue::Real(record.draw_width),
            PdfValue::Real(record.draw_height),
        ),
    )
}

/// The content stream that holds `content`.
pub open spec fn content_value(content: Seq<u8>) -> PdfValue {
    PdfValue::Stream(seq![(utf8("Length"@), PdfValue::Integer(content.len() as i64))], content)
}

/// A page: its parent, its box from the origin, its content stream, and the
/// image under the name by which the content stream paints it.
pub open spec fn page_value(
    parent: (u32, u16),
    box_width: PdfValue,
    box_height: PdfValue,
    contents: (u32, u16),
    image: (u32, u16),
) -> PdfValue {
    PdfValue::Dictionary(
        seq![
            (utf8("Type"@), PdfValue::Name(utf8("Page"@))),
            (utf8("Parent"@), PdfValue::Reference(parent)),
            (
                utf8("MediaBox"@),
                PdfValue::Array(
                    seq![PdfValue::Integer(0), PdfValue::Integer(0), box_width, box_height],
                ),
            ),
            (utf8("Contents"@), PdfValue::Reference(contents)),
            (
                utf8("Resources"@),
                PdfValue::Dictionary(
                    seq![
                        (
                            utf8("XObject"@),
                            PdfValue::Dictionary(seq![(utf8("Im1"@), PdfValue::Reference(image))]),
                        ),
                    ],
                ),
            ),
        ],
    )
}

/// References to the given objects, in order.
pub open spec fn references(ids: Seq<(u32, u16)>) -> Seq<PdfValue> {
    ids.map_values(|id: (u32, u16)| PdfValue::Reference(id))
}

/// The page tree: how many pages there are, and which, in order.
pub open spec fn pages_value(kids: Seq<(u32, u16)>) -> PdfValue {
    PdfValue::Dictionary(
        seq![
            (utf8("Type"@), PdfValue::Name(utf8("Pages"@))),
            (utf8("Count"@), PdfValue::Integer(kids.len() as i64)),
            (utf8("Kids"@), PdfValue::Array(references(kids))),
        ],
    )
}

/// The objects of a document under construction: the catalog, and for each
/// page so far its image stream, its content stream and the page itself.
pub open spec fn built_objects(records: Seq<PageRecord>) -> Map<(u32, u16), PdfValue>
    decreases records.len(),
{
    if records.len() == 0 {
        no_objects().insert(catalog_id(), catalog_value(pages_id()))
    } else {
        let k = records.len() - 1;
        let r = records.last();
        built_objects(records.drop_last()).insert(
            image_id(k),
            image_value(r.width, r.height, r.rgb),
        ).insert(content_id(k), content_value(page_content(r))).insert(
            page_id(k),
            page_value(
                pages_id(),
                PdfValue::Real(r.box_width),
                PdfValue::Real(r.box_height),
                content_id(k),
                image_id(k),
            ),
        )
    }
}

/// The objects of the finished document: those under construction, and the
/// page tree that lists the pages in the order in which they were added.
pub open spec fn finished_objects(records: Seq<PageRecord>) -> Map<(u32, u16), PdfValue> {
    built_objects(records).insert(pages_id(), pages_value(page_ids(records.len())))
}

/// The trailer of every document made here: it names the catalog as the root.
pub open spec fn trailer_value() -> Seq<(Seq<u8>, PdfValue)> {
    seq![(utf8("Root"@), PdfValue::Reference(catalog_id()))]
}

/// The binary mark of every document made here: four bytes that tell a reader
/// that the file holds more than text.
pub open spec fn binary_mark() -> Seq<u8> {
    seq![0xBBu8, 0xADu8, 0xC0u8, 0xDEu8]
}

/// The bytes of the finished document for the given pages: what `lopdf`
/// writes for version 1.5, the objects of `finished_objects`, the trailer that
/// names the catalog, and cross-reference data in a stream.
pub open spec fn document_bytes(records: Seq<PageRecord>) -> Option<Seq<u8>> {
    written(
        "1.5"@,
        binary_mark(),
        true,
        finished_objects(records),
        trailer_value(),
        (2 + 3 * records.len()) as u32,
    )
}

/// A document under construction.
pub struct Builder {
    doc: lopdf::Document,
    pages: (u32, u16),
    kids: Vec<(u32, u16)>,
    expected: usize,
    records: Ghost<Seq<PageRecord>>,
}

impl Builder {
    /// What the pages added so far were made from, in order.
    pub closed spec fn records(&self) -> Seq<PageRecord> {
        self.records@
    }

    /// How many pages the document is to have: one for each image that it was
    /// started for.
    pub closed spec fn expected(&self) -> nat {
        self.expected as nat
    }

    /// The builder's invariant: the document holds the catalog and what was
    /// added, the trailer names the catalog, and the object numbers given out
    /// are the first two and three for each page. `start` establishes it and
    /// every method keeps it.
    pub closed spec fn wf(&self) -> bool {
        &&& self.pages == pages_id()
        &&& self.records@.len() <= MAX_PAGES
        &&& self.records@.len() <= self.expected
        &&& self.expected > 0
        &&& document_max_id(self.doc) == 2 + 3 * self.records@.len()
        &&& document_objects(self.doc) == built_objects(self.records@)
        &&& document_trailer(self.doc) == trailer_value()
        &&& document_binary_mark(self.doc) == binary_mark()
        &&& document_version(self.doc) == "1.5"@
        &&& document_xref_stream(self.doc)
        &&& self.kids@ == page_ids(self.records@.len())
    }

    /// Starts a document for the images at `image_paths`: reserves the page
    /// tree's identifier, stores the catalog and names it as the root. With no
    /// image there is nothing to build.
    pub fn start(image_paths: &Vec<String>) -> (started: Result<Builder, AppError>)
        ensures
            match started {
                Ok(builder) => {
                    &&& image_paths@.len() > 0
                    &&& builder.wf()
                    &&& builder.records() == Seq::<PageRecord>::empty()
                    &&& builder.expected() == image_paths@.len()
                },
                Err(e) => image_paths@.len() == 0 && e@ == ErrorView::NoImages,
            },
    {
        if image_paths.len() == 0 {
            return Err(AppError::NoImages);
        }
        let mut doc = new_document("1.5");
        let pages = new_object_id(&mut doc);
        let mut entries: Vec<Entry> = Vec::new();
        entries.push(entry("Type", name_object("Catalog")));
        entries.push(entry("Pages", reference_object(pages)));
        proof {
            reveal_strlit("Type");
            reveal_strlit("Pages");
            assert(entries@[0].key@ == "Type"@);
            assert(entries@[1].key@ == "Pages"@);
            assert(crate::objects::distinct_keys(entries@));
            assert(crate::objects::entry_values(entries@) =~= seq![
                (utf8("Type"@), PdfValue::Name(utf8("Catalog"@))),
                (utf8("Pages"@), PdfValue::Reference(pages)),
            ]);
        }
        let catalog = add_object(&mut doc, dictionary_object(entries));
        proof {
            assert(crate::document::key_absent(document_trailer(doc), utf8("Root"@)));
        }
        set_trailer(&mut doc, "Root", reference_object(catalog));
        proof {
            assert(document_trailer(doc) =~= trailer_value());
            assert(page_ids(0) =~= Seq::<(u32, u16)>::empty());
        }
        Ok(
            Builder {
                doc,
                pages,
                kids: Vec::new(),
                expected: image_paths.len(),
                records: Ghost(Seq::empty()),
            },
        )
    }

    /// How many pages the document is to have.
    pub fn expected_pages(&self) -> (n: usize)
        requires
            self.wf(),
        ensures
            n == self.expected(),
            n > 0,
    {
        self.expected
    }

    /// How many pages have been added.
    pub fn page_count(&self) -> (n: usize)
        requires
            self.wf(),
        ensures
            n == self.records().len(),
            n <= MAX_PAGES,
            n <= self.expected(),
    {
        proof {
            assert(self.kids@.len() == self.records@.len());
        }
        self.kids.len()
    }

    /// Adds a page that shows `image` in the rectangle `placement` on a page
    /// of size `page_box`: stores the image stream, the content stream and the
    /// page, in that order, and appends the page to the list of pages. It
    /// always succeeds. No more pages are added than the document was started
    /// for, and a document that holds `MAX_PAGES` pages has no object number
    /// left for another.
    pub fn add_image_page(
        &mut self,
        image: DecodedImage,
        placement: Placement,
        page_box: &PageBox,
    ) -> (added: Result<(u32, u16), AppError>)
        requires
            old(self).wf(),
            old(self).records().len() < MAX_PAGES,
            old(self).records().len() < old(self).expected(),
            image.wf(),
            placement.wf(),
            page_box.wf(),
        ensures
            final(self).wf(),
            final(self).expected() == old(self).expected(),
            added matches Ok(id) && id == page_id(old(self).records().len() as int),
            final(self).records() == old(self).records().push(
                record_of(image, placement, *page_box),
            ),
    {
        let ghost record = record_of(image, placement, *page_box);
        let ghost k = self.records@.len() as int;
        let DecodedImage { width, height, rgb } = image;
        let Placement { x, y, width: draw_width, height: draw_height } = placement;

        let content = match encode_content(draw(x, y, draw_width, draw_height)) {
            Ok(bytes) => bytes,
            Err(error) => {
                let text = String::from_str("Failed to encode content: ").concat(
                    error.to_string().as_str(),
                );
                return Err(AppError::PdfGenerationError(text));
            },
        };
        assert(content@ == page_content(record));

        let image_ref = add_object(&mut self.doc, image_stream(width, height, rgb));
        let content_ref = add_object(&mut self.doc, content_stream(content));
        let page = page_dictionary(self.pages, page_box, content_ref, image_ref);
        let page_ref = add_object(&mut self.doc, page);
        self.kids.push(page_ref);
        proof {
            let grown = self.records@.push(record);
            assert(grown.drop_last() =~= self.records@);
            assert(grown.last() == record);
            assert(image_ref == image_id(k));
            assert(content_ref == content_id(k));
            assert(page_ref == page_id(k));
            assert(self.kids@ =~= page_ids(grown.len()));
            self.records = Ghost(grown);
        }
        Ok(page_ref)
    }

    /// Finishes the document once it has a page for each image that it was
    /// started for: stores the page tree, which counts the pages and lists
    /// them in the order in which they were added. The document can then be
    /// saved.
    pub fn finish(self) -> (doc: lopdf::Document)
        requires
            self.wf(),
            self.records().len() == self.expected(),
        ensures
            document_objects(doc) == finished_objects(self.records()),
            document_trailer(doc) == trailer_value(),
            document_max_id(doc) == 2 + 3 * self.records().len(),
            saveable(doc),
            serialized(doc) == document_bytes(self.records()),
    {
        let Builder { doc, pages, kids, expected, records } = self;
        let mut doc = doc;
        let tree = pages_dictionary(&kids);
        insert_object(&mut doc, pages, tree);
        doc
    }
}

/// Every object number of a document under construction is in use or
/// reserved: the objects are the catalog and three for each page, each page
/// under `page_id` of its place with its image and content streams under
/// `image_id` and `content_id` of the same place, and the page tree's own
/// identifier is still free.
pub proof fn lemma_built_objects(records: Seq<PageRecord>)
    requires
        records.len() <= MAX_PAGES,
    ensures
        !built_objects(records).dom().contains(pages_id()),
        built_objects(records).dom().contains(catalog_id()),
        built_objects(records)[catalog_id()] == catalog_value(pages_id()),
        forall|id: (u32, u16)| #[trigger]
            built_objects(records).dom().contains(id) ==> id.1 == 0 && 2 <= id.0 <= 2 + 3
                * records.len(),
        forall|k: int|
            0 <= k < records.len() ==> {
                &&& built_objects(records).dom().contains(#[trigger] page_id(k))
                &&& built_objects(records)[page_id(k)] == page_value(
                    pages_id(),
                    PdfValue::Real(records[k].box_width),
                    PdfValue::Real(records[k].box_height),
                    content_id(k),
                    image_id(k),
                )
            },
        forall|k: int|
            0 <= k < records.len() ==> {
                &&& built_objects(records).dom().contains(#[trigger] image_id(k))
                &&& built_objects(records)[image_id(k)] == image_value(
                    records[k].width,
                    records[k].height,
                    records[k].rgb,
                )
            },
        forall|k: int|
            0 <= k < records.len() ==> {
                &&& built_objects(records).dom().contains(#[trigger] content_id(k))
                &&& built_objects(records)[content_id(k)] == content_value(page_content(records[k]))
            },
    decreases records.len(),
{
    if records.len() > 0 {
        let n = records.len() - 1;
        let shorter = records.drop_last();
        lemma_built_objects(shorter);
        assert forall|k: int| 0 <= k < records.len() implies {
            &&& built_objects(records).dom().contains(#[trigger] page_id(k))
            &&& built_objects(records)[page_id(k)] == page_value(
                pages_id(),
                PdfValue::Real(records[k].box_width),
                PdfValue::Real(records[k].box_height),
                content_id(k),
                image_id(k),
            )
        } by {
            if k < n {
                assert(shorter[k] == records[k]);
                assert(built_objects(shorter).dom().contains(page_id(k)));
            }
        }
        assert forall|k: int| 0 <= k < records.len() implies {
            &&& built_objects(records).dom().contains(#[trigger] image_id(k))
            &&& built_objects(records)[image_id(k)] == image_value(
                records[k].width,
                records[k].height,
                records[k].rgb,
            )
        } by {
            if k < n {
                assert(shorter[k] == records[k]);
                assert(built_objects(shorter).dom().contains(image_id(k)));
            }
        }
        assert forall|k: int| 0 <= k < records.len() implies {
            &&& built_objects(records).dom().contains(#[trigger] content_id(k))
            &&& built_objects(records)[content_id(k)] == content_value(page_content(records[k]))
        } by {
            if k < n {
                assert(shorter[k] == records[k]);
                assert(built_objects(shorter).dom().contains(content_id(k)));
            }
        }
    }
}

/// In a finished document the page tree counts the pages that were added and
/// lists them in the order in which they were added, and the page at each
/// place shows the image that was added at that place.
pub proof fn lemma_pages_in_order(records: Seq<PageRecord>)
    requires
        records.len() <= MAX_PAGES,
    ensures
        finished_objects(records).dom().contains(pages_id()),
        finished_objects(records)[pages_id()] == PdfValue::Dictionary(
            seq![
                (utf8("Type"@), PdfValue::Name(utf8("Pages"@))),
                (utf8("Count"@), PdfValue::Integer(records.len() as i64)),
                (utf8("Kids"@), PdfValue::Array(references(page_ids(records.len())))),
            ],
        ),
        references(page_ids(records.len())).len() == records.len(),
        forall|k: int|
            0 <= k < records.len() ==> {
                &&& (#[trigger] references(page_ids(records.len()))[k]) == PdfValue::Reference(
                    page_id(k),
                )
                &&& finished_objects(records)[page_id(k)] == page_value(
                    pages_id(),
                    PdfValue::Real(records[k].box_width),
                    PdfValue::Real(records[k].box_height),
                    content_id(k),
                    image_id(k),
                )
                &&& finished_objects(records)[image_id(k)] == image_value(
                    records[k].width,
                    records[k].height,
                    records[k].rgb,
                )
                &&& finished_objects(records)[content_id(k)] == content_value(
                    page_content(records[k]),
                )
            },
        finished_objects(records)[catalog_id()] == catalog_value(pages_id()),
{
    lemma_built_objects(records);
    assert forall|k: int| 0 <= k < records.len() implies {
        &&& (#[trigger] references(page_ids(records.len()))[k]) == PdfValue::Reference(page_id(k))
        &&& finished_objects(records)[page_id(k)] == page_value(
            pages_id(),
            PdfValue::Real(records[k].box_width),
            PdfValue::Real(records[k].box_height),
            content_id(k),
            image_id(k),
        )
        &&& finished_objects(records)[image_id(k)] == image_value(
            records[k].width,
            records[k].height,
            records[k].rgb,
        )
        &&& finished_objects(records)[content_id(k)] == content_value(page_content(records[k]))
    } by {
        assert(built_objects(records).dom().contains(page_id(k)));
        assert(built_objects(records).dom().contains(image_id(k)));
        assert(built_objects(records).dom().contains(content_id(k)));
    }
}

/// The operations that draw the image into the rectangle.
fn draw(
    x: lopdf::Object,
    y: lopdf::Object,
    width: lopdf::Object,
    height: lopdf::Object,
) -> (operations: Vec<Operation>)
    ensures
        crate::objects::operation_values(operations@) == draw_operations(
            object_value(x),
            object_value(y),
            object_value(width),
            object_value(height),
        ),
{
    let mut matrix: Vec<lopdf::Object> = Vec::new();
    matrix.push(width);
    matrix.push(integer_object(0));
    matrix.push(integer_object(0));
    matrix.push(height);
    matrix.push(x);
    matrix.push(y);
    let mut name: Vec<lopdf::Object> = Vec::new();
    name.push(name_object("Im1"));
    let mut operations: Vec<Operation> = Vec::new();
    operations.push(Operation { operator: String::from_str("q"), operands: Vec::new() });
    operations.push(Operation { operator: String::from_str("cm"), operands: matrix });
    operations.push(Operation { operator: String::from_str("Do"), operands: name });
    operations.push(Operation { operator: String::from_str("Q"), operands: Vec::new() });
    proof {
        let got = crate::objects::operation_values(operations@);
        let want = draw_operations(
            object_value(x),
            object_value(y),
            object_value(width),
            object_value(height),
        );
        assert(got.len() == want.len());
        assert(got[0].1 =~= want[0].1);
        assert(got[1].1 =~= want[1].1);
        assert(got[2].1 =~= want[2].1);
        assert(got[3].1 =~= want[3].1);
        assert(got =~= want);
    }
    operations
}

/// The image stream of an image.
fn image_stream(width: u32, height: u32, rgb: Vec<u8>) -> (object: lopdf::Object)
    ensures
        object_value(object) == image_value(width, height, rgb@),
{
    let mut entries: Vec<Entry> = Vec::new();
    entries.push(entry("Type", name_object("XObject")));
    entries.push(entry("Subtype", name_object("Image")));
    entries.push(entry("Width", integer_object(width as i64)));
    entries.push(entry("Height", integer_object(height as i64)));
    entries.push(entry("ColorSpace", name_object("DeviceRGB")));
    entries.push(entry("BitsPerComponent", integer_object(8)));
    proof {
        reveal_strlit("Type");
        reveal_strlit("Subtype");
        reveal_strlit("Width");
        reveal_strlit("Height");
        reveal_strlit("ColorSpace");
        reveal_strlit("BitsPerComponent");
        reveal_strlit("Length");
        assert(entries@.len() == 6);
        assert(entries@[0].key@ == "Type"@);
        assert(entries@[1].key@ == "Subtype"@);
        assert(entries@[2].key@ == "Width"@);
        assert(entries@[3].key@ == "Height"@);
        assert(entries@[4].key@ == "ColorSpace"@);
        assert(entries@[5].key@ == "BitsPerComponent"@);
        assert("Height"@[0] != "Length"@[0]);
        assert(crate::objects::distinct_keys(entries@));
        assert(crate::objects::lacks_key(entries@, "Length"@));
        assert(crate::objects::entry_values(entries@).push(
            (utf8("Length"@), PdfValue::Integer(rgb@.len() as i64)),
        ) =~= seq![
            (utf8("Type"@), PdfValue::Name(utf8("XObject"@))),
            (utf8("Subtype"@), PdfValue::Name(utf8("Image"@))),
            (utf8("Width"@), PdfValue::Integer(width as i64)),
            (utf8("Height"@), PdfValue::Integer(height as i64)),
            (utf8("ColorSpace"@), PdfValue::Name(utf8("DeviceRGB"@))),
            (utf8("BitsPerComponent"@), PdfValue::Integer(8)),
            (utf8("Length"@), PdfValue::Integer(rgb@.len() as i64)),
        ]);
    }
    stream_object(entries, rgb)
}

/// The content stream that holds `content`.
fn content_stream(content: Vec<u8>) -> (object: lopdf::Object)
    ensures
        object_value(object) == content_value(content@),
{
    let entries: Vec<Entry> = Vec::new();
    proof {
        assert(crate::objects::entry_values(entries@).push(
            (utf8("Length"@), PdfValue::Integer(content@.len() as i64)),
        ) =~= seq![(utf8("Length"@), PdfValue::Integer(content@.len() as i64))]);
    }
    stream_object(entries, content)
}

/// The dictionary of a page.
fn page_dictionary(
    parent: (u32, u16),
    page_box: &PageBox,
    contents: (u32, u16),
    image: (u32, u16),
) -> (object: lopdf::Object)
    ensures
        object_value(object) == page_value(
            parent,
            object_value(page_box.width),
            object_value(page_box.height),
            contents,
            image,
        ),
{
    let mut media_box: Vec<lopdf::Object> = Vec::new();
    media_box.push(integer_object(0));
    media_box.push(integer_object(0));
    media_box.push(clone_object(&page_box.width));
    media_box.push(clone_object(&page_box.height));
    let media_box = array_object(media_box);
    assert(object_value(media_box) == PdfValue::Array(
        seq![
            PdfValue::Integer(0),
            PdfValue::Integer(0),
            object_value(page_box.width),
            object_value(page_box.height),
        ],
    )) by {
        assert(object_value(media_box)->Array_0 =~= seq![
            PdfValue::Integer(0),
            PdfValue::Integer(0),
            object_value(page_box.width),
            object_value(page_box.height),
        ]);
    }

    let mut images: Vec<Entry> = Vec::new();
    images.push(entry("Im1", reference_object(image)));
    assert(crate::objects::entry_values(images@) =~= seq![
        (utf8("Im1"@), PdfValue::Reference(image)),
    ]);
    let images = dictionary_object(images);
    let mut resources: Vec<Entry> = Vec::new();
    resources.push(entry("XObject", images));
    assert(crate::objects::entry_values(resources@) =~= seq![
        (utf8("XObject"@), object_value(images)),
    ]);
    let resources = dictionary_object(resources);

    let mut entries: Vec<Entry> = Vec::new();
    entries.push(entry("Type", name_object("Page")));
    entries.push(entry("Parent", reference_object(parent)));
    entries.push(entry("MediaBox", media_box));
    entries.push(entry("Contents", reference_object(contents)));
    entries.push(entry("Resources", resources));
    proof {
        reveal_strlit("Type");
        reveal_strlit("Parent");
        reveal_strlit("MediaBox");
        reveal_strlit("Contents");
        reveal_strlit("Resources");
        assert(entries@.len() == 5);
        assert(entries@[0].key@ == "Type"@);
        assert(entries@[1].key@ == "Parent"@);
        assert(entries@[2].key@ == "MediaBox"@);
        assert(entries@[3].key@ == "Contents"@);
        assert(entries@[4].key@ == "Resources"@);
        assert("MediaBox"@[0] != "Contents"@[0]);
        assert(crate::objects::distinct_keys(entries@));
        assert(crate::objects::entry_values(entries@) =~= seq![
            (utf8("Type"@), PdfValue::Name(utf8("Page"@))),
            (utf8("Parent"@), PdfValue::Reference(parent)),
            (utf8("MediaBox"@), object_value(media_box)),
            (utf8("Contents"@), PdfValue::Reference(contents)),
            (utf8("Resources"@), object_value(resources)),
        ]);
    }
    dictionary_object(entries)
}

/// The dictionary of the page tree over the given pages.
fn pages_dictionary(kids: &Vec<(u32, u16)>) -> (object: lopdf::Object)
    requires
        kids@.len() <= MAX_PAGES,
    ensures
        object_value(object) == pages_value(kids@),
{
    let mut items: Vec<lopdf::Object> = Vec::new();
    let mut i: usize = 0;
    while i < kids.len()
        invariant
            i <= kids@.len(),
            items@.len() == i,
            forall|j: int|
                0 <= j < i ==> object_value(#[trigger] items@[j]) == PdfValue::Reference(kids@[j]),
        decreases kids@.len() - i,
    {
        let id = kids[i];
        items.push(reference_object(id));
        i = i + 1;
    }
    assert(crate::objects::object_values(items@) =~= references(kids@));
    let count: i64 = kids.len() as i64;
    let mut entries: Vec<Entry> = Vec::new();
    entries.push(entry("Type", name_object("Pages")));
    entries.push(entry("Count", integer_object(count)));
    entries.push(entry("Kids", array_object(items)));
    proof {
        reveal_strlit("Type");
        reveal_strlit("Count");
        reveal_strlit("Kids");
        assert(entries@.len() == 3);
        assert(entries@[0].key@ == "Type"@);
        assert(entries@[1].key@ == "Count"@);
        assert(entries@[2].key@ == "Kids"@);
        assert("Type"@[0] != "Kids"@[0]);
        assert(crate::objects::distinct_keys(entries@));
        assert(crate::objects::entry_values(entries@) =~= seq![
            (utf8("Type"@), PdfValue::Name(utf8("Pages"@))),
            (utf8("Count"@), PdfValue::Integer(kids@.len() as i64)),
            (utf8("Kids"@), PdfValue::Array(references(kids@))),
        ]);
    }
    dictionary_object(entries)
}

/// Writes the document out: the header, every object, the cross-reference
/// data and the trailer, as `lopdf` lays them out. It succeeds exactly where
/// `lopdf` can save the document, which it can where the document is
/// `saveable`, as every document is that `Builder::finish` hands out.
pub fn serialize(doc: lopdf::Document) -> (written: Result<Vec<u8>, AppError>)
    ensures
        match written {
            Ok(bytes) => serialized(doc) == Some(bytes@),
            Err(e) => {
                &&& serialized(doc) is None
                &&& e@ matches ErrorView::PdfGenerationError(text)
                &&& "Failed to save PDF: "@.is_prefix_of(text)
            },
        },
        saveable(doc) ==> written is Ok,
{
    match save_document(doc) {
        Ok(bytes) => Ok(bytes),
        Err(error) => {
            let text = String::from_str("Failed to save PDF: ").concat(
                error.to_string().as_str(),
            );
            Err(AppError::PdfGenerationError(text))
        },
    }
}

} // verus!
