use img2pdf::{serialize, AppError, Builder, DecodedImage, PageBox, Placement, MAX_PAGES};
use lopdf::Object;

fn paths(n: usize) -> Vec<String> {
    (0..n).map(|i| format!("image{}.png", i)).collect()
}

fn image(width: u32, height: u32, seed: u8) -> DecodedImage {
    let rgb = (0..(width * height * 3)).map(|i| (i as u8).wrapping_add(seed)).collect();
    DecodedImage { width, height, rgb }
}

fn a4() -> PageBox {
    PageBox { width: Object::Real(595.0), height: Object::Real(842.0) }
}

fn placement(x: f32, y: f32, width: f32, height: f32) -> Placement {
    Placement {
        x: Object::Real(x),
        y: Object::Real(y),
        width: Object::Real(width),
        height: Object::Real(height),
    }
}

fn build(images: Vec<DecodedImage>) -> Vec<u8> {
    let mut builder = Builder::start(&paths(images.len())).unwrap();
    for image in images {
        builder.add_image_page(image, placement(0.0, 123.5, 595.0, 595.0), &a4()).unwrap();
    }
    serialize(builder.finish()).unwrap()
}

#[test]
fn no_images_is_an_error() {
    assert!(matches!(Builder::start(&vec![]), Err(AppError::NoImages)));
}

#[test]
fn one_image_gives_one_page() {
    let bytes = build(vec![image(10, 10, 0)]);
    assert!(bytes.starts_with(b"%PDF-1.5"));
    let parsed = lopdf::Document::load_mem(&bytes).unwrap();
    assert_eq!(parsed.get_pages().len(), 1);
}

#[test]
fn identifiers_are_given_out_in_sequence() {
    let mut builder = Builder::start(&paths(2)).unwrap();
    assert_eq!(builder.page_count(), 0);
    let first = builder.add_image_page(image(2, 2, 0), placement(0.0, 0.0, 2.0, 2.0), &a4());
    assert_eq!(first.unwrap(), (5, 0));
    assert_eq!(builder.page_count(), 1);
    let second = builder.add_image_page(image(2, 2, 1), placement(0.0, 0.0, 2.0, 2.0), &a4());
    assert_eq!(second.unwrap(), (8, 0));
    assert_eq!(builder.page_count(), 2);
    let doc = builder.finish();
    assert_eq!(doc.max_id, 8);
    let ids: Vec<(u32, u16)> = doc.objects.keys().cloned().collect();
    assert_eq!(ids, (1..=8).map(|n| (n, 0)).collect::<Vec<_>>());
}

#[test]
fn page_tree_counts_and_lists_the_pages_in_order() {
    let sizes = [(3u32, 2u32), (5, 7), (1, 1), (4, 4)];
    let images: Vec<DecodedImage> =
        sizes.iter().enumerate().map(|(i, (w, h))| image(*w, *h, i as u8)).collect();
    let expected: Vec<Vec<u8>> = images.iter().map(|i| i.rgb.clone()).collect();
    let bytes = build(images);
    let doc = lopdf::Document::load_mem(&bytes).unwrap();

    let catalog = doc.catalog().unwrap();
    assert_eq!(catalog.get(b"Type").unwrap().as_name().unwrap(), b"Catalog");
    let pages_id = catalog.get(b"Pages").unwrap().as_reference().unwrap();
    assert_eq!(pages_id, (1, 0));
    assert_eq!(doc.trailer.get(b"Root").unwrap().as_reference().unwrap(), (2, 0));

    let pages = doc.get_dictionary(pages_id).unwrap();
    assert_eq!(pages.get(b"Type").unwrap().as_name().unwrap(), b"Pages");
    assert_eq!(pages.get(b"Count").unwrap().as_i64().unwrap(), 4);
    let kids = pages.get(b"Kids").unwrap().as_array().unwrap();
    assert_eq!(kids.len(), 4);

    for (k, kid) in kids.iter().enumerate() {
        let page_id = kid.as_reference().unwrap();
        assert_eq!(page_id, (5 + 3 * k as u32, 0));
        let page = doc.get_dictionary(page_id).unwrap();
        assert_eq!(page.get(b"Type").unwrap().as_name().unwrap(), b"Page");
        assert_eq!(page.get(b"Parent").unwrap().as_reference().unwrap(), pages_id);
        let media_box: Vec<f32> = page
            .get(b"MediaBox")
            .unwrap()
            .as_array()
            .unwrap()
            .iter()
            .map(|n| n.as_float().unwrap())
            .collect();
        assert_eq!(media_box, vec![0.0, 0.0, 595.0, 842.0]);
        assert_eq!(page.get(b"Contents").unwrap().as_reference().unwrap(), (4 + 3 * k as u32, 0));
        let resources = page.get(b"Resources").unwrap().as_dict().unwrap();
        let xobjects = resources.get(b"XObject").unwrap().as_dict().unwrap();
        let image_id = xobjects.get(b"Im1").unwrap().as_reference().unwrap();
        assert_eq!(image_id, (3 + 3 * k as u32, 0));

        let stream = doc.get_object(image_id).unwrap().as_stream().unwrap();
        assert_eq!(stream.dict.get(b"Type").unwrap().as_name().unwrap(), b"XObject");
        assert_eq!(stream.dict.get(b"Subtype").unwrap().as_name().unwrap(), b"Image");
        assert_eq!(stream.dict.get(b"Width").unwrap().as_i64().unwrap(), sizes[k].0 as i64);
        assert_eq!(stream.dict.get(b"Height").unwrap().as_i64().unwrap(), sizes[k].1 as i64);
        assert_eq!(stream.dict.get(b"ColorSpace").unwrap().as_name().unwrap(), b"DeviceRGB");
        assert_eq!(stream.dict.get(b"BitsPerComponent").unwrap().as_i64().unwrap(), 8);
        assert_eq!(stream.dict.get(b"Length").unwrap().as_i64().unwrap(), expected[k].len() as i64);
        assert_eq!(stream.content, expected[k]);
    }
    let in_order: Vec<(u32, u16)> = doc.get_pages().values().cloned().collect();
    assert_eq!(in_order, vec![(5, 0), (8, 0), (11, 0), (14, 0)]);
}

#[test]
fn content_stream_draws_the_image_into_its_rectangle() {
    let mut builder = Builder::start(&paths(1)).unwrap();
    builder.add_image_page(image(4, 2, 9), placement(10.0, 123.5, 575.0, 287.5), &a4()).unwrap();
    let doc = builder.finish();
    let content = doc.get_object((4, 0)).unwrap().as_stream().unwrap();
    assert_eq!(
        String::from_utf8(content.content.clone()).unwrap(),
        "q\n575 0 0 287.5 10 123.5 cm\n/Im1 Do\nQ"
    );
    assert_eq!(
        content.dict.get(b"Length").unwrap().as_i64().unwrap(),
        content.content.len() as i64
    );
    let keys: Vec<&[u8]> = content.dict.iter().map(|(k, _)| k.as_slice()).collect();
    assert_eq!(keys, vec![&b"Length"[..]]);
}

#[test]
fn dictionaries_keep_their_entries_in_order() {
    let mut builder = Builder::start(&paths(1)).unwrap();
    builder.add_image_page(image(1, 1, 0), placement(0.0, 0.0, 1.0, 1.0), &a4()).unwrap();
    let doc = builder.finish();
    let keys = |id: (u32, u16)| -> Vec<String> {
        let dict = match doc.objects.get(&id).unwrap() {
            Object::Dictionary(d) => d,
            Object::Stream(s) => &s.dict,
            other => panic!("{:?}", other),
        };
        dict.iter().map(|(k, _)| String::from_utf8(k.clone()).unwrap()).collect()
    };
    assert_eq!(keys((1, 0)), vec!["Type", "Count", "Kids"]);
    assert_eq!(keys((2, 0)), vec!["Type", "Pages"]);
    assert_eq!(
        keys((3, 0)),
        vec!["Type", "Subtype", "Width", "Height", "ColorSpace", "BitsPerComponent", "Length"]
    );
    assert_eq!(keys((5, 0)), vec!["Type", "Parent", "MediaBox", "Contents", "Resources"]);
}

#[test]
fn serialized_document_reads_back_as_it_was_built() {
    // numbers with a fraction, which are read back as the reals they were
    let page_box = PageBox { width: Object::Real(283.5), height: Object::Real(566.25) };
    let mut builder = Builder::start(&paths(1)).unwrap();
    builder.add_image_page(image(3, 3, 1), placement(0.5, 1.5, 3.5, 3.25), &page_box).unwrap();
    let doc = builder.finish();
    let kept = doc.clone();
    let bytes = serialize(doc).unwrap();
    assert!(bytes.ends_with(b"%%EOF"));
    let parsed = lopdf::Document::load_mem(&bytes).unwrap();
    for (id, object) in kept.objects.iter() {
        assert_eq!(parsed.objects.get(id), Some(object));
    }
    assert_eq!(serialize(kept.clone()).unwrap(), bytes);
}

#[test]
fn page_limit_uses_up_the_object_numbers() {
    // two objects before the pages, three for each page
    let last = 2 + 3 * MAX_PAGES as u64;
    assert_eq!(MAX_PAGES, 1_431_655_764);
    assert!(last <= u32::MAX as u64);
    assert!(last + 3 > u32::MAX as u64);
}

#[test]
fn builder_expects_a_page_for_each_path() {
    let mut builder = Builder::start(&paths(3)).unwrap();
    assert_eq!(builder.expected_pages(), 3);
    assert_eq!(builder.page_count(), 0);
    for k in 0..3u8 {
        builder.add_image_page(image(1, 1, k), placement(0.0, 0.0, 1.0, 1.0), &a4()).unwrap();
        assert_eq!(builder.expected_pages(), 3);
    }
    assert_eq!(builder.page_count(), 3);
    let doc = builder.finish();
    assert_eq!(doc.max_id, 11);
    let pages = doc.get_dictionary((1, 0)).unwrap();
    assert_eq!(pages.get(b"Count").unwrap().as_i64().unwrap(), 3);
    assert_eq!(pages.get(b"Kids").unwrap().as_array().unwrap().len(), 3);
}

#[test]
fn adding_and_saving_always_succeed() {
    let mut builder = Builder::start(&paths(1)).unwrap();
    // an image without pixels, and numbers that are no sizes
    let empty = DecodedImage::new(0, 7, vec![]).unwrap();
    let nowhere =
        Placement::new(Object::Real(f32::NAN), Object::Real(f32::INFINITY), Object::Real(-1.0), Object::Real(0.0))
            .unwrap();
    let no_box = PageBox::new(Object::Real(0.0), Object::Real(-0.0)).unwrap();
    assert!(builder.add_image_page(empty, nowhere, &no_box).is_ok());
    assert!(serialize(builder.finish()).is_ok());
}

#[test]
fn image_has_three_samples_for_each_pixel() {
    assert!(DecodedImage::new(2, 3, vec![0; 18]).is_some());
    assert!(DecodedImage::new(2, 3, vec![0; 17]).is_none());
    assert!(DecodedImage::new(2, 3, vec![0; 19]).is_none());
    assert!(DecodedImage::new(2, 3, vec![]).is_none());
    assert!(DecodedImage::new(0, 0, vec![]).is_some());
    assert!(DecodedImage::new(0, 0, vec![1]).is_none());
    assert!(DecodedImage::new(u32::MAX, u32::MAX, vec![0; 3]).is_none());
    let made = DecodedImage::new(1, 2, vec![1, 2, 3, 4, 5, 6]).unwrap();
    assert_eq!((made.width, made.height, made.rgb), (1, 2, vec![1, 2, 3, 4, 5, 6]));
}

#[test]
fn page_box_and_placement_take_real_numbers_only() {
    let made = PageBox::new(Object::Real(595.0), Object::Real(842.0)).unwrap();
    assert_eq!(made.width, Object::Real(595.0));
    assert_eq!(made.height, Object::Real(842.0));
    assert!(PageBox::new(Object::Integer(595), Object::Real(842.0)).is_none());
    assert!(PageBox::new(Object::Real(595.0), Object::Null).is_none());
    let r = |x: f32| Object::Real(x);
    let placed = Placement::new(r(1.0), r(2.0), r(3.0), r(4.0)).unwrap();
    assert_eq!((placed.x, placed.y, placed.width, placed.height), (r(1.0), r(2.0), r(3.0), r(4.0)));
    assert!(Placement::new(Object::Integer(1), r(2.0), r(3.0), r(4.0)).is_none());
    assert!(Placement::new(r(1.0), Object::Name(b"x".to_vec()), r(3.0), r(4.0)).is_none());
    assert!(Placement::new(r(1.0), r(2.0), Object::Boolean(true), r(4.0)).is_none());
    assert!(Placement::new(r(1.0), r(2.0), r(3.0), Object::Array(vec![])).is_none());
}

#[test]
fn a4_page_has_its_media_box() {
    let mut builder = Builder::start(&paths(1)).unwrap();
    builder.add_image_page(image(2, 2, 0), placement(0.0, 123.5, 595.0, 595.0), &a4()).unwrap();
    let bytes = serialize(builder.finish()).unwrap();
    let parsed = lopdf::Document::load_mem(&bytes).unwrap();
    let pages = parsed.get_pages();
    assert_eq!(pages.len(), 1);
    let page = parsed.get_dictionary(pages[&1]).unwrap();
    let media_box: Vec<f32> =
        page.get(b"MediaBox").unwrap().as_array().unwrap().iter().map(|n| n.as_float().unwrap()).collect();
    assert_eq!(media_box, vec![0.0, 0.0, 595.0, 842.0]);
}
