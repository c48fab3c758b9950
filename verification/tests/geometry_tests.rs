use img2pdf::{custom_dimensions, AppError, Orientation, PageSize};

#[test]
fn test_get_page_dimensions_a4_portrait() {
    let (w, h) = PageSize::A4.page_points(&Orientation::Portrait).unwrap();
    assert_eq!(w as f32, 595.0);
    assert_eq!(h as f32, 842.0);
}

#[test]
fn test_get_page_dimensions_a4_landscape() {
    let (w, h) = PageSize::A4.page_points(&Orientation::Landscape).unwrap();
    assert_eq!(w as f32, 842.0);
    assert_eq!(h as f32, 595.0);
}

#[test]
fn standard_sizes_match_the_table() {
    assert_eq!(PageSize::A4.standard_points(), Some((595, 842)));
    assert_eq!(PageSize::A3.standard_points(), Some((842, 1191)));
    assert_eq!(PageSize::A5.standard_points(), Some((420, 595)));
    assert_eq!(PageSize::Letter.standard_points(), Some((612, 792)));
    assert_eq!(PageSize::Legal.standard_points(), Some((612, 1008)));
    assert_eq!(PageSize::Custom.standard_points(), None);
}

#[test]
fn landscape_exchanges_width_and_height() {
    for size in [PageSize::A4, PageSize::A3, PageSize::A5, PageSize::Letter, PageSize::Legal] {
        let (w, h) = size.page_points(&Orientation::Portrait).unwrap();
        assert_eq!(size.standard_points(), Some((w, h)));
        assert_eq!(size.page_points(&Orientation::Landscape), Some((h, w)));
    }
    assert_eq!(PageSize::Custom.page_points(&Orientation::Landscape), None);
}

#[test]
fn orientation_arranges_any_values() {
    assert_eq!(Orientation::Portrait.arrange(283.465f32, 566.93f32), (283.465, 566.93));
    assert_eq!(Orientation::Landscape.arrange(283.465f32, 566.93f32), (566.93, 283.465));
    assert_eq!(Orientation::Landscape.arrange("w", "h"), ("h", "w"));
}

#[test]
fn custom_size_needs_both_dimensions() {
    assert!(matches!(custom_dimensions(Some(100.0f32), Some(200.0f32)), Ok((w, h)) if w == 100.0 && h == 200.0));
    assert!(matches!(custom_dimensions(None::<f32>, Some(200.0)), Err(AppError::InvalidDimensions)));
    assert!(matches!(custom_dimensions(Some(100.0f32), None), Err(AppError::InvalidDimensions)));
    assert!(matches!(custom_dimensions(None::<f32>, None), Err(AppError::InvalidDimensions)));
}
