//! Page sizes and orientation: the portrait boxes of the standard sizes in
//! whole points, and how an orientation lays out a width and a height.

use crate::error::{AppError, ErrorView};
use vstd::prelude::*;

verus! {

/// The size of the pages.
#[derive(Debug, Clone, Copy, PartialEq, Eq, Structural)]
pub enum PageSize {
    A4,
    A3,
    A5,
    Letter,
    Legal,
    /// A size given by the caller in millimetres.
    Custom,
}

/// Which way the pages are turned.
#[derive(Debug, Clone, Copy, PartialEq, Eq, Structural)]
pub enum Orientation {
    Portrait,
    Landscape,
}

/// How an image is scaled to its page.
#[derive(Debug, Clone, Copy, PartialEq, Eq, Structural)]
pub enum FitMode {
    /// The whole image is visible; the page may show margins.
    Fit,
    /// The page is covered; the image may run over its edges.
    Fill,
    /// The image keeps its own size.
    Original,
}

/// The portrait box of a standard size, width then height, in points of 1/72
/// inch. `Custom` has none.
pub open spec fn standard_box(size: PageSize) -> Option<(u32, u32)> {
    match size {
        PageSize::A4 => Some((595u32, 842u32)),
        PageSize::A3 => Some((842u32, 1191u32)),
        PageSize::A5 => Some((420u32, 595u32)),
        PageSize::Letter => Some((612u32, 792u32)),
        PageSize::Legal => Some((612u32, 1008u32)),
        PageSize::Custom => None,
    }
}

/// A width and a height as an orientation lays them out: as they are in
/// portrait, exchanged in landscape.
pub open spec fn arranged<T>(orientation: Orientation, width: T, height: T) -> (T, T) {
    match orientation {
        Orientation::Portrait => (width, height),
        Orientation::Landscape => (height, width),
    }
}

/// The box of a standard size in the given orientation.
pub open spec fn oriented_box(size: PageSize, orientation: Orientation) -> Option<(u32, u32)> {
    match standard_box(size) {
        Some((width, height)) => Some(arranged(orientation, width, height)),
        None => None,
    }
}

/// The two custom dimensions, where both are given.
pub open spec fn both<T>(width: Option<T>, height: Option<T>) -> Option<(T, T)> {
    match (width, height) {
        (Some(w), Some(h)) => Some((w, h)),
        _ => None,
    }
}

impl PageSize {
    /// The portrait box of a standard size in points; `None` for `Custom`.
    pub fn standard_points(&self) -> (points: Option<(u32, u32)>)
        ensures
            points == standard_box(*self),
    {
        match self {
            PageSize::A4 => Some((595, 842)),
            PageSize::A3 => Some((842, 1191)),
            PageSize::A5 => Some((420, 595)),
            PageSize::Letter => Some((612, 792)),
            PageSize::Legal => Some((612, 1008)),
            PageSize::Custom => None,
        }
    }

    /// The box of a standard size in the given orientation, in points; `None`
    /// for `Custom`.
    pub fn page_points(&self, orientation: &Orientation) -> (points: Option<(u32, u32)>)
        ensures
            points == oriented_box(*self, *orientation),
    {
        match self.standard_points() {
            Some((width, height)) => Some(orientation.arrange(width, height)),
            None => None,
        }
    }
}

impl Orientation {
    /// Lays out a width and a height: as they are in portrait, exchanged in
    /// landscape.
    pub fn arrange<T>(&self, width: T, height: T) -> (laid: (T, T))
        ensures
            laid == arranged(*self, width, height),
    {
        match self {
            Orientation::Portrait => (width, height),
            Orientation::Landscape => (height, width),
        }
    }
}

/// The two dimensions of a custom size, which must both be given.
pub fn custom_dimensions<T>(width: Option<T>, height: Option<T>) -> (given: Result<
    (T, T),
    AppError,
>)
    ensures
        match given {
            Ok(pair) => both(width, height) == Some(pair),
            Err(e) => both(width, height) is None && e@ == ErrorView::InvalidDimensions,
        },
{
    match width {
        Some(w) => match height {
            Some(h) => Ok((w, h)),
            None => Err(AppError::InvalidDimensions),
        },
        None => Err(AppError::InvalidDimensions),
    }
}

/// Every standard size has a box in either orientation; in portrait it is the
/// box of the table, and in landscape the same box with width and height
/// exchanged.
pub proof fn lemma_landscape_exchanges(size: PageSize)
    requires
        size != PageSize::Custom,
    ensures
        oriented_box(size, Orientation::Portrait) == standard_box(size),
        oriented_box(size, Orientation::Portrait) matches Some(upright) && oriented_box(
            size,
            Orientation::Landscape,
        ) == Some((upright.1, upright.0)),
{
}

/// Landscape exchanges what portrait keeps, whatever the two values are.
pub proof fn lemma_arranged_exchange<T>(width: T, height: T)
    ensures
        arranged(Orientation::Landscape, width, height) == (
            arranged(Orientation::Portrait, width, height).1,
            arranged(Orientation::Portrait, width, height).0,
        ),
{
}

} // verus!
