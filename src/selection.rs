//! The shape and dimension predicates that decide whether an image is selected.
use vstd::prelude::*;

verus! {

/// The shape test: the first requested shape, in the order square, vertical,
/// landscape, decides; when none is requested nothing is selected.
pub open spec fn shape_matches(square: bool, vertical: bool, landscape: bool, width: u32, height: u32) -> bool {
    if square {
        width == height
    } else if vertical {
        width < height
    } else if landscape {
        width > height
    } else {
        false
    }
}

/// A lower bound is inclusive; an absent bound puts no constraint.
pub open spec fn at_least(bound: Option<u32>, value: u32) -> bool {
    match bound {
        Some(b) => value >= b,
        None => true,
    }
}

/// An upper bound is exclusive; an absent bound puts no constraint.
pub open spec fn below(bound: Option<u32>, value: u32) -> bool {
    match bound {
        Some(b) => value < b,
        None => true,
    }
}

/// The dimension test: every bound that is set holds.
pub open spec fn dimension_matches(
    min_width: Option<u32>,
    min_height: Option<u32>,
    max_width: Option<u32>,
    max_height: Option<u32>,
    width: u32,
    height: u32,
) -> bool {
    &&& at_least(min_width, width)
    &&& at_least(min_height, height)
    &&& below(max_width, width)
    &&& below(max_height, height)
}

/// Whether an image of `width` x `height` pixels has the requested shape.
/// Vertical and landscape exclude each other, and an image has no zero side.
pub fn check_shape(square: bool, vertical: bool, landscape: bool, width: u32, height: u32) -> (r: bool)
    requires
        !(vertical && landscape),
        width > 0,
        height > 0,
    ensures
        r == shape_matches(square, vertical, landscape, width, height),
{
    let is_square = width == height;
    let is_vertical = width < height;
    let is_landscape = width > height;
    if square {
        return is_square;
    }
    if vertical {
        return is_vertical;
    }
    if landscape {
        return is_landscape;
    }
    false
}

/// Whether an image of `width` x `height` pixels lies within the bounds that
/// are set: minimums inclusive, maximums exclusive.
pub fn check_dimension(
    min_width: Option<u32>,
    min_height: Option<u32>,
    max_width: Option<u32>,
    max_height: Option<u32>,
    width: u32,
    height: u32,
) -> (r: bool)
    ensures
        r == dimension_matches(min_width, min_height, max_width, max_height, width, height),
{
    if let Some(min_width) = min_width {
        if width < min_width {
            return false;
        }
    }
    if let Some(min_height) = min_height {
        if height < min_height {
            return false;
        }
    }
    if let Some(max_width) = max_width {
        if width >= max_width {
            return false;
        }
    }
    if let Some(max_height) = max_height {
        if height >= max_height {
            return false;
        }
    }
    true
}

/// What the selection asks of an image: a shape, and optional bounds on each
/// side (minimums inclusive, maximums exclusive).
pub struct Criteria {
    pub square: bool,
    pub vertical: bool,
    pub landscape: bool,
    pub min_width: Option<u32>,
    pub min_height: Option<u32>,
    pub max_width: Option<u32>,
    pub max_height: Option<u32>,
}

/// Why a set of criteria cannot be built.
#[derive(Debug, PartialEq, Eq, Structural)]
pub enum CriteriaError {
    /// Vertical and landscape were both requested.
    VerticalAndLandscape,
}

/// How one file fared against the criteria.
#[derive(Debug, PartialEq, Eq, Structural)]
pub enum Verdict {
    /// The file could not be decoded as an image.
    Unidentified,
    /// The image decoded with a side of zero pixels, which no shape describes.
    Degenerate,
    /// The image has the given width and height and fails the criteria.
    Rejected(u32, u32),
    /// The image has the given width and height and meets the criteria.
    Selected(u32, u32),
}

impl Criteria {
    /// Vertical and landscape exclude each other.
    pub open spec fn wf(&self) -> bool {
        !(self.vertical && self.landscape)
    }

    pub open spec fn selects_spec(&self, width: u32, height: u32) -> bool {
        &&& shape_matches(self.square, self.vertical, self.landscape, width, height)
        &&& dimension_matches(self.min_width, self.min_height, self.max_width, self.max_height, width, height)
    }

    pub open spec fn verdict_spec(&self, dimensions: Option<(u32, u32)>) -> Verdict {
        match dimensions {
            None => Verdict::Unidentified,
            Some((w, h)) => if w == 0 || h == 0 {
                Verdict::Degenerate
            } else if self.selects_spec(w, h) {
                Verdict::Selected(w, h)
            } else {
                Verdict::Rejected(w, h)
            },
        }
    }

    /// Builds the criteria, refusing vertical together with landscape.
    pub fn new(
        square: bool,
        vertical: bool,
        landscape: bool,
        min_width: Option<u32>,
        min_height: Option<u32>,
        max_width: Option<u32>,
        max_height: Option<u32>,
    ) -> (r: Result<Criteria, CriteriaError>)
        ensures
            r is Err <==> vertical && landscape,
            r is Err ==> r == Err::<Criteria, CriteriaError>(CriteriaError::VerticalAndLandscape),
            r matches Ok(c) ==> c.wf() && c.square == square && c.vertical == vertical
                && c.landscape == landscape && c.min_width == min_width
                && c.min_height == min_height && c.max_width == max_width
                && c.max_height == max_height,
    {
        if vertical && landscape {
            return Err(CriteriaError::VerticalAndLandscape);
        }
        Ok(Criteria { square, vertical, landscape, min_width, min_height, max_width, max_height })
    }

    /// Whether an image of `width` x `height` pixels meets both the shape and
    /// the dimension criteria.
    pub fn selects(&self, width: u32, height: u32) -> (r: bool)
        requires
            self.wf(),
            width > 0,
            height > 0,
        ensures
            r == self.selects_spec(width, height),
    {
        check_shape(self.square, self.vertical, self.landscape, width, height)
            && check_dimension(
            self.min_width,
            self.min_height,
            self.max_width,
            self.max_height,
            width,
            height,
        )
    }

    /// Judges a file from the dimensions its decoding gave, `None` where it
    /// did not decode as an image.
    pub fn classify(&self, dimensions: Option<(u32, u32)>) -> (r: Verdict)
        requires
            self.wf(),
        ensures
            r == self.verdict_spec(dimensions),
    {
        match dimensions {
            None => Verdict::Unidentified,
            Some((w, h)) => {
                if w == 0 || h == 0 {
                    Verdict::Degenerate
                } else if self.selects(w, h) {
                    Verdict::Selected(w, h)
                } else {
                    Verdict::Rejected(w, h)
                }
            },
        }
    }
}

/// A square image is selected whenever square is requested, and is never
/// selected by vertical or landscape alone.
pub proof fn lemma_square_image(side: u32, vertical: bool, landscape: bool)
    requires
        side > 0,
        !(vertical && landscape),
    ensures
        shape_matches(true, vertical, landscape, side, side),
        !shape_matches(false, true, false, side, side),
        !shape_matches(false, false, true, side, side),
{
}

/// An image narrower than it is tall is selected by vertical alone and not by
/// landscape alone.
pub proof fn lemma_vertical_image(width: u32, height: u32)
    requires
        width < height,
    ensures
        shape_matches(false, true, false, width, height),
        !shape_matches(false, false, true, width, height),
{
}

/// An image wider than it is tall is selected by landscape alone and not by
/// vertical alone.
pub proof fn lemma_landscape_image(width: u32, height: u32)
    requires
        width > height,
    ensures
        shape_matches(false, false, true, width, height),
        !shape_matches(false, true, false, width, height),
{
}

} // verus!
