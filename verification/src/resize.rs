//! The resize policy: which dimensions an image is scaled to.

use vstd::prelude::*;

verus! {

/// How the target dimension of a conversion is applied to an image.
#[derive(Clone, Copy, Debug, PartialEq, Eq, Structural)]
pub enum Resize {
    /// The image keeps its dimensions.
    NoResizing,
    /// The longer side becomes the target dimension.
    LongerSide,
    /// The shorter side becomes the target dimension.
    ShorterSide,
}

/// Whether an image of `width` by `height` is left as it is: the mode asks for
/// no resizing, or enlarging is not allowed and both sides are below the target.
pub open spec fn keeps_size(resize: Resize, resize_to: int, width: int, height: int, enlarge: bool) -> bool {
    resize == Resize::NoResizing || (!enlarge && width < resize_to && height < resize_to)
}

/// The side that is not pinned to the target, scaled by the original aspect
/// ratio and truncated.
pub open spec fn scaled_side(other: int, resize_to: int, selected: int) -> int {
    (other * resize_to) / selected
}

/// The dimensions the policy assigns to an image of `width` by `height`.
/// A square counts as "width is not longer".
pub open spec fn target_size(resize: Resize, resize_to: int, width: int, height: int, enlarge: bool) -> (int, int) {
    if keeps_size(resize, resize_to, width, height, enlarge) {
        (width, height)
    } else {
        match resize {
            Resize::NoResizing => (width, height),
            Resize::LongerSide => if width > height {
                (resize_to, scaled_side(height, resize_to, width))
            } else {
                (scaled_side(width, resize_to, height), resize_to)
            },
            Resize::ShorterSide => if width > height {
                (scaled_side(width, resize_to, height), resize_to)
            } else {
                (resize_to, scaled_side(height, resize_to, width))
            },
        }
    }
}

/// The inputs on which both target dimensions are positive.
pub open spec fn stays_positive(resize: Resize, resize_to: int, width: int, height: int, enlarge: bool) -> bool {
    keeps_size(resize, resize_to, width, height, enlarge) || match resize {
        Resize::NoResizing => true,
        Resize::LongerSide => resize_to > 0 && if width > height {
            height * resize_to >= width
        } else {
            width * resize_to >= height
        },
        Resize::ShorterSide => resize_to > 0,
    }
}

proof fn lemma_scaled_side_bounds(other: int, resize_to: int, selected: int)
    requires
        0 <= other,
        0 <= resize_to,
        0 < selected,
    ensures
        0 <= scaled_side(other, resize_to, selected) <= other * resize_to,
        other <= selected ==> scaled_side(other, resize_to, selected) <= resize_to,
        other >= selected ==> scaled_side(other, resize_to, selected) >= resize_to,
        scaled_side(other, resize_to, selected) > 0 <==> other * resize_to >= selected,
        other == selected ==> scaled_side(other, resize_to, selected) == resize_to,
{
    let product = other * resize_to;
    assert(0 <= product) by (nonlinear_arith)
        requires
            0 <= other,
            0 <= resize_to,
            product == other * resize_to,
    ;
    assert(0 <= product / selected <= product && (product / selected > 0 <==> product >= selected))
        by (nonlinear_arith)
        requires
            0 <= product,
            0 < selected,
    ;
    if other <= selected {
        assert(product / selected <= resize_to) by (nonlinear_arith)
            requires
                0 <= other <= selected,
                0 <= resize_to,
                0 < selected,
                product == other * resize_to,
        ;
    }
    if other >= selected {
        assert(product / selected >= resize_to) by (nonlinear_arith)
            requires
                other >= selected,
                0 <= resize_to,
                0 < selected,
                product == other * resize_to,
        ;
    }
}

impl Resize {
    /// Whether an image of `width` by `height` has to be resampled.
    pub fn applies(self, resize_to: u32, width: u32, height: u32, is_enlarging_allowed: bool) -> (scaling: bool)
        ensures
            scaling == !keeps_size(self, resize_to as int, width as int, height as int, is_enlarging_allowed),
    {
        match self {
            Resize::NoResizing => false,
            _ => is_enlarging_allowed || width >= resize_to || height >= resize_to,
        }
    }

    /// Computes the dimensions an image of `width` by `height` is converted at.
    ///
    /// The result is wide enough for every input: the scaled side of a very
    /// elongated image can exceed what a `u32` holds. Both dimensions are
    /// positive exactly on the inputs that `stays_positive` admits.
    pub fn compute(self, resize_to: u32, width: u32, height: u32, is_enlarging_allowed: bool) -> (dims: (u64, u64))
        requires
            width > 0,
            height > 0,
        ensures
            dims.0 == target_size(self, resize_to as int, width as int, height as int, is_enlarging_allowed).0,
            dims.1 == target_size(self, resize_to as int, width as int, height as int, is_enlarging_allowed).1,
            dims.0 > 0 && dims.1 > 0 <==> stays_positive(
                self,
                resize_to as int,
                width as int,
                height as int,
                is_enlarging_allowed,
            ),
    {
        proof {
            if stays_positive(self, resize_to as int, width as int, height as int, is_enlarging_allowed) {
                lemma_positive_dimensions(self, resize_to as int, width as int, height as int, is_enlarging_allowed);
            } else {
                lemma_vanishing_dimension(self, resize_to as int, width as int, height as int, is_enlarging_allowed);
            }
        }
        if !self.applies(resize_to, width, height, is_enlarging_allowed) {
            return (width as u64, height as u64);
        }
        let target: u64 = resize_to as u64;
        let is_width_longer = width > height;
        match self {
            Resize::NoResizing => (width as u64, height as u64),
            Resize::LongerSide => if is_width_longer {
                (target, scale(height, resize_to, width))
            } else {
                (scale(width, resize_to, height), target)
            },
            Resize::ShorterSide => if is_width_longer {
                (scale(width, resize_to, height), target)
            } else {
                (target, scale(height, resize_to, width))
            },
        }
    }
}

/// `other * resize_to / selected`, truncated, without overflow.
fn scale(other: u32, resize_to: u32, selected: u32) -> (side: u64)
    requires
        selected > 0,
    ensures
        side == scaled_side(other as int, resize_to as int, selected as int),
{
    assert(other * resize_to <= 0xffff_ffff * 0xffff_ffff) by (nonlinear_arith)
        requires
            0 <= other <= 0xffff_ffff,
            0 <= resize_to <= 0xffff_ffff,
    ;
    (other as u64) * (resize_to as u64) / (selected as u64)
}

/// Without resizing the dimensions stay as they are.
pub proof fn lemma_no_resizing_is_identity(resize_to: int, width: int, height: int, enlarge: bool)
    ensures
        target_size(Resize::NoResizing, resize_to, width, height, enlarge) == (width, height),
{
}

/// Both target dimensions of an image with positive sides are positive on
/// the inputs that `stays_positive` admits.
pub proof fn lemma_positive_dimensions(resize: Resize, resize_to: int, width: int, height: int, enlarge: bool)
    requires
        width > 0,
        height > 0,
        resize_to >= 0,
        stays_positive(resize, resize_to, width, height, enlarge),
    ensures
        target_size(resize, resize_to, width, height, enlarge).0 > 0,
        target_size(resize, resize_to, width, height, enlarge).1 > 0,
{
    lemma_scaled_side_bounds(width, resize_to, height);
    lemma_scaled_side_bounds(height, resize_to, width);
}

/// On every other input one of the target dimensions is zero: a target of
/// zero, or a longer side so much longer that the scaled side truncates to
/// nothing.
pub proof fn lemma_vanishing_dimension(resize: Resize, resize_to: int, width: int, height: int, enlarge: bool)
    requires
        width > 0,
        height > 0,
        resize_to >= 0,
        !stays_positive(resize, resize_to, width, height, enlarge),
    ensures
        target_size(resize, resize_to, width, height, enlarge).0 == 0
            || target_size(resize, resize_to, width, height, enlarge).1 == 0,
{
    lemma_scaled_side_bounds(width, resize_to, height);
    lemma_scaled_side_bounds(height, resize_to, width);
}

/// A square that may be enlarged becomes a square of the target dimension,
/// whichever side the mode selects.
pub proof fn lemma_square_becomes_target(resize_to: int, side: int)
    requires
        side > 0,
        resize_to >= 0,
    ensures
        target_size(Resize::LongerSide, resize_to, side, side, true) == (resize_to, resize_to),
        target_size(Resize::ShorterSide, resize_to, side, side, true) == (resize_to, resize_to),
{
    lemma_scaled_side_bounds(side, resize_to, side);
}

/// An image smaller than the target that may not be enlarged keeps its
/// dimensions.
pub proof fn lemma_no_enlargement_keeps_size(resize: Resize, resize_to: int, width: int, height: int)
    requires
        width < resize_to,
        height < resize_to,
    ensures
        target_size(resize, resize_to, width, height, false) == (width, height),
{
}

/// The side the mode selects lands on the target exactly, and the scaled
/// side never ends up on the other side of it.
pub proof fn lemma_selected_side_is_target(resize: Resize, resize_to: int, width: int, height: int, enlarge: bool)
    requires
        width > 0,
        height > 0,
        resize_to >= 0,
        !keeps_size(resize, resize_to, width, height, enlarge),
    ensures
        resize == Resize::LongerSide ==> {
            let (w, h) = target_size(resize, resize_to, width, height, enlarge);
            &&& w <= resize_to
            &&& h <= resize_to
            &&& (w == resize_to || h == resize_to)
        },
        resize == Resize::ShorterSide ==> {
            let (w, h) = target_size(resize, resize_to, width, height, enlarge);
            &&& w >= resize_to
            &&& h >= resize_to
            &&& (w == resize_to || h == resize_to)
        },
{
    lemma_scaled_side_bounds(width, resize_to, height);
    lemma_scaled_side_bounds(height, resize_to, width);
}

} // verus!
