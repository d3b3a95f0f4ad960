//! Text layout settings and the contents of a text.

use vstd::prelude::*;

verus! {

/// Describes text alignment along a single axis.
#[derive(Debug, Clone, Copy, PartialEq, Eq, Structural, PartialOrd, Ord, Hash)]
pub enum TextAlign {
    /// Text is aligned to the beginning of the axis (left, top).
    Begin,
    /// Text is aligned to the center of the axis.
    Middle,
    /// Text is aligned to the end of the axis (right, bottom).
    End,
}

/// Describes text alignment along both axes.
#[derive(Debug, Clone, Copy, PartialEq, Eq, Structural, PartialOrd, Ord, Hash)]
pub enum TextLayout {
    /// Text is laid out in a single line.
    SingleLine {
        /// Horizontal alignment.
        h_align: TextAlign,
        /// Vertical alignment.
        v_align: TextAlign,
    },
    /// Text wraps around the bounds.
    Wrap {
        /// Horizontal alignment.
        h_align: TextAlign,
        /// Vertical alignment.
        v_align: TextAlign,
    },
}

/// The horizontal alignment of a layout, whether it wraps or not.
pub open spec fn layout_h_align(l: TextLayout) -> TextAlign {
    match l {
        TextLayout::SingleLine { h_align, .. } => h_align,
        TextLayout::Wrap { h_align, .. } => h_align,
    }
}

/// The alignments of a layout are the ones it was made with, along their
/// own axes, whether it wraps or not: the horizontal one does not depend on
/// the vertical one, nor the vertical one on the horizontal one.
pub proof fn lemma_alignments_are_kept(h: TextAlign, v: TextAlign)
    ensures
        layout_h_align(TextLayout::SingleLine { h_align: h, v_align: v }) == h,
        layout_h_align(TextLayout::Wrap { h_align: h, v_align: v }) == h,
        layout_v_align(TextLayout::SingleLine { h_align: h, v_align: v }) == v,
        layout_v_align(TextLayout::Wrap { h_align: h, v_align: v }) == v,
{
}

/// The vertical alignment of a layout, whether it wraps or not.
pub open spec fn layout_v_align(l: TextLayout) -> TextAlign {
    match l {
        TextLayout::SingleLine { v_align, .. } => v_align,
        TextLayout::Wrap { v_align, .. } => v_align,
    }
}

impl TextLayout {
    /// Text on a single line aligned to the top-left.
    pub fn tl_single_line() -> (l: Self)
        ensures
            l == (TextLayout::SingleLine { h_align: TextAlign::Begin, v_align: TextAlign::Begin }),
    {
        TextLayout::SingleLine { h_align: TextAlign::Begin, v_align: TextAlign::Begin }
    }

    /// Text wrapped and aligned to the top-left.
    pub fn tl_wrap() -> (l: Self)
        ensures
            l == (TextLayout::Wrap { h_align: TextAlign::Begin, v_align: TextAlign::Begin }),
    {
        TextLayout::Wrap { h_align: TextAlign::Begin, v_align: TextAlign::Begin }
    }

    /// Returns the horizontal alignment, regardless of wrapping behaviour.
    pub fn h_align(&self) -> (a: TextAlign)
        ensures
            a == layout_h_align(*self),
            self matches TextLayout::SingleLine { h_align, .. } ==> a == h_align,
            self matches TextLayout::Wrap { h_align, .. } ==> a == h_align,
    {
        match self {
            TextLayout::SingleLine { h_align, .. } => *h_align,
            TextLayout::Wrap { h_align, .. } => *h_align,
        }
    }

    /// Returns the vertical alignment, regardless of wrapping behaviour.
    pub fn v_align(&self) -> (a: TextAlign)
        ensures
            a == layout_v_align(*self),
            self matches TextLayout::SingleLine { v_align, .. } ==> a == v_align,
            self matches TextLayout::Wrap { v_align, .. } ==> a == v_align,
    {
        match self {
            TextLayout::SingleLine { v_align, .. } => *v_align,
            TextLayout::Wrap { v_align, .. } => *v_align,
        }
    }
}

/// The texts of the fragments, one after the other.
pub open spec fn concatenation(parts: Seq<Seq<char>>) -> Seq<char>
    decreases parts.len(),
{
    if parts.len() == 0 {
        Seq::<char>::empty()
    } else {
        concatenation(parts.drop_last()) + parts.last()
    }
}

/// The string a text represents: the texts of its fragments, in order.
pub fn contents(fragments: &[String]) -> (s: String)
    ensures
        s@ == concatenation(fragments@.map_values(|f: String| f@)),
{
    let mut s = String::new();
    let mut i: usize = 0;
    let ghost parts = fragments@.map_values(|f: String| f@);
    while i < fragments.len()
        invariant
            i <= fragments@.len(),
            parts == fragments@.map_values(|f: String| f@),
            s@ == concatenation(parts.take(i as int)),
        decreases fragments@.len() - i,
    {
        s.append(fragments[i].as_str());
        assert(parts.take(i + 1).drop_last() =~= parts.take(i as int));
        i = i + 1;
    }
    assert(parts.take(fragments@.len() as int) =~= parts);
    s
}

} // verus!
