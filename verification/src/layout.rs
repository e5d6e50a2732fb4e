//! A flowing layout of interface elements.

use crate::element::Element;
use vstd::prelude::*;

verus! {

/// A container that places elements one after another, advancing its
/// running top-left corner by each element's size.
pub struct Layout {
    pub width: u16,
    pub height: u16,
    pub depth: u8,
    pub max_width: u16,
    pub max_height: u16,
    pub min_width: u16,
    pub min_height: u16,
    pub elements: Vec<Element>,
    pub pos_tl: (i16, i16),
    pub pos_tr: (i16, i16),
    pub pos_br: (i16, i16),
    pub pos_bl: (i16, i16),
}

impl Layout {
    /// An empty layout of a given size and depth; its size bounds start
    /// at that size and its running corners at the origin.
    pub fn new(width: u16, height: u16, depth: u8) -> (l: Layout)
        ensures
            l.width == width,
            l.height == height,
            l.depth == depth,
            l.max_width == width,
            l.max_height == height,
            l.min_width == width,
            l.min_height == height,
            l.elements@ == Seq::<Element>::empty(),
            l.pos_tl == (0i16, 0i16),
            l.pos_tr == (0i16, 0i16),
            l.pos_br == (0i16, 0i16),
            l.pos_bl == (0i16, 0i16),
    {
        Layout {
            width,
            height,
            depth,
            max_width: width,
            max_height: height,
            min_width: width,
            min_height: height,
            elements: Vec::new(),
            pos_tl: (0, 0),
            pos_tr: (0, 0),
            pos_br: (0, 0),
            pos_bl: (0, 0),
        }
    }

    /// Appends an element of the given size at the running corner and
    /// advances the corner diagonally by that size.
    pub fn add_element(&mut self, width: u16, height: u16)
        requires
            width <= i16::MAX,
            height <= i16::MAX,
            old(self).pos_tl.0 + width <= i16::MAX,
            old(self).pos_tl.1 + height <= i16::MAX,
        ensures
            final(self).elements@ == old(self).elements@.push(
                Element {
                    x: old(self).pos_tl.0,
                    y: old(self).pos_tl.1,
                    width,
                    height,
                    bg_color: [0u8, 0u8, 0u8, 100u8],
                },
            ),
            final(self).pos_tl.0 == old(self).pos_tl.0 + width,
            final(self).pos_tl.1 == old(self).pos_tl.1 + height,
            final(self).width == old(self).width,
            final(self).height == old(self).height,
            final(self).depth == old(self).depth,
            final(self).max_width == old(self).max_width,
            final(self).max_height == old(self).max_height,
            final(self).min_width == old(self).min_width,
            final(self).min_height == old(self).min_height,
            final(self).pos_tr == old(self).pos_tr,
            final(self).pos_br == old(self).pos_br,
            final(self).pos_bl == old(self).pos_bl,
    {
        let element = Element::new(self.pos_tl.0, self.pos_tl.1, width, height, [0, 0, 0, 100]);
        self.elements.push(element);
        self.pos_tl.0 = self.pos_tl.0 + width as i16;
        self.pos_tl.1 = self.pos_tl.1 + height as i16;
    }
}

} // verus!
