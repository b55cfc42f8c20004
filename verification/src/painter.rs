//! Colors, paint layers and the painting state of a `Ui`: which layer it
//! paints to and which color (if any) its shapes are faded towards.

use crate::id::Id;
use vstd::prelude::*;

verus! {

/// An sRGBA color with premultiplied alpha.
#[derive(Clone, Copy, Debug, PartialEq, Eq, Structural)]
pub struct Color32 {
    pub r: u8,
    pub g: u8,
    pub b: u8,
    pub a: u8,
}

impl Color32 {
    /// The fully transparent color.
    pub open spec fn spec_transparent() -> Color32 {
        Color32 { r: 0, g: 0, b: 0, a: 0 }
    }

    pub fn transparent() -> (c: Color32)
        ensures
            c == Color32::spec_transparent(),
    {
        Color32 { r: 0, g: 0, b: 0, a: 0 }
    }

    pub fn from_rgba_premultiplied(r: u8, g: u8, b: u8, a: u8) -> (c: Color32)
        ensures
            c == (Color32 { r, g, b, a }),
    {
        Color32 { r, g, b, a }
    }

    pub fn to_array(&self) -> (arr: [u8; 4])
        ensures
            arr@ == seq![self.r, self.g, self.b, self.a],
    {
        [self.r, self.g, self.b, self.a]
    }

    pub fn is_transparent(&self) -> (t: bool)
        ensures
            t == (*self == Color32::spec_transparent()),
    {
        self.r == 0 && self.g == 0 && self.b == 0 && self.a == 0
    }
}

/// The paint order of a layer, from back to front.
#[derive(Clone, Copy, Debug, PartialEq, Eq, Structural)]
pub enum Order {
    Background,
    PanelResizeLine,
    Middle,
    Foreground,
    Tooltip,
    Debug,
}

/// A paint layer: an order and an identity within it.
#[derive(Clone, Copy, Debug, PartialEq, Eq)]
pub struct LayerId {
    pub order: Order,
    pub id: Id,
}

impl LayerId {
    pub fn new(order: Order, id: Id) -> (l: LayerId)
        ensures
            l == (LayerId { order, id }),
    {
        LayerId { order, id }
    }
}

/// Where a `Ui` paints: its layer, and the color that its shapes are
/// faded towards (a transparent fade color makes them invisible).
#[derive(Clone, Copy, Debug, PartialEq, Eq)]
pub struct Painter {
    pub layer_id: LayerId,
    pub fade_to_color: Option<Color32>,
}

impl Painter {
    /// Shapes are painted unless they are faded to full transparency.
    pub open spec fn spec_is_visible(self) -> bool {
        self.fade_to_color != Some(Color32::spec_transparent())
    }

    /// A painter for `layer_id` that fades nothing.
    pub fn new(layer_id: LayerId) -> (p: Painter)
        ensures
            p == (Painter { layer_id, fade_to_color: None }),
    {
        Painter { layer_id, fade_to_color: None }
    }

    pub fn layer_id(&self) -> (l: LayerId)
        ensures
            l == self.layer_id,
    {
        self.layer_id
    }

    /// Redirect what is painted to another layer.
    pub fn set_layer_id(&mut self, layer_id: LayerId)
        ensures
            *final(self) == (Painter { layer_id, ..*old(self) }),
    {
        self.layer_id = layer_id;
    }

    pub fn is_visible(&self) -> (v: bool)
        ensures
            v == self.spec_is_visible(),
    {
        match self.fade_to_color {
            Some(c) => !c.is_transparent(),
            None => true,
        }
    }

    /// Fade all further shapes to full transparency.
    pub fn set_invisible(&mut self)
        ensures
            *final(self) == (Painter {
                fade_to_color: Some(Color32::spec_transparent()),
                ..*old(self)
            }),
            !final(self).spec_is_visible(),
    {
        self.fade_to_color = Some(Color32::transparent());
    }

    pub fn set_fade_to_color(&mut self, fade_to_color: Option<Color32>)
        ensures
            *final(self) == (Painter { fade_to_color, ..*old(self) }),
    {
        self.fade_to_color = fade_to_color;
    }

    pub fn fade_to_color(&self) -> (c: Option<Color32>)
        ensures
            c == self.fade_to_color,
    {
        self.fade_to_color
    }
}

} // verus!
