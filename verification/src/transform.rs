//! Placement of a source within a scene: position, scale, rotation,
//! alignment and bounds, together with a builder for composing one.

use vstd::prelude::*;

use crate::graphics::Vec2;
use crate::graphics::OBS_ALIGN_CENTER;
use crate::graphics::OBS_ALIGN_LEFT;
use crate::graphics::OBS_ALIGN_TOP;

verus! {

/// How a source is fitted into its bounding box.
#[derive(Clone, Copy, Debug, PartialEq, Eq, Structural)]
pub enum ObsBoundsType {
    /// No bounding box; the source keeps its own size.
    Unbounded,
    /// Stretch to the bounding box, ignoring aspect ratio.
    Stretch,
    /// Scale to the inner rectangle, keeping aspect ratio.
    ScaleInner,
    /// Scale to the outer rectangle, keeping aspect ratio.
    ScaleOuter,
    /// Scale to the bounding box width.
    ScaleToWidth,
    /// Scale to the bounding box height.
    ScaleToHeight,
    /// Only scale down, never up.
    MaxOnly,
}

/// The full placement of a scene item.  Use `ObsTransformInfoBuilder` to
/// compose one.
#[derive(Clone, Copy, Debug, PartialEq, Eq, Structural)]
pub struct ObsTransformInfo {
    pub pos: Vec2,
    pub scale: Vec2,
    pub alignment: u32,
    pub rot: i64,
    pub bounds: Vec2,
    pub bounds_type: ObsBoundsType,
    pub bounds_alignment: u32,
    pub crop_to_bounds: bool,
}

impl ObsTransformInfo {
    /// The position of the item.
    pub fn get_pos(&self) -> (r: Vec2)
        ensures
            r == self.pos,
    {
        self.pos
    }

    /// The scale of the item, in integer units.
    pub fn get_scale(&self) -> (r: Vec2)
        ensures
            r == self.scale,
    {
        self.scale
    }

    /// The alignment flags of the item.
    pub fn get_alignment(&self) -> (r: u32)
        ensures
            r == self.alignment,
    {
        self.alignment
    }

    /// The rotation of the item, in degrees.
    pub fn get_rot(&self) -> (r: i64)
        ensures
            r == self.rot,
    {
        self.rot
    }

    /// The bounding box of the item.
    pub fn get_bounds(&self) -> (r: Vec2)
        ensures
            r == self.bounds,
    {
        self.bounds
    }

    /// How the item is fitted into its bounding box.
    pub fn get_bounds_type(&self) -> (r: ObsBoundsType)
        ensures
            r == self.bounds_type,
    {
        self.bounds_type
    }

    /// The alignment of the item within its bounding box.
    pub fn get_bounds_alignment(&self) -> (r: u32)
        ensures
            r == self.bounds_alignment,
    {
        self.bounds_alignment
    }

    /// Whether the item is cropped to its bounding box.
    pub fn get_crop_to_bounds(&self) -> (r: bool)
        ensures
            r == self.crop_to_bounds,
    {
        self.crop_to_bounds
    }
}

/// The transform every placement starts from: origin position, unit scale,
/// top-left alignment, no rotation, and a bounding box of the given size
/// fitted with `ScaleInner` and centered.
pub open spec fn default_transform(base_width: u32, base_height: u32) -> ObsTransformInfo {
    ObsTransformInfo {
        pos: Vec2 { x: 0, y: 0 },
        scale: Vec2 { x: 1, y: 1 },
        alignment: OBS_ALIGN_LEFT | OBS_ALIGN_TOP,
        rot: 0,
        bounds: Vec2 { x: base_width as i64, y: base_height as i64 },
        bounds_type: ObsBoundsType::ScaleInner,
        bounds_alignment: OBS_ALIGN_CENTER,
        crop_to_bounds: false,
    }
}

/// A builder for `ObsTransformInfo`: every field may be set, and unset
/// fields fall back either to the defaults (`build`) or to the current
/// placement of an item (`build_with_fallback` on the scene).
#[derive(Clone, Copy, Debug, PartialEq, Eq, Structural)]
pub struct ObsTransformInfoBuilder {
    pub pos: Option<Vec2>,
    pub scale: Option<Vec2>,
    pub alignment: Option<u32>,
    pub rot: Option<i64>,
    pub bounds: Option<Vec2>,
    pub bounds_type: Option<ObsBoundsType>,
    pub bounds_alignment: Option<u32>,
    pub crop_to_bounds: Option<bool>,
}

/// What the builder produces when unset fields fall back to the given
/// transform.
pub open spec fn built_over(b: ObsTransformInfoBuilder, fallback: ObsTransformInfo) -> ObsTransformInfo {
    ObsTransformInfo {
        pos: if b.pos is Some { b.pos->0 } else { fallback.pos },
        scale: if b.scale is Some { b.scale->0 } else { fallback.scale },
        alignment: if b.alignment is Some { b.alignment->0 } else { fallback.alignment },
        rot: if b.rot is Some { b.rot->0 } else { fallback.rot },
        bounds: if b.bounds is Some { b.bounds->0 } else { fallback.bounds },
        bounds_type: if b.bounds_type is Some { b.bounds_type->0 } else { fallback.bounds_type },
        bounds_alignment: if b.bounds_alignment is Some {
            b.bounds_alignment->0
        } else {
            fallback.bounds_alignment
        },
        crop_to_bounds: if b.crop_to_bounds is Some { b.crop_to_bounds->0 } else { fallback.crop_to_bounds },
    }
}

impl ObsTransformInfoBuilder {
    /// A builder with nothing set.
    pub fn new() -> (r: ObsTransformInfoBuilder)
        ensures
            r == (ObsTransformInfoBuilder {
                pos: None::<Vec2>,
                scale: None::<Vec2>,
                alignment: None::<u32>,
                rot: None::<i64>,
                bounds: None::<Vec2>,
                bounds_type: None::<ObsBoundsType>,
                bounds_alignment: None::<u32>,
                crop_to_bounds: None::<bool>,
            }),
    {
        ObsTransformInfoBuilder {
            pos: None,
            scale: None,
            alignment: None,
            rot: None,
            bounds: None,
            bounds_type: None,
            bounds_alignment: None,
            crop_to_bounds: None,
        }
    }

    /// Sets the position.
    pub fn set_pos(self, pos: Vec2) -> (r: ObsTransformInfoBuilder)
        ensures
            r == (ObsTransformInfoBuilder { pos: Some(pos), ..self }),
    {
        ObsTransformInfoBuilder { pos: Some(pos), ..self }
    }

    /// Sets the scale, in integer units.
    pub fn set_scale(self, scale: Vec2) -> (r: ObsTransformInfoBuilder)
        ensures
            r == (ObsTransformInfoBuilder { scale: Some(scale), ..self }),
    {
        ObsTransformInfoBuilder { scale: Some(scale), ..self }
    }

    /// Sets the alignment flags, e.g. `OBS_ALIGN_LEFT | OBS_ALIGN_TOP`.
    pub fn set_alignment(self, alignment: u32) -> (r: ObsTransformInfoBuilder)
        ensures
            r == (ObsTransformInfoBuilder { alignment: Some(alignment), ..self }),
    {
        ObsTransformInfoBuilder { alignment: Some(alignment), ..self }
    }

    /// Sets the rotation, in degrees.
    pub fn set_rot(self, rot: i64) -> (r: ObsTransformInfoBuilder)
        ensures
            r == (ObsTransformInfoBuilder { rot: Some(rot), ..self }),
    {
        ObsTransformInfoBuilder { rot: Some(rot), ..self }
    }

    /// Sets the bounding box.
    pub fn set_bounds(self, bounds: Vec2) -> (r: ObsTransformInfoBuilder)
        ensures
            r == (ObsTransformInfoBuilder { bounds: Some(bounds), ..self }),
    {
        ObsTransformInfoBuilder { bounds: Some(bounds), ..self }
    }

    /// Sets how the item is fitted into its bounding box.
    pub fn set_bounds_type(self, bounds_type: ObsBoundsType) -> (r: ObsTransformInfoBuilder)
        ensures
            r == (ObsTransformInfoBuilder { bounds_type: Some(bounds_type), ..self }),
    {
        ObsTransformInfoBuilder { bounds_type: Some(bounds_type), ..self }
    }

    /// Sets the alignment within the bounding box.
    pub fn set_bounds_alignment(self, bounds_alignment: u32) -> (r: ObsTransformInfoBuilder)
        ensures
            r == (ObsTransformInfoBuilder { bounds_alignment: Some(bounds_alignment), ..self }),
    {
        ObsTransformInfoBuilder { bounds_alignment: Some(bounds_alignment), ..self }
    }

    /// Sets whether the item is cropped to its bounding box.
    pub fn set_crop_to_bounds(self, crop_to_bounds: bool) -> (r: ObsTransformInfoBuilder)
        ensures
            r == (ObsTransformInfoBuilder { crop_to_bounds: Some(crop_to_bounds), ..self }),
    {
        ObsTransformInfoBuilder { crop_to_bounds: Some(crop_to_bounds), ..self }
    }

    /// Builds the transform; unset fields fall back to the defaults for the
    /// given base resolution.
    pub fn build(self, base_width: u32, base_height: u32) -> (r: ObsTransformInfo)
        ensures
            r == built_over(self, default_transform(base_width, base_height)),
    {
        self.build_over(ObsTransformInfo {
            pos: Vec2 { x: 0, y: 0 },
            scale: Vec2 { x: 1, y: 1 },
            alignment: OBS_ALIGN_LEFT | OBS_ALIGN_TOP,
            rot: 0,
            bounds: Vec2 { x: base_width as i64, y: base_height as i64 },
            bounds_type: ObsBoundsType::ScaleInner,
            bounds_alignment: OBS_ALIGN_CENTER,
            crop_to_bounds: false,
        })
    }

    /// Builds the transform; unset fields fall back to the given placement.
    pub fn build_over(self, fallback: ObsTransformInfo) -> (r: ObsTransformInfo)
        ensures
            r == built_over(self, fallback),
    {
        ObsTransformInfo {
            pos: match self.pos {
                Some(v) => v,
                None => fallback.pos,
            },
            scale: match self.scale {
                Some(v) => v,
                None => fallback.scale,
            },
            alignment: match self.alignment {
                Some(v) => v,
                None => fallback.alignment,
            },
            rot: match self.rot {
                Some(v) => v,
                None => fallback.rot,
            },
            bounds: match self.bounds {
                Some(v) => v,
                None => fallback.bounds,
            },
            bounds_type: match self.bounds_type {
                Some(v) => v,
                None => fallback.bounds_type,
            },
            bounds_alignment: match self.bounds_alignment {
                Some(v) => v,
                None => fallback.bounds_alignment,
            },
            crop_to_bounds: match self.crop_to_bounds {
                Some(v) => v,
                None => fallback.crop_to_bounds,
            },
        }
    }
}

} // verus!
