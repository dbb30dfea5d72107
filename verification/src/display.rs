//! Parameters for creating a display: the window to draw into, placement,
//! and backbuffer formats, with the graphics-initialization data they
//! produce.

use vstd::prelude::*;

use crate::graphics::GsColorFormat;
use crate::graphics::GsZstencilFormat;

verus! {

/// The raw graphics-initialization data handed to the renderer.
#[derive(Clone, Copy, Debug, PartialEq, Eq, Structural)]
pub struct GsInitData {
    pub cx: u32,
    pub cy: u32,
    pub format: GsColorFormat,
    pub zsformat: GsZstencilFormat,
    pub window: usize,
    pub adapter: u32,
    pub num_backbuffers: u32,
}

/// Everything needed to create a display, with the defaults the engine
/// expects; the setters adjust single fields.
#[derive(Clone, Copy, Debug, PartialEq, Eq, Structural)]
pub struct ObsDisplayCreationData {
    pub window_handle: usize,
    pub create_child: bool,
    pub x: i32,
    pub y: i32,
    pub width: u32,
    pub height: u32,
    pub format: GsColorFormat,
    pub zsformat: GsZstencilFormat,
    pub adapter: u32,
    pub backbuffers: u32,
    pub background_color: u32,
}

impl ObsDisplayCreationData {
    /// Creation data for a display in the given window, at the given
    /// placement, with the defaults: a child window, BGRA color, no
    /// depth/stencil, adapter 0, no extra backbuffers, black background.
    pub fn new(window_handle: usize, x: i32, y: i32, width: u32, height: u32) -> (r:
        ObsDisplayCreationData)
        ensures
            r == (ObsDisplayCreationData {
                window_handle,
                create_child: true,
                x,
                y,
                width,
                height,
                format: GsColorFormat::BGRA,
                zsformat: GsZstencilFormat::ZSNone,
                adapter: 0u32,
                backbuffers: 0u32,
                background_color: 0u32,
            }),
    {
        ObsDisplayCreationData {
            window_handle,
            create_child: true,
            x,
            y,
            width,
            height,
            format: GsColorFormat::BGRA,
            zsformat: GsZstencilFormat::ZSNone,
            adapter: 0,
            backbuffers: 0,
            background_color: 0,
        }
    }

    /// Sets the backbuffer color format.
    pub fn set_format(self, format: GsColorFormat) -> (r: ObsDisplayCreationData)
        ensures
            r == (ObsDisplayCreationData { format, ..self }),
    {
        ObsDisplayCreationData { format, ..self }
    }

    /// Sets the depth/stencil format.
    pub fn set_zsformat(self, zsformat: GsZstencilFormat) -> (r: ObsDisplayCreationData)
        ensures
            r == (ObsDisplayCreationData { zsformat, ..self }),
    {
        ObsDisplayCreationData { zsformat, ..self }
    }

    /// Sets the graphics adapter index.
    pub fn set_adapter(self, adapter: u32) -> (r: ObsDisplayCreationData)
        ensures
            r == (ObsDisplayCreationData { adapter, ..self }),
    {
        ObsDisplayCreationData { adapter, ..self }
    }

    /// Sets the number of backbuffers.
    pub fn set_backbuffers(self, backbuffers: u32) -> (r: ObsDisplayCreationData)
        ensures
            r == (ObsDisplayCreationData { backbuffers, ..self }),
    {
        ObsDisplayCreationData { backbuffers, ..self }
    }

    /// Sets the background color.
    pub fn set_background_color(self, background_color: u32) -> (r: ObsDisplayCreationData)
        ensures
            r == (ObsDisplayCreationData { background_color, ..self }),
    {
        ObsDisplayCreationData { background_color, ..self }
    }

    /// Chooses whether the display gets a child window inside the given
    /// window handle; on by default.
    pub fn set_create_child(self, should_create: bool) -> (r: ObsDisplayCreationData)
        ensures
            r == (ObsDisplayCreationData { create_child: should_create, ..self }),
    {
        ObsDisplayCreationData { create_child: should_create, ..self }
    }

    /// Produces the graphics-initialization data, drawing into the
    /// override window when one is given.
    pub fn build(self, window_override: Option<usize>) -> (r: GsInitData)
        ensures
            r == (GsInitData {
                cx: self.width,
                cy: self.height,
                format: self.format,
                zsformat: self.zsformat,
                window: if window_override is Some {
                    window_override->0
                } else {
                    self.window_handle
                },
                adapter: self.adapter,
                num_backbuffers: self.backbuffers,
            }),
    {
        GsInitData {
            cx: self.width,
            cy: self.height,
            format: self.format,
            zsformat: self.zsformat,
            window: match window_override {
                Some(w) => w,
                None => self.window_handle,
            },
            adapter: self.adapter,
            num_backbuffers: self.backbuffers,
        }
    }
}

} // verus!
