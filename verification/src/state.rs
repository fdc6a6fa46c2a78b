//! The viewer's state: the watched file's path, the parse context, the current
//! document, and a surface of the window's size for this document.
//!
//! The rasterizer is not called from here: it ends the process on some
//! drawings that the parser accepts (a mirrored group with a filter is one),
//! and nothing in this crate does that. The state hands out the document and
//! the cleared surface, and the caller draws the one on the other.

use std::path::PathBuf;
use vstd::prelude::*;
use crate::document::{loaded, Document, ParseContext, Parsed};
use crate::error::{failed, ViewerError};
use crate::framebuffer::{blank, extent_ok, Framebuffer};

verus! {

/// What a state amounts to.
pub struct StateView {
    /// The path of the watched file.
    pub file: PathBuf,
    /// The context of every parse.
    pub options: usvg::Options,
    /// The current document.
    pub document: usvg::Tree,
    /// The window's width in pixels.
    pub width: u32,
    /// The window's height in pixels.
    pub height: u32,
    /// The bytes of the surface.
    pub frame: Seq<u8>,
}

impl StateView {
    /// The surface has a size that surfaces can have, which is the window's,
    /// and four bytes for each pixel.
    pub open spec fn wf(self) -> bool {
        &&& extent_ok(self.width, self.height)
        &&& self.frame.len() == 4 * self.width * self.height
    }

    /// The state with the surface cleared.
    pub open spec fn cleared(self) -> StateView {
        StateView { frame: blank((4 * self.width * self.height) as nat), ..self }
    }

    /// The state after the window took the size `width` by `height`: the same
    /// document, and a cleared surface of the new size.
    pub open spec fn resized(self, width: u32, height: u32) -> StateView {
        StateView { width, height, frame: blank((4 * width * height) as nat), ..self }
    }

    /// The state after `document` took the place of the current one.
    pub open spec fn showing(self, document: usvg::Tree) -> StateView {
        StateView { document, ..self }
    }
}

/// The state with which the viewer starts, or the failure that keeps it from
/// starting. The failures come in this order: the file was not read; the
/// parser rejected it; no surface of the window's size can be had.
pub open spec fn started(
    file: PathBuf,
    options: usvg::Options,
    parsed: Parsed,
    width: u32,
    height: u32,
) -> Result<StateView, ViewerError> {
    match loaded(parsed) {
        Err(e) => Err(e),
        Ok(document) => if extent_ok(width, height) {
            Ok(
                StateView {
                    file,
                    options,
                    document,
                    width,
                    height,
                    frame: blank((4 * width * height) as nat),
                },
            )
        } else {
            Err(ViewerError::Allocation)
        },
    }
}

/// The one thing in the viewer that changes: only the thread of the event loop
/// holds it.
pub struct State {
    file: PathBuf,
    options: ParseContext,
    pixels: Framebuffer,
    svg_data: Document,
    width: u32,
    height: u32,
}

impl View for State {
    type V = StateView;

    closed spec fn view(&self) -> StateView {
        StateView {
            file: self.file,
            options: self.options@,
            document: self.svg_data@,
            width: self.width,
            height: self.height,
            frame: self.pixels@.bytes,
        }
    }
}

impl State {
    /// The surface is well formed and has the size that the state records.
    pub closed spec fn sized(&self) -> bool {
        &&& self.pixels.wf()
        &&& self.pixels@.width == self.width
        &&& self.pixels@.height == self.height
    }

    /// The surface has the recorded size, which is one that surfaces can have,
    /// and four bytes for each pixel.
    pub open spec fn wf(&self) -> bool {
        self.sized() && self@.wf()
    }

    /// The state at startup, from the file's path, the parse context, what
    /// reading and parsing the file gave (`None` where it could not be read,
    /// else the parser's answer) and the window's size. The tree becomes the
    /// document, and a cleared surface of the window's size is made for it:
    /// `rasterize_svg` hands both out for drawing.
    pub fn new(
        file: PathBuf,
        options: ParseContext,
        parsed: Parsed,
        width: u32,
        height: u32,
    ) -> (res: Result<State, ViewerError>)
        ensures
            started(file, options@, parsed, width, height) matches Ok(view) ==> (res matches Ok(
                state,
            ) && state@ == view && state.wf()),
            started(file, options@, parsed, width, height) matches Err(e) ==> failed(res, e),
    {
        let svg_data = match Document::load(parsed) {
            Ok(document) => document,
            Err(e) => {
                return Err(e);
            },
        };
        let pixels = match Framebuffer::allocate(width, height) {
            Ok(pixels) => pixels,
            Err(e) => {
                return Err(e);
            },
        };
        Ok(State { file, options, pixels, svg_data, width, height })
    }

    /// Follows the window to the size `width` by `height`: a new, cleared
    /// surface of that size takes the place of the old one, for the document
    /// to be drawn on. It fails exactly when no surface of that size can be
    /// had, and then the state is as it was.
    pub fn resize(&mut self, width: u32, height: u32) -> (res: Result<(), ViewerError>)
        requires
            old(self).wf(),
        ensures
            final(self).wf(),
            res is Ok <==> extent_ok(width, height),
            res is Ok ==> final(self)@ == old(self)@.resized(width, height),
            res matches Err(e) ==> e == ViewerError::Allocation && *final(self) == *old(self),
    {
        let pixels = match Framebuffer::allocate(width, height) {
            Ok(pixels) => pixels,
            Err(e) => {
                return Err(e);
            },
        };
        self.width = width;
        self.height = height;
        self.pixels = pixels;
        Ok(())
    }

    /// Takes up a change of the watched file, from what reading and parsing it
    /// anew gave (`None` where it could not be read, else the parser's answer
    /// in the same context as before). The new tree takes the place of the old
    /// document, to be drawn next. Where the file was not read or the parser
    /// rejected it, the state is as it was, old document and all.
    pub fn handle_file_change(&mut self, parsed: Parsed) -> (res: Result<(), ViewerError>)
        requires
            old(self).wf(),
        ensures
            final(self).wf(),
            loaded(parsed) matches Ok(tree) ==> res is Ok
                && final(self)@ == old(self)@.showing(tree),
            loaded(parsed) matches Err(e) ==> failed(res, e) && *final(self) == *old(self),
    {
        let svg_data = match Document::load(parsed) {
            Ok(document) => document,
            Err(e) => {
                return Err(e);
            },
        };
        self.svg_data = svg_data;
        Ok(())
    }

    /// Makes ready for drawing: clears the surface and hands out the document's
    /// tree, the size to fit it into, and the surface's bytes to draw on. The
    /// drawing is fitted into that size with its proportions kept, so where
    /// the window has other proportions a band of the surface stays cleared.
    /// Whatever is drawn, the surface keeps its size and four bytes for each
    /// pixel, and nothing else in the state changes.
    pub fn rasterize_svg(&mut self) -> (job: (&usvg::Tree, u32, u32, &mut [u8]))
        requires
            old(self).wf(),
        ensures
            *job.0 == old(self)@.document,
            job.1 == old(self)@.width,
            job.2 == old(self)@.height,
            job.3@ == old(self)@.cleared().frame,
            final(job.3)@.len() == job.3@.len(),
            final(self)@ == (StateView { frame: final(job.3)@, ..old(self)@ }),
            final(self).wf(),
    {
        self.pixels.clear();
        (self.svg_data.tree(), self.width, self.height, self.pixels.bytes_mut())
    }

    /// What to make of the rasterizer's answer: it drew, or it declined, which
    /// is a failure of rendering.
    pub fn drawn(outcome: Option<()>) -> (res: Result<(), ViewerError>)
        ensures
            outcome is Some ==> res is Ok,
            outcome is None ==> failed(res, ViewerError::Render),
    {
        match outcome {
            Some(_) => Ok(()),
            None => Err(ViewerError::Render),
        }
    }

    /// The path of the watched file.
    pub fn file(&self) -> (file: &PathBuf)
        ensures
            *file == self@.file,
    {
        &self.file
    }

    /// The context in which the file is parsed, the first time and every time.
    pub fn options(&self) -> (options: &ParseContext)
        ensures
            options@ == self@.options,
    {
        &self.options
    }

    /// The window's width in pixels.
    pub fn width(&self) -> (width: u32)
        ensures
            width == self@.width,
    {
        self.width
    }

    /// The window's height in pixels.
    pub fn height(&self) -> (height: u32)
        ensures
            height == self@.height,
    {
        self.height
    }

    /// The bytes of the surface, to be copied to the screen.
    pub fn frame(&self) -> (frame: &[u8])
        ensures
            frame@ == self@.frame,
    {
        self.pixels.bytes()
    }
}

/// Resizing the window and then resizing it back to the size it had, with the
/// document unchanged in between, leaves the same document at the same size
/// with a cleared surface: what is then handed out for drawing is what was
/// handed out for the frame that there was. That one drawing gives the same
/// bytes each time is the rasterizer's to keep.
pub proof fn law_resize_round_trip(state: StateView, width: u32, height: u32)
    requires
        state.wf(),
    ensures
        state.resized(width, height).resized(state.width, state.height) == state.cleared(),
        state.resized(width, height).document == state.document,
{
}

} // verus!
