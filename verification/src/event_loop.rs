//! The event loop's decisions: what each event does to the viewer, and what it
//! asks of the thread that runs the loop.

use vstd::prelude::*;
use crate::document::{loaded, Parsed};
use crate::error::{failed, ViewerError};
use crate::framebuffer::extent_ok;
use crate::state::{State, StateView};

verus! {

/// Where the loop stands.
#[derive(Clone, Copy, Debug, PartialEq, Eq, Structural)]
pub enum Phase {
    /// Waiting for the next event.
    Idle,
    /// A frame has been handed out for showing, and the outcome is awaited.
    Rendering,
    /// The loop has ended; nothing follows.
    Exiting,
}

/// What the loop is told.
pub enum Event {
    /// The window wants its content drawn.
    RedrawRequested,
    /// Showing the frame that was handed out went well (`ok`) or failed.
    Presented { ok: bool },
    /// The watcher's change signal, with what reading and parsing the file
    /// then gave: `None` where it could not be read, else the parser's answer.
    FileChanged { parsed: Parsed },
    /// One step of input: whether the escape key went down, whether the window
    /// was asked to close, and the window's new size where it changed.
    Input { escape: bool, quit: bool, resized: Option<(u32, u32)> },
    /// Anything else.
    Other,
}

/// What the loop asks of the thread that runs it.
#[derive(Clone, Copy, Debug, PartialEq, Eq, Structural)]
pub enum Directive {
    /// Nothing: block until the next event.
    Wait,
    /// Copy the frame to the screen, show it, and report the outcome.
    Present,
    /// Draw the document on the surface, as `rasterize_svg` hands them out,
    /// fitted into the surface's size with its proportions kept, then ask the
    /// window for a redraw.
    Draw,
    /// Bring the screen's buffers to this size, then draw and ask for a redraw
    /// as for `Draw`.
    Resize { width: u32, height: u32 },
    /// Leave the loop.
    Exit,
}

/// What an event asks the viewer to do to its own state.
pub enum Work {
    /// Nothing: document and frame stay.
    Nothing,
    /// One reload of the document, to be followed by one drawing.
    Reload,
    /// One new surface of this size, to be followed by one drawing.
    Resize { width: u32, height: u32 },
}

/// The work that `event` asks for in `phase`. Only an idle loop takes up work;
/// a request to leave goes before a change of size in the same step of input.
pub open spec fn work(phase: Phase, event: Event) -> Work {
    match (phase, event) {
        (Phase::Idle, Event::FileChanged { .. }) => Work::Reload,
        (Phase::Idle, Event::Input { escape, quit, resized: Some(size) }) => if escape || quit {
            Work::Nothing
        } else {
            Work::Resize { width: size.0, height: size.1 }
        },
        _ => Work::Nothing,
    }
}

/// Where the loop stands after `event` came in `phase`, and what it asks for,
/// provided that the work went well.
pub open spec fn plan(phase: Phase, event: Event) -> (Phase, Directive) {
    match phase {
        Phase::Exiting => (Phase::Exiting, Directive::Exit),
        Phase::Rendering => match event {
            Event::Presented { ok } => if ok {
                (Phase::Idle, Directive::Wait)
            } else {
                (Phase::Exiting, Directive::Exit)
            },
            _ => (Phase::Rendering, Directive::Wait),
        },
        Phase::Idle => match event {
            Event::RedrawRequested => (Phase::Rendering, Directive::Present),
            Event::FileChanged { .. } => (Phase::Idle, Directive::Draw),
            Event::Input { escape, quit, resized } => if escape || quit {
                (Phase::Exiting, Directive::Exit)
            } else {
                match resized {
                    Some(size) => (Phase::Idle, Directive::Resize { width: size.0, height: size.1 }),
                    None => (Phase::Idle, Directive::Wait),
                }
            },
            _ => (Phase::Idle, Directive::Wait),
        },
    }
}

/// The viewer: its state, and where its loop stands.
pub struct Viewer {
    state: State,
    phase: Phase,
}

impl Viewer {
    /// The viewer's state.
    pub closed spec fn spec_state(&self) -> State {
        self.state
    }

    /// Where the loop stands.
    pub closed spec fn spec_phase(&self) -> Phase {
        self.phase
    }

    /// The viewer's state is well formed.
    pub open spec fn wf(&self) -> bool {
        self.spec_state().wf()
    }

    /// A viewer with an idle loop.
    pub fn new(state: State) -> (viewer: Viewer)
        requires
            state.wf(),
        ensures
            viewer.wf(),
            viewer.spec_state() == state,
            viewer.spec_phase() == Phase::Idle,
    {
        Viewer { state, phase: Phase::Idle }
    }

    /// Takes one event. Where the work that the event asks for goes well, the
    /// loop moves on as planned and the directive says what the thread that
    /// runs it is to do; where it fails, the viewer is as it was, and the
    /// failure is handed on. An event that asks for no work never fails and
    /// leaves document and surface alone. A reload fails exactly where the
    /// file was not read or the parser rejected it, and else puts the new tree
    /// in the document's place; a change of size fails exactly where no
    /// surface of the new size can be had.
    pub fn on_event(&mut self, event: Event) -> (res: Result<Directive, ViewerError>)
        requires
            old(self).wf(),
        ensures
            final(self).wf(),
            res matches Ok(directive) ==> (final(self).spec_phase(), directive) == plan(
                old(self).spec_phase(),
                event,
            ),
            res is Err ==> *final(self) == *old(self),
            work(old(self).spec_phase(), event) is Nothing ==> res is Ok
                && final(self).spec_state() == old(self).spec_state(),
            work(old(self).spec_phase(), event) is Reload ==> {
                &&& event matches Event::FileChanged { parsed }
                &&& loaded(parsed) matches Err(e) ==> failed(res, e)
                &&& loaded(parsed) matches Ok(tree) ==> res is Ok && final(self).spec_state()@
                    == old(self).spec_state()@.showing(tree)
            },
            work(old(self).spec_phase(), event) matches Work::Resize { width, height } ==> {
                &&& res is Ok <==> extent_ok(width, height)
                &&& res matches Err(e) ==> e == ViewerError::Allocation
                &&& res is Ok ==> final(self).spec_state()@ == old(self).spec_state()@.resized(
                    width,
                    height,
                )
            },
    {
        match self.phase {
            Phase::Exiting => Ok(Directive::Exit),
            Phase::Rendering => match event {
                Event::Presented { ok } => {
                    if ok {
                        self.phase = Phase::Idle;
                        Ok(Directive::Wait)
                    } else {
                        self.phase = Phase::Exiting;
                        Ok(Directive::Exit)
                    }
                },
                _ => Ok(Directive::Wait),
            },
            Phase::Idle => match event {
                Event::RedrawRequested => {
                    self.phase = Phase::Rendering;
                    Ok(Directive::Present)
                },
                Event::FileChanged { parsed } => {
                    match self.state.handle_file_change(parsed) {
                        Ok(_) => Ok(Directive::Draw),
                        Err(e) => Err(e),
                    }
                },
                Event::Input { escape, quit, resized } => {
                    if escape || quit {
                        self.phase = Phase::Exiting;
                        Ok(Directive::Exit)
                    } else {
                        match resized {
                            Some(size) => match self.state.resize(size.0, size.1) {
                                Ok(_) => Ok(Directive::Resize { width: size.0, height: size.1 }),
                                Err(e) => Err(e),
                            },
                            None => Ok(Directive::Wait),
                        }
                    }
                },
                _ => Ok(Directive::Wait),
            },
        }
    }

    /// Where the loop stands.
    pub fn phase(&self) -> (phase: Phase)
        ensures
            phase == self.spec_phase(),
    {
        self.phase
    }

    /// Makes ready for drawing, as the state does: clears the surface and hands
    /// out the document's tree, the size to fit it into, and the surface's
    /// bytes to draw on. Where the loop stands does not change.
    pub fn rasterize_svg(&mut self) -> (job: (&usvg::Tree, u32, u32, &mut [u8]))
        requires
            old(self).wf(),
        ensures
            *job.0 == old(self).spec_state()@.document,
            job.1 == old(self).spec_state()@.width,
            job.2 == old(self).spec_state()@.height,
            job.3@ == old(self).spec_state()@.cleared().frame,
            final(job.3)@.len() == job.3@.len(),
            final(self).spec_state()@ == (StateView {
                frame: final(job.3)@,
                ..old(self).spec_state()@
            }),
            final(self).spec_phase() == old(self).spec_phase(),
            final(self).wf(),
    {
        self.state.rasterize_svg()
    }

    /// The viewer's state, for reading the frame, the file's path and the
    /// parse context.
    pub fn state(&self) -> (state: &State)
        ensures
            *state == self.spec_state(),
    {
        &self.state
    }
}

/// The document is loaded anew for the watcher's change signal and for nothing
/// else, once for each signal that an idle loop takes. A new surface is made
/// only for a step of input that brings a new size. Drawing is asked for after
/// these two and at no other time, once each; whatever else comes leaves
/// document and surface alone.
pub proof fn law_reload_only_for_change_signal(phase: Phase, event: Event)
    ensures
        work(phase, event) is Reload <==> (phase == Phase::Idle && event is FileChanged),
        work(phase, event) is Resize ==> (phase == Phase::Idle && event is Input),
        work(phase, event) is Reload <==> plan(phase, event).1 == Directive::Draw,
        work(phase, event) is Resize <==> plan(phase, event).1 is Resize,
{
}

/// A loop that has ended stays ended, whatever comes.
pub proof fn law_exit_is_final(event: Event)
    ensures
        plan(Phase::Exiting, event) == (Phase::Exiting, Directive::Exit),
        work(Phase::Exiting, event) is Nothing,
{
}

} // verus!
