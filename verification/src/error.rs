//! What can go wrong in the viewer, and what each failure asks of the process.

use vstd::prelude::*;

verus! {

/// The failures that the viewer tells apart.
#[derive(Clone, Copy, Debug, PartialEq, Eq, Structural)]
pub enum ViewerError {
    /// The command line does not hold exactly one path.
    Usage,
    /// The path on the command line could not be resolved.
    PathResolution,
    /// The watched file could not be read.
    Io,
    /// The file's bytes are not a drawing that the parser accepts.
    Parse,
    /// No pixel surface of the size asked for can be had.
    Allocation,
    /// The rasterizer gave up on the document.
    Render,
    /// The frame could not be shown.
    Presentation,
    /// The watch on the file could not be set up.
    WatchRegistration,
    /// A change was seen and could not be passed on to the loop.
    WatchDelivery,
}

/// What the process does about a failure.
#[derive(Clone, Copy, Debug, PartialEq, Eq, Structural)]
pub enum Disposition {
    /// Print the message and leave with the exit code of success.
    ExitCleanly,
    /// Stop the process with the message: nothing is retried, and no earlier
    /// frame is kept on show.
    Abort,
    /// Log the failure and let the event loop end.
    LeaveLoop,
    /// Log the failure and go on.
    Warn,
}

/// Whether `res` is the failure `error`.
pub open spec fn failed<Done>(res: Result<Done, ViewerError>, error: ViewerError) -> bool {
    res matches Err(e) && e == error
}

/// The exit code of a run that only printed the usage line.
pub const USAGE_EXIT_CODE: i32 = 0;

impl ViewerError {
    /// The disposition of each failure.
    pub open spec fn spec_disposition(self) -> Disposition {
        match self {
            ViewerError::Usage => Disposition::ExitCleanly,
            ViewerError::Presentation => Disposition::LeaveLoop,
            ViewerError::WatchDelivery => Disposition::Warn,
            _ => Disposition::Abort,
        }
    }

    /// The text shown for each failure.
    pub open spec fn spec_message(self) -> Seq<char> {
        match self {
            ViewerError::Usage => "Usage:\n\tsvgview <path-to-svg>"@,
            ViewerError::PathResolution => "Failed to interpret argument as path!"@,
            ViewerError::Io => "Could not read input file!"@,
            ViewerError::Parse => "Could not parse data as SVG!"@,
            ViewerError::Allocation => "Could not allocate memory for display!"@,
            ViewerError::Render => "Could not rasterize SVG!"@,
            ViewerError::Presentation => "Rendering failed"@,
            ViewerError::WatchRegistration => "Could not start filesystem watcher!"@,
            ViewerError::WatchDelivery => "Failed to notify UI of file write!"@,
        }
    }

    /// What the process does about this failure.
    pub fn disposition(self) -> (d: Disposition)
        ensures
            d == self.spec_disposition(),
    {
        match self {
            ViewerError::Usage => Disposition::ExitCleanly,
            ViewerError::Presentation => Disposition::LeaveLoop,
            ViewerError::WatchDelivery => Disposition::Warn,
            ViewerError::PathResolution
            | ViewerError::Io
            | ViewerError::Parse
            | ViewerError::Allocation
            | ViewerError::Render
            | ViewerError::WatchRegistration => Disposition::Abort,
        }
    }

    /// Whether this failure ends the process at once.
    pub fn is_fatal(self) -> (fatal: bool)
        ensures
            fatal == (self.spec_disposition() == Disposition::Abort),
    {
        match self.disposition() {
            Disposition::Abort => true,
            _ => false,
        }
    }

    /// The text to show for this failure.
    pub fn message(self) -> (text: &'static str)
        ensures
            text@ == self.spec_message(),
    {
        match self {
            ViewerError::Usage => "Usage:\n\tsvgview <path-to-svg>",
            ViewerError::PathResolution => "Failed to interpret argument as path!",
            ViewerError::Io => "Could not read input file!",
            ViewerError::Parse => "Could not parse data as SVG!",
            ViewerError::Allocation => "Could not allocate memory for display!",
            ViewerError::Render => "Could not rasterize SVG!",
            ViewerError::Presentation => "Rendering failed",
            ViewerError::WatchRegistration => "Could not start filesystem watcher!",
            ViewerError::WatchDelivery => "Failed to notify UI of file write!",
        }
    }
}

} // verus!
