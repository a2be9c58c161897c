//! The state behind the interactive form: both paths, the chosen scale, the
//! last computed sizes, and the outcome of the last conversion.
//!
//! The caller owns one value of [`Session`] for the whole run, reads text
//! fields and clicks from its surface, and calls the methods here; every
//! decision — when dimensions are absent, how the scaled size follows from
//! the intrinsic one, what the status becomes — is made and verified here.

use vstd::prelude::*;

use crate::convert::source_view;
use crate::convert::spec_load;
use crate::convert::load_dimensions;
use crate::dims::Dimensions;
use crate::dims::scaled_size;
use crate::dims::spec_scaled_size;
use crate::error::ConvertError;

verus! {

/// The outcome of the last conversion attempt, shown on the status line.
#[derive(Clone, Copy, Debug, PartialEq, Eq, Structural)]
pub enum Status {
    /// No conversion attempted yet.
    Idle,
    /// The last conversion produced a PNG at the destination path.
    Converted,
    /// The last conversion failed.
    Failed(ConvertError),
}

/// The scaled size that follows from an intrinsic size and a scale: absent
/// when the intrinsic size is, or when a product leaves `u32`.
pub open spec fn spec_scaled_of(original: Option<Dimensions>, scale: u32) -> Option<Dimensions> {
    match original {
        None => None,
        Some(d) => spec_scaled_size(d, scale),
    }
}

/// The intrinsic size the session shows after a refresh: none for an empty
/// source path, none when the read or the parse failed, else the document's
/// size.
pub open spec fn spec_refreshed(path: Seq<char>, source: Option<Seq<char>>) -> Option<Dimensions> {
    if path.len() == 0 {
        None
    } else {
        match spec_load(source) {
            Ok(d) => Some(d),
            Err(_) => None,
        }
    }
}

/// One converter session: the fields of the form and what they imply.
pub struct Session {
    /// Path of the source SVG document, as typed into the form.
    pub input_path: String,
    /// Path the produced PNG is written to.
    pub output_path: String,
    /// The chosen scale factor.
    pub scale: u32,
    /// The outcome of the last conversion attempt.
    pub status: Status,
    /// The intrinsic size of the source document, when one could be read.
    pub original: Option<Dimensions>,
    /// The size a conversion at the chosen scale would produce.
    pub scaled: Option<Dimensions>,
}

impl Session {
    /// The session's invariant: the scale is positive, and the shown scaled
    /// size is exactly the intrinsic size times the scale.
    pub open spec fn wf(self) -> bool {
        &&& 1 <= self.scale
        &&& self.scaled == spec_scaled_of(self.original, self.scale)
    }

    /// A fresh session: empty source path, destination `output.png`, scale
    /// one, nothing computed yet.
    pub fn new() -> (s: Session)
        ensures
            s.wf(),
            s.input_path@ == Seq::<char>::empty(),
            s.output_path@ == "output.png"@,
            s.scale == 1,
            s.status == Status::Idle,
            s.original is None,
            s.scaled is None,
    {
        Session {
            input_path: String::new(),
            output_path: "output.png".to_owned(),
            scale: 1,
            status: Status::Idle,
            original: None,
            scaled: None,
        }
    }

    /// Replace the source path.  The shown sizes follow at the next refresh.
    pub fn set_input_path(&mut self, path: String)
        ensures
            final(self).input_path == path,
            final(self).output_path == old(self).output_path,
            final(self).scale == old(self).scale,
            final(self).status == old(self).status,
            final(self).original == old(self).original,
            final(self).scaled == old(self).scaled,
            old(self).wf() ==> final(self).wf(),
    {
        self.input_path = path;
    }

    /// Replace the destination path.
    pub fn set_output_path(&mut self, path: String)
        ensures
            final(self).input_path == old(self).input_path,
            final(self).output_path == path,
            final(self).scale == old(self).scale,
            final(self).status == old(self).status,
            final(self).original == old(self).original,
            final(self).scaled == old(self).scaled,
            old(self).wf() ==> final(self).wf(),
    {
        self.output_path = path;
    }

    /// Choose a scale factor and recompute the scaled size it implies.
    pub fn set_scale(&mut self, scale: u32)
        requires
            1 <= scale,
        ensures
            final(self).input_path == old(self).input_path,
            final(self).output_path == old(self).output_path,
            final(self).scale == scale,
            final(self).status == old(self).status,
            final(self).original == old(self).original,
            final(self).scaled == spec_scaled_of(old(self).original, scale),
            final(self).wf(),
    {
        self.scale = scale;
        self.scaled = match self.original {
            None => None,
            Some(d) => scaled_size(d, scale),
        };
    }

    /// Recompute both shown sizes from the current source path and the text
    /// the caller read from it (`None` when the read failed).  An empty
    /// path, a failed read and a malformed document all leave the sizes
    /// absent; nothing else changes, and no failure is fatal.
    pub fn refresh_dimensions(&mut self, source: Option<&str>)
        ensures
            final(self).input_path == old(self).input_path,
            final(self).output_path == old(self).output_path,
            final(self).scale == old(self).scale,
            final(self).status == old(self).status,
            final(self).original == spec_refreshed(old(self).input_path@, source_view(source)),
            final(self).scaled == spec_scaled_of(final(self).original, old(self).scale),
            1 <= old(self).scale ==> final(self).wf(),
    {
        if self.input_path.as_str().is_empty() {
            self.original = None;
        } else {
            self.original = match load_dimensions(source) {
                Ok(d) => Some(d),
                Err(_) => None,
            };
        }
        self.scaled = match self.original {
            None => None,
            Some(d) => scaled_size(d, self.scale),
        };
    }

    /// Record the outcome of a conversion attempt on the status line.  A
    /// failure only changes the status: the session stays usable.
    pub fn record_conversion(&mut self, outcome: Result<(), ConvertError>)
        ensures
            final(self).input_path == old(self).input_path,
            final(self).output_path == old(self).output_path,
            final(self).scale == old(self).scale,
            final(self).status == (match outcome {
                Ok(_) => Status::Converted,
                Err(e) => Status::Failed(e),
            }),
            final(self).original == old(self).original,
            final(self).scaled == old(self).scaled,
            old(self).wf() ==> final(self).wf(),
    {
        self.status = match outcome {
            Ok(_) => Status::Converted,
            Err(e) => Status::Failed(e),
        };
    }
}

impl Default for Session {
    /// Same value as [`Session::new`].
    fn default() -> (s: Session)
        ensures
            s.wf(),
            s.input_path@ == Seq::<char>::empty(),
            s.output_path@ == "output.png"@,
            s.scale == 1,
            s.status == Status::Idle,
            s.original is None,
            s.scaled is None,
    {
        Session::new()
    }
}

} // verus!
