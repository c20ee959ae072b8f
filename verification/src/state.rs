//! The orchestration state observed by the render loop, and its
//! transitions: selecting an input, starting and completing a conversion,
//! and recording a thumbnail job's outcome.

use vstd::prelude::*;
use vstd::string::*;
use crate::paths::{derive_output_path, file_name, file_name_of, mp3_output_of};
use crate::status::{conversion_status, status_of_outcome, ProcessOutcome, Status};

verus! {

/// Everything the jobs and the render loop share: the selected input and
/// its derived output, the status cell, and the thumbnail cell with its
/// loading flags. The caller keeps it behind a lock; every transition here
/// is one short critical section.
pub struct AppState {
    /// The selected source video, if any.
    pub input_path: Option<String>,
    /// The derived conversion target; present exactly when an input is.
    pub output_path: Option<String>,
    /// The status cell the render loop reads each frame.
    pub status: Status,
    /// The thumbnail cell: the path of an extracted preview image.
    pub thumbnail_path: Option<String>,
    /// Whether a thumbnail job is believed to be in flight.
    pub thumbnail_loading: bool,
    /// Whether the preview image has been loaded for display.
    pub thumbnail_loaded: bool,
}

/// What was observed of one thumbnail extraction attempt. Every variant but
/// `Extracted` is silent: the cell is left alone and no status changes.
pub enum ThumbnailOutcome {
    /// The scratch directory could not be created.
    ScratchDirFailed,
    /// The tool could not be launched.
    SpawnFailed,
    /// The tool exited with a non-zero status.
    ToolFailed,
    /// The tool reported success but the image is not on disk.
    OutputMissing,
    /// The image was extracted and verified present at this path.
    Extracted(String),
}

impl AppState {
    /// The output path is present exactly when an input is, and is derived
    /// from it by the output naming rule.
    pub open spec fn wf(self) -> bool {
        &&& self.input_path is Some <==> self.output_path is Some
        &&& self.input_path matches Some(i) ==> (self.output_path matches Some(o)
            && o@ == mp3_output_of(i@))
    }

    /// A conversion may start only when an input is selected and none is
    /// already running.
    pub open spec fn can_convert_spec(self) -> bool {
        self.input_path is Some && !(self.status is Converting)
    }

    /// A fresh state: nothing selected, idle, no thumbnail.
    pub fn new() -> (r: AppState)
        ensures
            r.input_path is None,
            r.output_path is None,
            r.status is Idle,
            r.thumbnail_path is None,
            !r.thumbnail_loading,
            !r.thumbnail_loaded,
            r.wf(),
    {
        AppState {
            input_path: None,
            output_path: None,
            status: Status::Idle,
            thumbnail_path: None,
            thumbnail_loading: false,
            thumbnail_loaded: false,
        }
    }

    /// Queries the conversion gate.
    pub fn can_convert(&self) -> (r: bool)
        ensures
            r == self.can_convert_spec(),
    {
        self.input_path.is_some() && !matches!(self.status, Status::Converting)
    }

    /// Selects a new input: derives the output path, resets the status to
    /// idle and the thumbnail cell to empty, whatever was in flight, and
    /// hands back the path for the thumbnail job to be spawned on.
    pub fn set_input(&mut self, path: String) -> (job_input: String)
        ensures
            set_input_rel(*old(self), path, *final(self)),
            final(self).wf(),
            job_input == path,
    {
        let output = derive_output_path(path.as_str());
        let job_input = path.clone();
        self.output_path = Some(output);
        self.input_path = Some(path);
        self.status = Status::Idle;
        self.thumbnail_path = None;
        self.thumbnail_loading = true;
        self.thumbnail_loaded = false;
        job_input
    }

    /// Starts a conversion: flips the status cell to `Converting` and hands
    /// back the input and output paths for the job.
    pub fn begin_conversion(&mut self) -> (job: (String, String))
        requires
            old(self).can_convert_spec(),
            old(self).wf(),
        ensures
            begin_rel(*old(self), *final(self)),
            old(self).input_path matches Some(i) && job.0 == i,
            old(self).output_path matches Some(o) && job.1 == o,
    {
        let input = match &self.input_path {
            Some(p) => p.clone(),
            None => {
                proof {
                    assert(false);
                }
                String::new()
            },
        };
        let output = match &self.output_path {
            Some(p) => p.clone(),
            None => {
                proof {
                    assert(false);
                }
                String::new()
            },
        };
        self.status = Status::Converting;
        (input, output)
    }

    /// Completes a conversion: writes the terminal status the outcome
    /// dictates. The one and only status write a conversion job makes.
    pub fn complete_conversion(&mut self, outcome: ProcessOutcome)
        ensures
            complete_rel(*old(self), outcome, *final(self)),
    {
        self.status = conversion_status(outcome);
    }

    /// Records a thumbnail job's outcome: the cell is written only on a
    /// verified extraction; every failure is silent and, in particular,
    /// never touches the status cell.
    pub fn record_thumbnail(&mut self, outcome: ThumbnailOutcome)
        ensures
            record_rel(*old(self), outcome, *final(self)),
    {
        match outcome {
            ThumbnailOutcome::Extracted(p) => {
                self.thumbnail_path = Some(p);
            },
            _ => {},
        }
    }

    /// One render-pass poll of the thumbnail cell: when an input is shown,
    /// no preview is loaded yet and the cell is populated, hands the path
    /// out for loading and clears the loading flag; otherwise changes
    /// nothing and returns nothing.
    pub fn poll_thumbnail(&mut self) -> (r: Option<String>)
        ensures
            old(self).input_path is Some && !old(self).thumbnail_loaded && old(
                self,
            ).thumbnail_path is Some ==> {
                &&& r == old(self).thumbnail_path
                &&& !final(self).thumbnail_loading
            },
            !(old(self).input_path is Some && !old(self).thumbnail_loaded && old(
                self,
            ).thumbnail_path is Some) ==> r is None && *final(self) == *old(self),
            final(self).input_path == old(self).input_path,
            final(self).output_path == old(self).output_path,
            final(self).status == old(self).status,
            final(self).thumbnail_path == old(self).thumbnail_path,
            final(self).thumbnail_loaded == old(self).thumbnail_loaded,
    {
        if self.input_path.is_some() && !self.thumbnail_loaded {
            match &self.thumbnail_path {
                Some(p) => {
                    let r = Some(p.clone());
                    self.thumbnail_loading = false;
                    r
                },
                None => None,
            }
        } else {
            None
        }
    }

    /// The text the render loop shows under the drop zone: a fixed phrase
    /// for a running, finished or failed conversion, the selected file's
    /// name when idle, and the drop prompt when nothing is selected.
    pub open spec fn display_text_spec(self) -> Seq<char> {
        match self.status {
            Status::Converting => "Converting..."@,
            Status::Done => "Done!"@,
            Status::Error(_) => "Error occurred"@,
            Status::Idle => match self.input_path {
                Some(p) => file_name_of(p@),
                None => "Drop your video here to convert \n (\"mp4\", \"mkv\", \"avi\", \"mov\", \"webm\", \"flv\")"@,
            },
        }
    }

    /// Chooses the status line for this frame.
    pub fn display_text(&self) -> (r: String)
        ensures
            r@ == self.display_text_spec(),
    {
        match &self.status {
            Status::Converting => String::from_str("Converting..."),
            Status::Done => String::from_str("Done!"),
            Status::Error(_) => String::from_str("Error occurred"),
            Status::Idle => match &self.input_path {
                Some(p) => file_name(p.as_str()),
                None => String::from_str(
                    "Drop your video here to convert \n (\"mp4\", \"mkv\", \"avi\", \"mov\", \"webm\", \"flv\")",
                ),
            },
        }
    }

    /// The colour of the status line: green once done, red on error, light
    /// grey otherwise.
    pub fn status_color(&self) -> (r: (u8, u8, u8))
        ensures
            self.status is Done ==> r == (74u8, 222u8, 128u8),
            self.status is Error ==> r == (248u8, 113u8, 113u8),
            self.status is Idle || self.status is Converting ==> r == (220u8, 220u8, 220u8),
    {
        match &self.status {
            Status::Done => (74, 222, 128),
            Status::Error(_) => (248, 113, 113),
            _ => (220, 220, 220),
        }
    }

    /// The fill of the convert button: full green when a conversion may
    /// start, washed out while one cannot.
    pub fn convert_button_color(&self) -> (r: (u8, u8, u8))
        ensures
            self.can_convert_spec() ==> r == (34u8, 197u8, 94u8),
            !self.can_convert_spec() ==> r == (150u8, 200u8, 150u8),
    {
        if self.can_convert() {
            (34, 197, 94)
        } else {
            (150, 200, 150)
        }
    }

    /// Notes whether loading the preview image succeeded.
    pub fn mark_thumbnail_loaded(&mut self, loaded: bool)
        ensures
            final(self).thumbnail_loaded == loaded,
            final(self).input_path == old(self).input_path,
            final(self).output_path == old(self).output_path,
            final(self).status == old(self).status,
            final(self).thumbnail_path == old(self).thumbnail_path,
            final(self).thumbnail_loading == old(self).thumbnail_loading,
    {
        self.thumbnail_loaded = loaded;
    }
}

/// Relation between the states before and after selecting `path`.
pub open spec fn set_input_rel(pre: AppState, path: String, post: AppState) -> bool {
    &&& post.input_path == Some(path)
    &&& post.output_path matches Some(o) && o@ == mp3_output_of(path@)
    &&& post.status is Idle
    &&& post.thumbnail_path is None
    &&& post.thumbnail_loading
    &&& !post.thumbnail_loaded
}

/// Relation between the states before and after starting a conversion:
/// the status cell becomes `Converting` and nothing else moves.
pub open spec fn begin_rel(pre: AppState, post: AppState) -> bool {
    &&& post.status is Converting
    &&& post.input_path == pre.input_path
    &&& post.output_path == pre.output_path
    &&& post.thumbnail_path == pre.thumbnail_path
    &&& post.thumbnail_loading == pre.thumbnail_loading
    &&& post.thumbnail_loaded == pre.thumbnail_loaded
}

/// Relation between the states before and after a conversion job finishes
/// with `outcome`: the status cell gets the terminal status the outcome
/// dictates and nothing else moves.
pub open spec fn complete_rel(pre: AppState, outcome: ProcessOutcome, post: AppState) -> bool {
    &&& status_of_outcome(outcome, post.status)
    &&& post.input_path == pre.input_path
    &&& post.output_path == pre.output_path
    &&& post.thumbnail_path == pre.thumbnail_path
    &&& post.thumbnail_loading == pre.thumbnail_loading
    &&& post.thumbnail_loaded == pre.thumbnail_loaded
}

/// Relation between the states before and after a thumbnail job reports
/// `outcome`: only a verified extraction writes the cell; the status cell
/// and everything else never move.
pub open spec fn record_rel(pre: AppState, outcome: ThumbnailOutcome, post: AppState) -> bool {
    &&& (outcome matches ThumbnailOutcome::Extracted(p) ==> post.thumbnail_path == Some(p))
    &&& (!(outcome is Extracted) ==> post.thumbnail_path == pre.thumbnail_path)
    &&& post.status == pre.status
    &&& post.input_path == pre.input_path
    &&& post.output_path == pre.output_path
    &&& post.thumbnail_loading == pre.thumbnail_loading
    &&& post.thumbnail_loaded == pre.thumbnail_loaded
}

/// Classifies the raw observations of a thumbnail attempt that got as far
/// as launching the tool.
pub fn thumbnail_outcome(
    spawn_ok: bool,
    exit_success: bool,
    output_present: bool,
    path: String,
) -> (r: ThumbnailOutcome)
    ensures
        spawn_ok && exit_success && output_present ==> r == ThumbnailOutcome::Extracted(path),
        !spawn_ok ==> r is SpawnFailed,
        spawn_ok && !exit_success ==> r is ToolFailed,
        spawn_ok && exit_success && !output_present ==> r is OutputMissing,
{
    if !spawn_ok {
        ThumbnailOutcome::SpawnFailed
    } else if !exit_success {
        ThumbnailOutcome::ToolFailed
    } else if !output_present {
        ThumbnailOutcome::OutputMissing
    } else {
        ThumbnailOutcome::Extracted(path)
    }
}

} // verus!
