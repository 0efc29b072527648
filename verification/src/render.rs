//! The order of one render, and how it ends.
//!
//! A render is a fixed run of tasks that only a raster backend can perform.
//! [`Render`] hands them out one at a time and is told how each went: the
//! first failure ends the render with that task's error, and a render whose
//! tasks all succeeded is finished.

use vstd::prelude::*;
use crate::canvas::{scene, Mark, Picture};
use crate::error::RenderError;
use crate::geometry::ImageSize;
use crate::overlay::{Asset, OverlayType, TextStyle, Variant};
use crate::units::Length;

verus! {

/// A piece of work that the backend performs for a render.
#[derive(Clone, Copy, Debug, PartialEq, Eq, Structural)]
pub enum Task {
    /// Decode the background bytes into an image.
    DecodeBackground,
    /// Fetch a bundled asset by its name.
    Fetch(Asset),
    /// Parse the fetched font file of a style into a typeface.
    ParseFont(TextStyle),
    /// Measure the caption, replay the drawn canvas onto a surface and
    /// serialise the surface.
    Encode,
}

/// Where a render stands.
#[derive(Clone, Copy, Debug, PartialEq, Eq, Structural)]
pub enum Progress {
    /// Work for the backend to perform and then report on.
    Next(Task),
    /// Every task succeeded: the encoded image is the result.
    Finished,
    /// A task failed: this error is the result, and no bytes.
    Failed(RenderError),
}

/// The error with which a render ends when `task` fails.
pub open spec fn failure_of(task: Task) -> RenderError {
    match task {
        Task::DecodeBackground => RenderError::ImageDecode,
        Task::Fetch(asset) => RenderError::AssetMissing(asset),
        Task::ParseFont(style) => RenderError::FontLoad(style.spec_font()),
        Task::Encode => RenderError::Encode,
    }
}

/// The tasks of one render, in the order they are performed. The highlight
/// variant loads its second typeface; the normal variant never does.
pub open spec fn schedule(highlight: bool) -> Seq<Task> {
    if highlight {
        seq![
            Task::DecodeBackground,
            Task::Fetch(Asset::OverlayHighlight),
            Task::Fetch(Asset::FontBody),
            Task::ParseFont(TextStyle::Body),
            Task::Fetch(Asset::FontHighlight),
            Task::ParseFont(TextStyle::Highlight),
            Task::Encode,
        ]
    } else {
        seq![
            Task::DecodeBackground,
            Task::Fetch(Asset::OverlayNormal),
            Task::Fetch(Asset::FontBody),
            Task::ParseFont(TextStyle::Body),
            Task::Encode,
        ]
    }
}

/// A render in progress, as contracts see it: the variant, how many tasks
/// have succeeded, and whether the task after them has failed.
pub struct Run {
    pub highlight: bool,
    pub done: nat,
    pub failed: bool,
}

impl Run {
    /// A failed render failed at one of its tasks; any other has done at most
    /// all of them.
    pub open spec fn wf(self) -> bool {
        if self.failed {
            self.done < schedule(self.highlight).len()
        } else {
            self.done <= schedule(self.highlight).len()
        }
    }

    /// A render of which nothing has been done yet.
    pub open spec fn start(highlight: bool) -> Run {
        Run { highlight, done: 0, failed: false }
    }

    /// Where the render stands.
    pub open spec fn progress(self) -> Progress {
        if self.failed {
            Progress::Failed(failure_of(schedule(self.highlight)[self.done as int]))
        } else if self.done < schedule(self.highlight).len() {
            Progress::Next(schedule(self.highlight)[self.done as int])
        } else {
            Progress::Finished
        }
    }

    /// The render after its pending task went well (`ok`) or failed. A render
    /// that has ended stays as it is.
    pub open spec fn step(self, ok: bool) -> Run {
        if self.failed || self.done >= schedule(self.highlight).len() {
            self
        } else if ok {
            Run { done: self.done + 1, ..self }
        } else {
            Run { failed: true, ..self }
        }
    }

    /// The render after the given reports, taken in order.
    pub open spec fn after(self, reports: Seq<bool>) -> Run
        decreases reports.len(),
    {
        if reports.len() == 0 {
            self
        } else {
            self.after(reports.drop_last()).step(reports.last())
        }
    }
}

/// Whether every report before index `end` is a success.
pub open spec fn all_ok(reports: Seq<bool>, end: int) -> bool {
    forall|i: int| 0 <= i < end && i < reports.len() ==> reports[i]
}

/// Reports that are successes before index `end` are so too once the last
/// report is left off.
proof fn lemma_earlier_reports_ok(reports: Seq<bool>, end: int)
    requires
        reports.len() > 0,
        all_ok(reports, end),
    ensures
        all_ok(reports.drop_last(), end),
{
    let earlier = reports.drop_last();
    assert forall|i: int| 0 <= i < end && i < earlier.len() implies earlier[i] by {
        assert(earlier[i] == reports[i]);
    }
}

/// While every task succeeds they are handed out in the order of the
/// schedule, each exactly once, and after the last the render is finished.
pub proof fn lemma_tasks_run_in_order(highlight: bool, reports: Seq<bool>)
    requires
        all_ok(reports, reports.len() as int),
    ensures
        Run::start(highlight).after(reports) == (Run {
            highlight,
            done: if reports.len() < schedule(highlight).len() {
                reports.len()
            } else {
                schedule(highlight).len()
            },
            failed: false,
        }),
        reports.len() < schedule(highlight).len() ==> Run::start(highlight).after(
            reports,
        ).progress() == Progress::Next(schedule(highlight)[reports.len() as int]),
        reports.len() >= schedule(highlight).len() ==> Run::start(highlight).after(
            reports,
        ).progress() == Progress::Finished,
    decreases reports.len(),
{
    if reports.len() > 0 {
        let earlier = reports.drop_last();
        lemma_earlier_reports_ok(reports, reports.len() as int);
        lemma_tasks_run_in_order(highlight, earlier);
        assert(reports.last());
        assert(Run::start(highlight).after(reports) == Run::start(highlight).after(earlier).step(
            true,
        ));
    }
}

/// The first failure ends the render: where the task at index `at` is the
/// first to fail, the render has failed with that task's error, whatever is
/// reported afterwards.
pub proof fn lemma_first_failure_ends_render(highlight: bool, reports: Seq<bool>, at: int)
    requires
        0 <= at < reports.len(),
        at < schedule(highlight).len(),
        all_ok(reports, at),
        !reports[at],
    ensures
        Run::start(highlight).after(reports).progress() == Progress::Failed(
            failure_of(schedule(highlight)[at]),
        ),
        Run::start(highlight).after(reports) == (Run { highlight, done: at as nat, failed: true }),
    decreases reports.len(),
{
    let earlier = reports.drop_last();
    lemma_earlier_reports_ok(reports, at);
    if at == reports.len() - 1 {
        lemma_tasks_run_in_order(highlight, earlier);
        assert(Run::start(highlight).after(reports) == Run::start(highlight).after(earlier).step(
            false,
        ));
    } else {
        assert(earlier[at] == reports[at]);
        lemma_first_failure_ends_render(highlight, earlier, at);
        assert(Run::start(highlight).after(reports) == Run::start(highlight).after(earlier).step(
            reports.last(),
        ));
    }
}

/// The normal variant never touches what belongs to the highlight: neither
/// the highlight overlay nor the highlight typeface is among its tasks.
pub proof fn lemma_normal_loads_no_highlight(at: int)
    requires
        0 <= at < schedule(false).len(),
    ensures
        schedule(false)[at] != Task::Fetch(Asset::OverlayHighlight),
        schedule(false)[at] != Task::Fetch(Asset::FontHighlight),
        schedule(false)[at] != Task::ParseFont(TextStyle::Highlight),
{
}

/// Whether `task` is performed before the canvas is encoded.
pub open spec fn performed_before_encode(highlight: bool, task: Task) -> bool {
    exists|i: int| 0 <= i < schedule(highlight).len() - 1 && schedule(highlight)[i] == task
}

/// Encoding comes last, and by then everything the card shows has been
/// loaded: the background is decoded, each bundled graphic is fetched, and
/// the font of each style in which text is drawn is fetched and parsed.
pub proof fn lemma_scene_shows_only_what_was_loaded(
    text: Seq<char>,
    variant: Variant,
    background: ImageSize,
    measured: Length,
    at: int,
)
    requires
        0 <= at < scene(text, variant, background, measured).len(),
    ensures
        schedule(variant is Highlight).last() == Task::Encode,
        match scene(text, variant, background, measured)[at] {
            Mark::Image { picture: Picture::Background, .. } => performed_before_encode(
                variant is Highlight,
                Task::DecodeBackground,
            ),
            Mark::Image { picture: Picture::Bundled(asset), .. } => performed_before_encode(
                variant is Highlight,
                Task::Fetch(asset),
            ),
            Mark::Text { style, .. } => performed_before_encode(
                variant is Highlight,
                Task::Fetch(style.spec_font()),
            ) && performed_before_encode(variant is Highlight, Task::ParseFont(style)),
            _ => true,
        },
{
    let highlight = variant is Highlight;
    let tasks = schedule(highlight);
    assert(tasks[0] == Task::DecodeBackground);
    assert(tasks[1] == Task::Fetch(variant.overlay_asset()));
    assert(tasks[2] == Task::Fetch(TextStyle::Body.spec_font()));
    assert(tasks[3] == Task::ParseFont(TextStyle::Body));
    if highlight {
        assert(tasks[4] == Task::Fetch(TextStyle::Highlight.spec_font()));
        assert(tasks[5] == Task::ParseFont(TextStyle::Highlight));
    }
}

/// One render in progress.
#[derive(Debug)]
pub struct Render {
    highlight: bool,
    done: usize,
    failed: bool,
}

impl View for Render {
    type V = Run;

    closed spec fn view(&self) -> Run {
        Run { highlight: self.highlight, done: self.done as nat, failed: self.failed }
    }
}

impl Render {
    #[verifier::type_invariant]
    spec fn inv(self) -> bool {
        self@.wf()
    }

    /// A render of the given variant, of which nothing has been done yet.
    pub fn new(overlay: &OverlayType) -> (render: Render)
        ensures
            render@ == Run::start(overlay@ is Highlight),
    {
        let highlight = match overlay {
            OverlayType::Normal => false,
            OverlayType::Highlight(_) => true,
        };
        Render { highlight, done: 0, failed: false }
    }

    /// Where the render stands: the task to perform next, or how it ended.
    pub fn progress(&self) -> (progress: Progress)
        ensures
            progress == self@.progress(),
    {
        proof {
            use_type_invariant(self);
        }
        match task_at(self.highlight, self.done) {
            Some(task) => if self.failed {
                Progress::Failed(failure(task))
            } else {
                Progress::Next(task)
            },
            None => Progress::Finished,
        }
    }

    /// Takes the report on the pending task: `ok` where it went well. A
    /// success moves on to the next task, a failure ends the render. On a
    /// render that has ended a report changes nothing.
    pub fn report(&mut self, ok: bool)
        ensures
            final(self)@ == old(self)@.step(ok),
    {
        proof {
            use_type_invariant(&*self);
        }
        if !self.failed && task_at(self.highlight, self.done).is_some() {
            if ok {
                self.done = self.done + 1;
            } else {
                self.failed = true;
            }
        }
    }
}

/// The task at index `at` of the schedule, or `None` past its end.
pub fn task_at(highlight: bool, at: usize) -> (task: Option<Task>)
    ensures
        task == if at < schedule(highlight).len() {
            Some(schedule(highlight)[at as int])
        } else {
            None::<Task>
        },
{
    if at == 0 {
        Some(Task::DecodeBackground)
    } else if at == 1 {
        Some(Task::Fetch(if highlight { Asset::OverlayHighlight } else { Asset::OverlayNormal }))
    } else if at == 2 {
        Some(Task::Fetch(Asset::FontBody))
    } else if at == 3 {
        Some(Task::ParseFont(TextStyle::Body))
    } else if highlight && at == 4 {
        Some(Task::Fetch(Asset::FontHighlight))
    } else if highlight && at == 5 {
        Some(Task::ParseFont(TextStyle::Highlight))
    } else if (highlight && at == 6) || (!highlight && at == 4) {
        Some(Task::Encode)
    } else {
        None
    }
}

/// The error with which a render ends when `task` fails.
pub fn failure(task: Task) -> (error: RenderError)
    ensures
        error == failure_of(task),
{
    match task {
        Task::DecodeBackground => RenderError::ImageDecode,
        Task::Fetch(asset) => RenderError::AssetMissing(asset),
        Task::ParseFont(style) => RenderError::FontLoad(style.font()),
        Task::Encode => RenderError::Encode,
    }
}

} // verus!
