//! The decisions behind the editor's modal dialogs: the paste-size prompt,
//! the unsaved-changes prompt when a project closes, the exit prompt and the
//! chain of "Save As" dialogs that saving on exit may open.
//!
//! The dialogs themselves are drawn elsewhere; each frame, their button
//! clicks come here as events, and the flow answers with its next state and
//! the actions the editor must carry out. Each step is stated over the
//! flow's view ([`FlowView`]) by a spec function of the same name.

use vstd::prelude::*;
use crate::text::str_eq;

verus! {

/// What the editor must do after a dialog decision.
#[derive(Clone, Copy, Debug, PartialEq, Eq, Structural)]
pub enum ModalAction {
    /// Paste the pending clipboard image, expanding the canvas to fit it or not.
    ApplyPaste { expand_canvas: bool },
    /// Open the "Save As" dialog for a project.
    OpenSaveAs { project_index: usize },
    /// Close a project without saving it.
    ForceCloseProject { project_index: usize },
    /// Close the application window.
    CloseViewport,
}

/// What the exit flow needs to know of an open project.
pub struct ProjectStatus {
    pub name: String,
    /// The project has unsaved changes.
    pub is_dirty: bool,
    /// The project has a file to be saved to without asking.
    pub has_path: bool,
}

/// The state of the modal dialogs.
pub struct ModalFlow {
    /// A clipboard image larger than the canvas waits for a decision.
    pub pending_paste: bool,
    /// A project asked to close and waits for a decision on its changes.
    pub pending_close_index: Option<usize>,
    /// The user asked to exit and the exit prompt is showing.
    pub pending_exit: bool,
    /// Projects still to be saved under a new name before exiting.
    pub exit_save_queue: Vec<usize>,
    /// Exiting waits on the chain of "Save As" dialogs.
    pub exit_save_active: bool,
    /// The window is closing for good.
    pub force_exit: bool,
    /// Background saves still running.
    pub pending_io_ops: usize,
}

/// The mathematical state of a [`ModalFlow`].
pub struct FlowView {
    pub pending_paste: bool,
    pub pending_close_index: Option<usize>,
    pub pending_exit: bool,
    pub exit_save_queue: Seq<usize>,
    pub exit_save_active: bool,
    pub force_exit: bool,
    pub pending_io_ops: usize,
}

impl View for ModalFlow {
    type V = FlowView;

    open spec fn view(&self) -> FlowView {
        FlowView {
            pending_paste: self.pending_paste,
            pending_close_index: self.pending_close_index,
            pending_exit: self.pending_exit,
            exit_save_queue: self.exit_save_queue@,
            exit_save_active: self.exit_save_active,
            force_exit: self.force_exit,
            pending_io_ops: self.pending_io_ops,
        }
    }
}

impl FlowView {
    /// Only a running chain of "Save As" dialogs has projects queued.
    pub open spec fn wf(self) -> bool {
        !self.exit_save_active ==> self.exit_save_queue.len() == 0
    }
}

/// The indices, in increasing order, of the projects that have unsaved
/// changes and no file yet: those that saving on exit must ask about.
pub open spec fn untitled_dirty(projects: Seq<ProjectStatus>) -> Seq<usize>
    decreases projects.len(),
{
    if projects.len() == 0 {
        Seq::empty()
    } else {
        let last = projects.last();
        untitled_dirty(projects.drop_last()) + if last.is_dirty && !last.has_path {
            seq![(projects.len() - 1) as usize]
        } else {
            Seq::empty()
        }
    }
}

/// The names of the projects with unsaved changes, in order.
pub open spec fn dirty_names(projects: Seq<ProjectStatus>) -> Seq<Seq<char>>
    decreases projects.len(),
{
    if projects.len() == 0 {
        Seq::empty()
    } else {
        dirty_names(projects.drop_last()) + if projects.last().is_dirty {
            seq![projects.last().name@]
        } else {
            Seq::empty()
        }
    }
}

/// The paste-size prompt: `expand` and `keep` paste the waiting image, with
/// and without growing the canvas; any of the three buttons ends the prompt.
pub open spec fn paste_step(v: FlowView, expand: bool, keep: bool, cancel: bool) -> (
    FlowView,
    Option<ModalAction>,
) {
    if !v.pending_paste {
        (v, None)
    } else {
        let action = if expand {
            Some(ModalAction::ApplyPaste { expand_canvas: true })
        } else if keep {
            Some(ModalAction::ApplyPaste { expand_canvas: false })
        } else {
            None
        };
        (FlowView { pending_paste: !(expand || keep || cancel), ..v }, action)
    }
}

/// The unsaved-changes prompt of a closing project: `save` opens its "Save
/// As" dialog, `discard` closes it unsaved; any button ends the prompt.
pub open spec fn close_step(v: FlowView, save: bool, discard: bool, cancel: bool) -> (
    FlowView,
    Seq<ModalAction>,
) {
    match v.pending_close_index {
        None => (v, Seq::empty()),
        Some(index) => {
            let actions = (if save {
                seq![ModalAction::OpenSaveAs { project_index: index }]
            } else {
                Seq::empty()
            }) + (if discard {
                seq![ModalAction::ForceCloseProject { project_index: index }]
            } else {
                Seq::empty()
            });
            let still = if save || discard || cancel {
                None
            } else {
                Some(index)
            };
            (FlowView { pending_close_index: still, ..v }, actions)
        },
    }
}

/// The exit prompt, for the projects `before` as they stand when it shows.
/// When none of them has unsaved changes, the prompt shows no buttons and
/// closes the window at once. Otherwise: `save` comes after every project
/// with a file has been saved, `after_save` being the state of the projects
/// then; if no project still needs a name, the window closes, else the first
/// of them gets a "Save As" dialog and the rest wait in the queue. `exit`
/// closes the window without saving; any button ends the prompt.
pub open spec fn exit_step(
    v: FlowView,
    save: bool,
    exit: bool,
    cancel: bool,
    before: Seq<ProjectStatus>,
    after_save: Seq<ProjectStatus>,
) -> (FlowView, Seq<ModalAction>) {
    if !v.pending_exit {
        (v, Seq::empty())
    } else if dirty_names(before).len() == 0 {
        (FlowView { pending_exit: false, force_exit: true, ..v }, seq![ModalAction::CloseViewport])
    } else {
        let untitled = untitled_dirty(after_save);
        let (v1, a1) = if !save {
            (v, Seq::empty())
        } else if untitled.len() == 0 {
            (
                FlowView { pending_exit: false, force_exit: true, ..v },
                seq![ModalAction::CloseViewport],
            )
        } else {
            (
                FlowView {
                    pending_exit: false,
                    exit_save_queue: untitled.drop_first(),
                    exit_save_active: true,
                    ..v
                },
                seq![ModalAction::OpenSaveAs { project_index: untitled[0] }],
            )
        };
        let (v2, a2) = if exit {
            (
                FlowView { pending_exit: false, force_exit: true, ..v1 },
                seq![ModalAction::CloseViewport],
            )
        } else {
            (v1, Seq::empty())
        };
        let v3 = if cancel {
            FlowView { pending_exit: false, ..v2 }
        } else {
            v2
        };
        (v3, a1 + a2)
    }
}

/// The "Save As" dialog during an exit: a confirmed save moves on to the
/// next queued project, or closes the window when none is left; closing the
/// dialog without saving abandons the exit.
pub open spec fn save_dialog_step(v: FlowView, was_open: bool, confirmed: bool, now_open: bool) -> (
    FlowView,
    Seq<ModalAction>,
) {
    if !v.exit_save_active {
        (v, Seq::empty())
    } else if confirmed {
        if v.exit_save_queue.len() == 0 {
            (
                FlowView { exit_save_active: false, force_exit: true, ..v },
                seq![ModalAction::CloseViewport],
            )
        } else {
            (
                FlowView { exit_save_queue: v.exit_save_queue.drop_first(), ..v },
                seq![ModalAction::OpenSaveAs { project_index: v.exit_save_queue[0] }],
            )
        }
    } else if was_open && !now_open {
        (FlowView { exit_save_queue: Seq::empty(), exit_save_active: false, ..v }, Seq::empty())
    } else {
        (v, Seq::empty())
    }
}

impl ModalFlow {
    /// No dialog pending.
    pub fn new() -> (r: ModalFlow)
        ensures
            r@ == (FlowView {
                pending_paste: false,
                pending_close_index: None,
                pending_exit: false,
                exit_save_queue: Seq::empty(),
                exit_save_active: false,
                force_exit: false,
                pending_io_ops: 0,
            }),
    {
        ModalFlow {
            pending_paste: false,
            pending_close_index: None,
            pending_exit: false,
            exit_save_queue: Vec::new(),
            exit_save_active: false,
            force_exit: false,
            pending_io_ops: 0,
        }
    }

    /// Handles the buttons of the paste-size prompt.
    pub fn paste_choice(&mut self, expand: bool, keep: bool, cancel: bool) -> (r: Option<
        ModalAction,
    >)
        ensures
            final(self)@ == paste_step(old(self)@, expand, keep, cancel).0,
            r == paste_step(old(self)@, expand, keep, cancel).1,
            expand || keep || cancel ==> !final(self).pending_paste,
            !(expand || keep || cancel) ==> final(self).pending_paste == old(self).pending_paste
                && r is None,
            r is Some ==> old(self).pending_paste && (expand || keep) && r == Some(
                ModalAction::ApplyPaste { expand_canvas: expand },
            ),
            old(self).pending_paste && (expand || keep) ==> r is Some,
    {
        if !self.pending_paste {
            return None;
        }
        let mut action = None;
        if expand {
            self.pending_paste = false;
            action = Some(ModalAction::ApplyPaste { expand_canvas: true });
        }
        if keep && self.pending_paste {
            self.pending_paste = false;
            action = Some(ModalAction::ApplyPaste { expand_canvas: false });
        }
        if cancel {
            self.pending_paste = false;
        }
        action
    }

    /// Handles the buttons of a closing project's unsaved-changes prompt.
    pub fn close_choice(&mut self, save: bool, discard: bool, cancel: bool) -> (r: Vec<
        ModalAction,
    >)
        ensures
            final(self)@ == close_step(old(self)@, save, discard, cancel).0,
            r@ == close_step(old(self)@, save, discard, cancel).1,
            save || discard || cancel ==> final(self).pending_close_index is None,
            !(save || discard || cancel) ==> final(self).pending_close_index
                == old(self).pending_close_index && r@.len() == 0,
            old(self).pending_close_index matches Some(i) ==> (discard ==> r@.contains(
                ModalAction::ForceCloseProject { project_index: i },
            )),
            old(self).pending_close_index matches Some(i) ==> (save ==> r@.contains(
                ModalAction::OpenSaveAs { project_index: i },
            )),
            old(self).pending_close_index is None ==> r@.len() == 0,
    {
        let mut actions: Vec<ModalAction> = Vec::new();
        if let Some(index) = self.pending_close_index {
            if save {
                actions.push(ModalAction::OpenSaveAs { project_index: index });
                self.pending_close_index = None;
            }
            if discard {
                self.pending_close_index = None;
                actions.push(ModalAction::ForceCloseProject { project_index: index });
            }
            if cancel {
                self.pending_close_index = None;
            }
            assert(actions@ =~= close_step(old(self)@, save, discard, cancel).1);
            if save {
                assert(actions@[0] == ModalAction::OpenSaveAs { project_index: index });
            }
            if discard {
                assert(actions@[actions@.len() - 1] == ModalAction::ForceCloseProject {
                    project_index: index,
                });
            }
        }
        actions
    }

    /// Handles a frame of the exit prompt: `before` is the state of the
    /// projects as the prompt shows, `after_save` their state once a `save`
    /// has saved those that have a file. With nothing unsaved the prompt
    /// closes the window by itself.
    pub fn exit_choice(
        &mut self,
        save: bool,
        exit: bool,
        cancel: bool,
        before: &Vec<ProjectStatus>,
        after_save: &Vec<ProjectStatus>,
    ) -> (r: Vec<ModalAction>)
        ensures
            final(self)@ == exit_step(old(self)@, save, exit, cancel, before@, after_save@).0,
            r@ == exit_step(old(self)@, save, exit, cancel, before@, after_save@).1,
    {
        let mut actions: Vec<ModalAction> = Vec::new();
        if !self.pending_exit {
            return actions;
        }
        let dirty = dirty_project_names(before);
        if dirty.len() == 0 {
            assert(dirty_names(before@).len() == 0) by {
                assert(dirty@.map_values(|s: String| s@).len() == dirty@.len());
            }
            self.pending_exit = false;
            self.force_exit = true;
            actions.push(ModalAction::CloseViewport);
            assert(actions@ =~= seq![ModalAction::CloseViewport]);
            return actions;
        }
        assert(dirty_names(before@).len() > 0) by {
            assert(dirty@.map_values(|s: String| s@).len() == dirty@.len());
        }
        if save {
            let mut untitled = untitled_dirty_projects(after_save);
            self.pending_exit = false;
            if untitled.len() == 0 {
                self.force_exit = true;
                actions.push(ModalAction::CloseViewport);
            } else {
                let first: usize = untitled.remove(0);
                self.exit_save_queue = untitled;
                self.exit_save_active = true;
                actions.push(ModalAction::OpenSaveAs { project_index: first });
            }
        }
        if exit {
            self.pending_exit = false;
            self.force_exit = true;
            actions.push(ModalAction::CloseViewport);
        }
        if cancel {
            self.pending_exit = false;
        }
        assert(actions@ =~= exit_step(old(self)@, save, exit, cancel, before@, after_save@).1);
        assert(self@ =~= exit_step(old(self)@, save, exit, cancel, before@, after_save@).0);
        actions
    }

    /// Moves the exit's chain of "Save As" dialogs on, once the dialog has
    /// been shown this frame: `was_open` and `now_open` say whether it was
    /// open before and after, `confirmed` whether the user saved.
    pub fn save_dialog_step(&mut self, was_open: bool, confirmed: bool, now_open: bool) -> (r: Vec<
        ModalAction,
    >)
        ensures
            final(self)@ == save_dialog_step(old(self)@, was_open, confirmed, now_open).0,
            r@ == save_dialog_step(old(self)@, was_open, confirmed, now_open).1,
            !confirmed && !(was_open && !now_open) ==> final(self)@ == old(self)@ && r@.len()
                == 0,
            old(self).exit_save_active && confirmed && old(self).exit_save_queue@.len() > 0 ==> {
                &&& final(self).exit_save_queue@ == old(self).exit_save_queue@.drop_first()
                &&& final(self).exit_save_active
                &&& !final(self).force_exit || old(self).force_exit
                &&& r@ == seq![
                    ModalAction::OpenSaveAs { project_index: old(self).exit_save_queue@[0] },
                ]
            },
    {
        let mut actions: Vec<ModalAction> = Vec::new();
        if self.exit_save_active {
            if confirmed {
                if self.exit_save_queue.len() == 0 {
                    self.exit_save_active = false;
                    self.force_exit = true;
                    actions.push(ModalAction::CloseViewport);
                } else {
                    let next: usize = self.exit_save_queue.remove(0);
                    actions.push(ModalAction::OpenSaveAs { project_index: next });
                }
            } else if was_open && !now_open {
                self.exit_save_queue.clear();
                self.exit_save_active = false;
            }
        }
        assert(actions@ =~= save_dialog_step(old(self)@, was_open, confirmed, now_open).1);
        assert(self@ =~= save_dialog_step(old(self)@, was_open, confirmed, now_open).0);
        actions
    }

    /// Counts a background save that starts now; the answer says whether it
    /// is the first one running, whose start time the status bar shows.
    pub fn begin_io_op(&mut self) -> (first: bool)
        requires
            old(self).pending_io_ops < usize::MAX,
        ensures
            first == (old(self).pending_io_ops == 0),
            final(self)@ == (FlowView { pending_io_ops: (old(self).pending_io_ops + 1) as usize, ..old(self)@ }),
    {
        let first = self.pending_io_ops == 0;
        self.pending_io_ops = self.pending_io_ops + 1;
        first
    }

    /// Whether some modal dialog is showing, so that the canvas must not
    /// take input: one of the dialogs named by the arguments, or the paste
    /// prompt.
    pub fn any_modal_open(
        &self,
        welcome_open: bool,
        save_dialog_open: bool,
        new_file_dialog_open: bool,
        other_dialog_open: bool,
    ) -> (r: bool)
        ensures
            r == (welcome_open || save_dialog_open || new_file_dialog_open || other_dialog_open
                || self.pending_paste),
    {
        welcome_open || save_dialog_open || new_file_dialog_open || other_dialog_open
            || self.pending_paste
    }
}

/// The indices of the projects with unsaved changes and no file, in order.
pub fn untitled_dirty_projects(projects: &Vec<ProjectStatus>) -> (r: Vec<usize>)
    ensures
        r@ == untitled_dirty(projects@),
{
    let n: usize = projects.len();
    let mut r: Vec<usize> = Vec::new();
    let mut i: usize = 0;
    while i < n
        invariant
            n == projects@.len(),
            i <= n,
            r@ == untitled_dirty(projects@.take(i as int)),
        decreases n - i,
    {
        assert(projects@.take(i + 1).drop_last() =~= projects@.take(i as int));
        if projects[i].is_dirty && !projects[i].has_path {
            r.push(i);
        }
        i = i + 1;
        assert(r@ =~= untitled_dirty(projects@.take(i as int)));
    }
    assert(projects@.take(n as int) =~= projects@);
    r
}

/// The names of the projects with unsaved changes, in order.
pub fn dirty_project_names(projects: &Vec<ProjectStatus>) -> (r: Vec<String>)
    ensures
        r@.map_values(|s: String| s@) == dirty_names(projects@),
{
    let n: usize = projects.len();
    let mut r: Vec<String> = Vec::new();
    let mut i: usize = 0;
    while i < n
        invariant
            n == projects@.len(),
            i <= n,
            r@.map_values(|s: String| s@) == dirty_names(projects@.take(i as int)),
        decreases n - i,
    {
        assert(projects@.take(i + 1).drop_last() =~= projects@.take(i as int));
        if projects[i].is_dirty {
            r.push(projects[i].name.clone());
        }
        i = i + 1;
        assert(r@.map_values(|s: String| s@) =~= dirty_names(projects@.take(i as int)));
    }
    assert(projects@.take(n as int) =~= projects@);
    r
}

/// How many dirty project names the exit prompt lists before summing up
/// the rest.
pub const EXIT_PROMPT_LISTED: usize = 3;

/// What the exit prompt says about the projects with unsaved changes.
pub enum ExitPrompt {
    /// Nothing is unsaved: the window closes without asking.
    NothingUnsaved,
    /// One project is unsaved; it is named.
    OneUnsaved { name: String },
    /// Several are unsaved: their count, the first names, and how many more.
    ManyUnsaved { count: usize, listed: Vec<String>, more: usize },
}

/// The exit prompt for the names of the projects with unsaved changes.
pub fn exit_prompt(dirty: Vec<String>) -> (r: ExitPrompt)
    ensures
        dirty@.len() == 0 ==> r is NothingUnsaved,
        dirty@.len() == 1 ==> (r matches ExitPrompt::OneUnsaved { name } && name == dirty@[0]),
        dirty@.len() >= 2 ==> (r matches ExitPrompt::ManyUnsaved { count, listed, more } && {
            &&& count == dirty@.len()
            &&& listed@ == dirty@.take(
                if dirty@.len() < EXIT_PROMPT_LISTED {
                    dirty@.len() as int
                } else {
                    EXIT_PROMPT_LISTED as int
                },
            )
            &&& more == if dirty@.len() > EXIT_PROMPT_LISTED {
                dirty@.len() - EXIT_PROMPT_LISTED
            } else {
                0
            }
        }),
{
    let count: usize = dirty.len();
    if count == 0 {
        return ExitPrompt::NothingUnsaved;
    }
    let mut dirty = dirty;
    if count == 1 {
        let name = dirty.remove(0);
        return ExitPrompt::OneUnsaved { name };
    }
    let more: usize = count.saturating_sub(EXIT_PROMPT_LISTED);
    let ghost all = dirty@;
    dirty.truncate(EXIT_PROMPT_LISTED);
    assert(dirty@ =~= all.take(
        if all.len() < EXIT_PROMPT_LISTED {
            all.len() as int
        } else {
            EXIT_PROMPT_LISTED as int
        },
    ));
    ExitPrompt::ManyUnsaved { count, listed: dirty, more }
}

/// Where a confirmed save goes.
#[derive(Clone, Copy, Debug, PartialEq, Eq, Structural)]
pub enum SaveRoute {
    /// The editor's own project format, with every layer.
    ProjectFile,
    /// An animated image, one frame per layer.
    AnimatedImage,
    /// A flattened image.
    FlatImage,
}

/// Where a confirmed save of project `project_index` goes: nowhere when the
/// project no longer exists, to the project format when it was chosen, to an
/// animation when one was asked for in a format that has them, else to a
/// flattened image.
pub fn save_route(
    project_index: usize,
    project_count: usize,
    project_format: bool,
    animated: bool,
    format_supports_animation: bool,
) -> (r: Option<SaveRoute>)
    ensures
        r == if project_index >= project_count {
            None
        } else if project_format {
            Some(SaveRoute::ProjectFile)
        } else if animated && format_supports_animation {
            Some(SaveRoute::AnimatedImage)
        } else {
            Some(SaveRoute::FlatImage)
        },
{
    if project_index >= project_count {
        None
    } else if project_format {
        Some(SaveRoute::ProjectFile)
    } else if animated && format_supports_animation {
        Some(SaveRoute::AnimatedImage)
    } else {
        Some(SaveRoute::FlatImage)
    }
}

/// Whether the ONNX runtime is worth probing: both its library path and
/// the model path are set.
pub fn onnx_probe_wanted(runtime_path: &str, model_path: &str) -> (r: bool)
    ensures
        r == (runtime_path@.len() > 0 && model_path@.len() > 0),
{
    !runtime_path.is_empty() && !model_path.is_empty()
}

/// What the editor remembers of the last ONNX probe: the runtime and model
/// paths it was made for, and whether background removal is available.
pub struct OnnxProbe {
    pub last_runtime_path: String,
    pub last_model_path: String,
    pub available: bool,
}

impl OnnxProbe {
    /// The settings' paths as they stand this frame. When they differ from
    /// those last seen they are remembered and the availability is reset; the
    /// answer says whether the runtime must now be probed (both paths set),
    /// after which [`OnnxProbe::record_probe`] takes the outcome. Unchanged
    /// paths change nothing and ask for no probe.
    pub fn paths_seen(&mut self, runtime_path: &str, model_path: &str) -> (probe: bool)
        ensures
            ({
                let changed = !(old(self).last_runtime_path@ == runtime_path@
                    && old(self).last_model_path@ == model_path@);
                &&& changed ==> {
                    &&& final(self).last_runtime_path@ == runtime_path@
                    &&& final(self).last_model_path@ == model_path@
                    &&& !final(self).available
                    &&& probe == (runtime_path@.len() > 0 && model_path@.len() > 0)
                }
                &&& !changed ==> {
                    &&& final(self).last_runtime_path == old(self).last_runtime_path
                    &&& final(self).last_model_path == old(self).last_model_path
                    &&& final(self).available == old(self).available
                    &&& !probe
                }
            }),
    {
        if str_eq(self.last_runtime_path.as_str(), runtime_path) && str_eq(
            self.last_model_path.as_str(),
            model_path,
        ) {
            return false;
        }
        self.last_runtime_path = runtime_path.to_owned();
        self.last_model_path = model_path.to_owned();
        self.available = false;
        onnx_probe_wanted(runtime_path, model_path)
    }

    /// The outcome of a probe that [`OnnxProbe::paths_seen`] asked for:
    /// background removal is available when the runtime loads and the model
    /// file exists.
    pub fn record_probe(&mut self, runtime_loads: bool, model_exists: bool)
        ensures
            final(self).available == (runtime_loads && model_exists),
            final(self).last_runtime_path == old(self).last_runtime_path,
            final(self).last_model_path == old(self).last_model_path,
    {
        self.available = runtime_loads && model_exists;
    }
}

/// What a project remembers of how it was last saved, for the next save.
/// The frame rate and the GIF palette size and dithering are kept in the
/// editor's own types (`Fps`, `Colors`, `Dither`), which this module only
/// stores.
pub struct SaveMemory<Fps, Colors, Dither> {
    /// The last save was an animation.
    pub last_animated: bool,
    /// The last WebP save was lossless.
    pub last_webp_lossless: bool,
    /// The frame rate of the last animated save.
    pub last_animation_fps: Fps,
    /// The GIF palette size of the last animated save.
    pub last_gif_colors: Colors,
    /// The GIF dithering of the last animated save.
    pub last_gif_dither: Dither,
    /// The project has been saved as an animation.
    pub was_animated: bool,
    /// The project's animation frame rate.
    pub animation_fps: Fps,
}

/// The animation options of a save: frame rate, GIF palette size and GIF
/// dithering.
pub struct AnimationOptions<Fps, Colors, Dither> {
    pub fps: Fps,
    pub gif_colors: Colors,
    pub gif_dither: Dither,
}

impl<Fps: Copy, Colors, Dither> SaveMemory<Fps, Colors, Dither> {
    /// Records a confirmed save that went `route`. An animation records that
    /// the last save was animated, its WebP lossless choice, its frame rate
    /// and GIF options, and marks the project as animated with that frame
    /// rate. A flattened image records that the last save was not animated
    /// and its WebP lossless choice, and keeps the rest. A save in the project
    /// format changes nothing here.
    pub fn remember(
        &mut self,
        route: SaveRoute,
        webp_lossless: bool,
        animation: AnimationOptions<Fps, Colors, Dither>,
    )
        ensures
            route == SaveRoute::ProjectFile ==> *final(self) == *old(self),
            route == SaveRoute::AnimatedImage ==> *final(self) == (SaveMemory {
                last_animated: true,
                last_webp_lossless: webp_lossless,
                last_animation_fps: animation.fps,
                last_gif_colors: animation.gif_colors,
                last_gif_dither: animation.gif_dither,
                was_animated: true,
                animation_fps: animation.fps,
            }),
            route == SaveRoute::FlatImage ==> *final(self) == (SaveMemory {
                last_animated: false,
                last_webp_lossless: webp_lossless,
                ..*old(self)
            }),
    {
        match route {
            SaveRoute::ProjectFile => {},
            SaveRoute::AnimatedImage => {
                self.last_animated = true;
                self.last_webp_lossless = webp_lossless;
                self.last_animation_fps = animation.fps;
                self.last_gif_colors = animation.gif_colors;
                self.last_gif_dither = animation.gif_dither;
                self.was_animated = true;
                self.animation_fps = animation.fps;
            },
            SaveRoute::FlatImage => {
                self.last_animated = false;
                self.last_webp_lossless = webp_lossless;
            },
        }
    }
}

/// What a save records once it is written: the format, the quality, the
/// WebP lossless choice and the TIFF compression, the format and compression
/// being the editor's own types.
pub struct SaveReport<Format, Tiff> {
    pub format: Format,
    pub quality: u8,
    pub webp_lossless: bool,
    pub tiff_compression: Tiff,
}

/// What a finished save job reports: for the project format, that format at
/// quality 100, lossless, with `uncompressed` TIFF compression; for an
/// animation or a flattened image, the options the user chose.
pub fn completed_save_report<Format, Tiff>(
    route: SaveRoute,
    chosen: SaveReport<Format, Tiff>,
    project_format: Format,
    uncompressed: Tiff,
) -> (r: SaveReport<Format, Tiff>)
    ensures
        route == SaveRoute::ProjectFile ==> r == (SaveReport {
            format: project_format,
            quality: 100,
            webp_lossless: true,
            tiff_compression: uncompressed,
        }),
        route != SaveRoute::ProjectFile ==> r == chosen,
{
    match route {
        SaveRoute::ProjectFile => SaveReport {
            format: project_format,
            quality: 100,
            webp_lossless: true,
            tiff_compression: uncompressed,
        },
        _ => chosen,
    }
}

/// The first-run welcome popup (web only).
pub struct WelcomePopup {
    pub showing: bool,
}

impl WelcomePopup {
    /// A frame of the popup, `dismissed` being a click on "Got it" (only a
    /// showing popup has one). A dismissal hides the popup for good; the
    /// answer says whether to record it in the browser, so that it never
    /// shows again there.
    pub fn frame(&mut self, dismissed: bool) -> (record_dismissal: bool)
        ensures
            record_dismissal == (old(self).showing && dismissed),
            final(self).showing == (old(self).showing && !dismissed),
    {
        if !self.showing {
            return false;
        }
        if dismissed {
            self.showing = false;
            return true;
        }
        false
    }
}

/// A color channel scaled by `alpha / 255`, rounding down: the translucent
/// tints of the welcome popup, independent of the color's own alpha.
pub fn tint_channel(channel: u8, alpha: u8) -> (r: u8)
    ensures
        r == channel * alpha / 255,
{
    assert(channel * alpha <= 255 * 255) by (nonlinear_arith)
        requires
            channel <= 255,
            alpha <= 255,
    ;
    let product: u16 = (channel as u16) * (alpha as u16);
    (product / 255) as u8
}

/// The flow after `n` frames in which the exit's "Save As" dialog was
/// confirmed, with the actions of those frames in order.
pub open spec fn confirm_saves(v: FlowView, n: nat) -> (FlowView, Seq<ModalAction>)
    decreases n,
{
    if n == 0 {
        (v, Seq::empty())
    } else {
        let (v1, a1) = save_dialog_step(v, true, true, false);
        let (v2, a2) = confirm_saves(v1, (n - 1) as nat);
        (v2, a1 + a2)
    }
}

/// One "Save As" dialog per project index, in order.
pub open spec fn save_as_each(indices: Seq<usize>) -> Seq<ModalAction> {
    indices.map_values(|i: usize| ModalAction::OpenSaveAs { project_index: i })
}

/// Law: no step of the flow leaves projects queued for saving once the
/// chain of "Save As" dialogs has stopped.
pub proof fn lemma_steps_keep_queue_rule(
    v: FlowView,
    a: bool,
    b: bool,
    c: bool,
    before: Seq<ProjectStatus>,
    after_save: Seq<ProjectStatus>,
)
    requires
        v.wf(),
    ensures
        paste_step(v, a, b, c).0.wf(),
        close_step(v, a, b, c).0.wf(),
        exit_step(v, a, b, c, before, after_save).0.wf(),
        save_dialog_step(v, a, b, c).0.wf(),
{
}

/// Law: once the chain of "Save As" dialogs runs with queue `q`, confirming
/// the dialog `q.len() + 1` times asks for every queued project in order and
/// then closes the window, leaving nothing queued.
pub proof fn lemma_confirmed_chain_saves_queue_then_exits(v: FlowView)
    requires
        v.exit_save_active,
    ensures
        confirm_saves(v, v.exit_save_queue.len() + 1).1 == save_as_each(v.exit_save_queue)
            + seq![ModalAction::CloseViewport],
        confirm_saves(v, v.exit_save_queue.len() + 1).0.force_exit,
        !confirm_saves(v, v.exit_save_queue.len() + 1).0.exit_save_active,
        confirm_saves(v, v.exit_save_queue.len() + 1).0.exit_save_queue.len() == 0,
        confirm_saves(v, v.exit_save_queue.len() + 1).0.pending_exit == v.pending_exit,
    decreases v.exit_save_queue.len(),
{
    let q = v.exit_save_queue;
    if q.len() == 0 {
        let (v1, a1) = save_dialog_step(v, true, true, false);
        assert(confirm_saves(v1, 0).1 =~= Seq::<ModalAction>::empty());
        assert(save_as_each(q) =~= Seq::<ModalAction>::empty());
        assert(confirm_saves(v, 1).1 =~= a1 + Seq::<ModalAction>::empty());
    } else {
        let (v1, a1) = save_dialog_step(v, true, true, false);
        assert(v1.exit_save_queue == q.drop_first());
        lemma_confirmed_chain_saves_queue_then_exits(v1);
        assert((q.len() + 1) as nat - 1 == v1.exit_save_queue.len() + 1);
        let tail = confirm_saves(v1, v1.exit_save_queue.len() + 1).1;
        assert(confirm_saves(v, q.len() + 1).1 == a1 + tail);
        assert(save_as_each(q) =~= seq![ModalAction::OpenSaveAs { project_index: q[0] }]
            + save_as_each(q.drop_first()));
        assert(a1 + tail =~= save_as_each(q) + seq![ModalAction::CloseViewport]);
    }
}

/// Law: choosing "Save" at the exit prompt, then saving in every "Save As"
/// dialog that follows, asks once for each project that has unsaved changes
/// and no file, in order, and then closes the window (starting with no such
/// chain running, and with the prompt showing its buttons, that is, with
/// some project unsaved).
pub proof fn lemma_save_on_exit_asks_each_untitled_project(
    v: FlowView,
    before: Seq<ProjectStatus>,
    after_save: Seq<ProjectStatus>,
)
    requires
        v.pending_exit,
        dirty_names(before).len() > 0,
        !v.exit_save_active,
        v.wf(),
    ensures
        ({
            let untitled = untitled_dirty(after_save);
            let (v1, a1) = exit_step(v, true, false, false, before, after_save);
            let (v2, a2) = confirm_saves(v1, untitled.len());
            &&& a1 + a2 == save_as_each(untitled) + seq![ModalAction::CloseViewport]
            &&& v2.force_exit
            &&& !v2.pending_exit
            &&& v2.exit_save_queue.len() == 0
        }),
{
    let untitled = untitled_dirty(after_save);
    let (v1, a1) = exit_step(v, true, false, false, before, after_save);
    if untitled.len() == 0 {
        assert(a1 + confirm_saves(v1, 0).1 =~= save_as_each(untitled) + seq![ModalAction::CloseViewport]);
    } else {
        lemma_confirmed_chain_saves_queue_then_exits(v1);
        assert(untitled.len() == v1.exit_save_queue.len() + 1);
        let a2 = confirm_saves(v1, untitled.len()).1;
        assert(save_as_each(untitled) =~= seq![ModalAction::OpenSaveAs { project_index: untitled[0] }]
            + save_as_each(untitled.drop_first()));
        assert(a1 + a2 =~= save_as_each(untitled) + seq![ModalAction::CloseViewport]);
    }
}

/// Law: `untitled_dirty` lists, in strictly increasing order, exactly the
/// indices of the projects that have unsaved changes and no file.
pub proof fn lemma_untitled_dirty_members(projects: Seq<ProjectStatus>)
    requires
        projects.len() <= usize::MAX,
    ensures
        forall|i: int|
            0 <= i < projects.len() ==> (untitled_dirty(projects).contains(i as usize) <==> (
            projects[i].is_dirty && !projects[i].has_path)),
        forall|j: int|
            0 <= j < untitled_dirty(projects).len() ==> #[trigger] untitled_dirty(projects)[j]
                < projects.len(),
        forall|j: int, k: int|
            0 <= j < k < untitled_dirty(projects).len() ==> untitled_dirty(projects)[j]
                < untitled_dirty(projects)[k],
    decreases projects.len(),
{
    if projects.len() > 0 {
        let init: Seq<ProjectStatus> = projects.drop_last();
        lemma_untitled_dirty_members(init);
        let u = untitled_dirty(projects);
        let ui = untitled_dirty(init);
        assert forall|i: int| 0 <= i < projects.len() implies (u.contains(i as usize) <==> (
        projects[i].is_dirty && !projects[i].has_path)) by {
            if i < init.len() {
                assert(init[i] == projects[i]);
                if ui.contains(i as usize) {
                    let t = choose|t: int| 0 <= t < ui.len() && ui[t] == i as usize;
                    assert(u[t] == i as usize);
                }
                if u.contains(i as usize) {
                    let t = choose|t: int| 0 <= t < u.len() && u[t] == i as usize;
                    if t < ui.len() {
                        assert(ui[t] == i as usize);
                    } else {
                        assert(u[t] == (projects.len() - 1) as usize);
                    }
                }
            } else {
                if projects[i].is_dirty && !projects[i].has_path {
                    assert(u[ui.len() as int] == i as usize);
                } else {
                    assert(u =~= ui);
                    if u.contains(i as usize) {
                        let t = choose|t: int| 0 <= t < ui.len() && ui[t] == i as usize;
                        assert(ui[t] < init.len());
                    }
                }
            }
        }
    }
}

/// Law: when nothing is unsaved, the exit prompt closes the window at once,
/// whatever the projects become and whatever else happens in the frame.
pub proof fn lemma_exit_with_nothing_unsaved_closes(
    v: FlowView,
    save: bool,
    exit: bool,
    cancel: bool,
    before: Seq<ProjectStatus>,
    after_save: Seq<ProjectStatus>,
)
    requires
        v.pending_exit,
        forall|i: int| 0 <= i < before.len() ==> !(#[trigger] before[i]).is_dirty,
    ensures
        exit_step(v, save, exit, cancel, before, after_save) == (
            FlowView { pending_exit: false, force_exit: true, ..v },
            seq![ModalAction::CloseViewport],
        ),
{
    lemma_clean_projects_have_no_dirty_names(before);
}

/// Projects none of which has unsaved changes have no dirty names.
proof fn lemma_clean_projects_have_no_dirty_names(projects: Seq<ProjectStatus>)
    requires
        forall|i: int| 0 <= i < projects.len() ==> !(#[trigger] projects[i]).is_dirty,
    ensures
        dirty_names(projects).len() == 0,
    decreases projects.len(),
{
    if projects.len() > 0 {
        let init = projects.drop_last();
        assert forall|i: int| 0 <= i < init.len() implies !(#[trigger] init[i]).is_dirty by {
            assert(init[i] == projects[i]);
        }
        lemma_clean_projects_have_no_dirty_names(init);
        assert(!projects[projects.len() - 1].is_dirty);
    }
}

/// Law: any button of the paste-size prompt ends it, so a waiting image is
/// pasted at most once; "Expand Canvas" and "Keep Canvas" paste it, growing
/// the canvas exactly for the first; a frame without a click changes nothing.
pub proof fn lemma_paste_prompt_buttons(v: FlowView, expand: bool, keep: bool, cancel: bool)
    ensures
        expand || keep || cancel ==> !paste_step(v, expand, keep, cancel).0.pending_paste,
        !(expand || keep || cancel) ==> paste_step(v, expand, keep, cancel) == (v, None::<ModalAction>),
        paste_step(v, expand, keep, cancel).1 is Some <==> v.pending_paste && (expand || keep),
        paste_step(v, expand, keep, cancel).1 is Some ==> paste_step(v, expand, keep, cancel).1
            == Some(ModalAction::ApplyPaste { expand_canvas: expand }),
        paste_step(v, expand, keep, cancel).0.exit_save_queue == v.exit_save_queue,
        paste_step(v, expand, keep, cancel).0.pending_close_index == v.pending_close_index,
        paste_step(v, expand, keep, cancel).0.pending_exit == v.pending_exit,
{
}

/// Law: any button of a closing project's unsaved-changes prompt ends it;
/// "Save" asks for that project's "Save As", "Don't Save" closes that
/// project; a frame without a click changes nothing.
pub proof fn lemma_close_prompt_buttons(v: FlowView, save: bool, discard: bool, cancel: bool)
    ensures
        save || discard || cancel ==> close_step(v, save, discard, cancel).0.pending_close_index
            is None,
        !(save || discard || cancel) ==> close_step(v, save, discard, cancel) == (
            v,
            Seq::<ModalAction>::empty(),
        ),
        v.pending_close_index matches Some(i) ==> (discard ==> close_step(
            v,
            save,
            discard,
            cancel,
        ).1.contains(ModalAction::ForceCloseProject { project_index: i })),
        v.pending_close_index matches Some(i) ==> (save ==> close_step(
            v,
            save,
            discard,
            cancel,
        ).1.contains(ModalAction::OpenSaveAs { project_index: i })),
        v.pending_close_index is None ==> close_step(v, save, discard, cancel).1.len() == 0,
        close_step(v, save, discard, cancel).0.pending_paste == v.pending_paste,
        close_step(v, save, discard, cancel).0.exit_save_queue == v.exit_save_queue,
{
    if let Some(i) = v.pending_close_index {
        let a = close_step(v, save, discard, cancel).1;
        if save {
            assert(a[0] == ModalAction::OpenSaveAs { project_index: i });
        }
        if discard {
            assert(a[a.len() - 1] == ModalAction::ForceCloseProject { project_index: i });
        }
    }
}

/// Law: a frame of the exit's "Save As" chain in which the dialog was
/// neither confirmed nor closed leaves the whole flow, queue included,
/// unchanged and asks for nothing; a confirmed save asks for exactly the
/// first queued project and removes it from the queue.
pub proof fn lemma_save_chain_moves_only_on_confirm_or_close(
    v: FlowView,
    was_open: bool,
    confirmed: bool,
    now_open: bool,
)
    ensures
        !confirmed && !(was_open && !now_open) ==> save_dialog_step(
            v,
            was_open,
            confirmed,
            now_open,
        ) == (v, Seq::<ModalAction>::empty()),
        v.exit_save_active && confirmed && v.exit_save_queue.len() > 0 ==> {
            let (w, a) = save_dialog_step(v, was_open, confirmed, now_open);
            &&& w.exit_save_queue == v.exit_save_queue.drop_first()
            &&& w.exit_save_active
            &&& w.force_exit == v.force_exit
            &&& a == seq![ModalAction::OpenSaveAs { project_index: v.exit_save_queue[0] }]
        },
        v.exit_save_active && !confirmed && was_open && !now_open ==> {
            let (w, a) = save_dialog_step(v, was_open, confirmed, now_open);
            &&& w.exit_save_queue.len() == 0
            &&& !w.exit_save_active
            &&& w.force_exit == v.force_exit
            &&& a.len() == 0
        },
{
}

} // verus!
