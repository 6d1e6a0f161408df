//! A whole run, step by step.
//!
//! A run reads and writes files, which this library does not do itself.
//! [`Run`] holds the decisions instead: it tells its caller what to do next
//! as an [`Action`], and is told how that went as an [`Outcome`]. The caller
//! performs each action and hands the outcome back to [`Run::advance`] until
//! the action is [`Action::Finish`] or [`Action::Abort`].

use crate::error::CompositorError;
use crate::geometry::PlacementPolicy;
use crate::naming::{
    output_directory, output_path, output_path_for, resolve_output_directory, text_of, NamingScheme,
};
use crate::normalize::{normalize_failure, normalize_profile_picture, normalized_from};
use crate::overlay::{icon_too_large, iconified, with_icon};
use image::DynamicImage;
use vstd::prelude::*;

verus! {

/// What a run was asked to do.
pub struct Job {
    /// The path of the profile picture.
    pub profile_picture_path: String,
    /// The directory for the output files, if one was asked for.
    pub out_dir: Option<String>,
    /// The paths of the icons, in the order in which they are processed.
    pub icon_paths: Vec<String>,
}

/// The choices that a run leaves open.
#[derive(Clone, Copy, Debug)]
pub struct Settings {
    /// Where on the profile picture the icon goes.
    pub placement: PlacementPolicy,
    /// How the output files are named.
    pub naming: NamingScheme,
    /// Whether the profile picture is rendered in shades of gray.
    pub grayscale: bool,
}

impl Default for Settings {
    /// The padded placement, output files named after the icon alone, and a
    /// gray profile picture.
    fn default() -> (settings: Settings)
        ensures
            settings.placement == PlacementPolicy::PaddedNonant,
            settings.naming == NamingScheme::IconStem,
            settings.grayscale,
    {
        Settings {
            placement: PlacementPolicy::PaddedNonant,
            naming: NamingScheme::IconStem,
            grayscale: true,
        }
    }
}

/// What the caller of a run is to do next.
pub enum Action {
    /// Create the directory `path` and all its missing parents.
    CreateOutputDirectory { path: String },
    /// Read and decode the profile picture at `path`.
    LoadProfilePicture { path: String },
    /// Read and decode the icon at `path`.
    LoadIcon { path: String },
    /// Encode `picture` as PNG and write it to `path`.
    Save { path: String, picture: DynamicImage },
    /// The run is complete.
    Finish,
    /// The run has failed: report `error` and stop.
    Abort { error: CompositorError },
}

/// How the last action went.
pub enum Outcome {
    /// The action was carried out and had nothing to hand back.
    Done,
    /// The picture that the action was to load.
    Loaded(DynamicImage),
    /// The action could not be carried out.
    Failed,
}

/// Where a run stands: which outcome it is waiting for.
pub enum Stage {
    /// The output directory is being created.
    CreatingDirectory,
    /// The profile picture is being loaded.
    LoadingProfilePicture,
    /// The icon at position `index` is being loaded; `template` is the
    /// normalized profile picture.
    LoadingIcon { template: DynamicImage, index: usize },
    /// The picture for the icon at position `index` is being saved.
    Saving { template: DynamicImage, index: usize },
    /// Every icon has been processed.
    Finished,
    /// The run has failed.
    Aborted { error: CompositorError },
}

/// A run in progress.
pub struct Run {
    job: Job,
    settings: Settings,
    out_dir: String,
    stage: Stage,
}

/// The error with which a run aborts when the action that it waits for at
/// `stage` fails. A run that is over waits for nothing.
pub open spec fn failure_at(stage: Stage) -> Option<CompositorError> {
    match stage {
        Stage::CreatingDirectory => Some(CompositorError::OutputDirectory),
        Stage::LoadingProfilePicture => Some(CompositorError::Decode),
        Stage::LoadingIcon { .. } => Some(CompositorError::Decode),
        Stage::Saving { .. } => Some(CompositorError::Write),
        Stage::Finished => None,
        Stage::Aborted { .. } => None,
    }
}

/// The run has failed with `error`, and says so.
pub open spec fn aborts_with(post: Run, action: Action, error: CompositorError) -> bool {
    post.stage() == (Stage::Aborted { error }) && action == (Action::Abort { error })
}

/// With `template` as the normalized profile picture, the run turns to the
/// icon at position `index`, or finishes if there is none.
pub open spec fn turns_to_icon(
    post: Run,
    action: Action,
    template: DynamicImage,
    index: int,
) -> bool {
    if index < post.job().icon_paths.len() {
        &&& post.stage() == (Stage::LoadingIcon { template, index: index as usize })
        &&& action matches Action::LoadIcon { path }
        &&& path@ == post.job().icon_paths[index]@
    } else {
        post.stage() == Stage::Finished && action == Action::Finish
    }
}

/// One step of a run: told `outcome` at `pre`, the run goes on as `post`
/// and asks for `action`.
pub open spec fn advances(pre: Run, outcome: Outcome, post: Run, action: Action) -> bool {
    &&& post.job() == pre.job()
    &&& post.settings() == pre.settings()
    &&& post.out_dir() == pre.out_dir()
    &&& match (pre.stage(), outcome) {
        (Stage::CreatingDirectory, Outcome::Done) => {
            &&& post.stage() == Stage::LoadingProfilePicture
            &&& action matches Action::LoadProfilePicture { path }
            &&& path@ == pre.job().profile_picture_path@
        },
        (Stage::LoadingProfilePicture, Outcome::Loaded(picture)) => match normalize_failure(
            picture,
            pre.settings().grayscale,
        ) {
            Some(error) => aborts_with(post, action, error),
            None => exists|template: DynamicImage| #[trigger]
                normalized_from(picture, pre.settings().grayscale, template) && turns_to_icon(
                    post,
                    action,
                    template,
                    0,
                ),
        },
        (Stage::LoadingIcon { template, index }, Outcome::Loaded(icon)) => if icon_too_large(
            template,
            icon,
            pre.settings().placement,
        ) {
            aborts_with(post, action, CompositorError::ImageTooLarge)
        } else {
            match output_path(
                pre.settings().naming,
                pre.out_dir()@,
                pre.job().profile_picture_path@,
                pre.job().icon_paths[index as int]@,
            ) {
                None => aborts_with(post, action, CompositorError::MissingFileStem),
                Some(target) => {
                    &&& post.stage() == (Stage::Saving { template, index })
                    &&& action matches Action::Save { path, picture }
                    &&& path@ == target
                    &&& iconified(template, icon, pre.settings().placement, picture)
                },
            }
        },
        (Stage::Saving { template, index }, Outcome::Done) => turns_to_icon(
            post,
            action,
            template,
            index + 1,
        ),
        (Stage::Finished, _) => post.stage() == Stage::Finished && action == Action::Finish,
        (Stage::Aborted { error }, _) => aborts_with(post, action, error),
        (stage, _) => failure_at(stage) matches Some(error) && aborts_with(post, action, error),
    }
}

/// Whether a run at `stage` has come to its end.
pub open spec fn is_final(stage: Stage) -> bool {
    stage is Finished || stage is Aborted
}

/// A failure at any point before the end aborts the run, with the error
/// that belongs to the action that failed.
pub proof fn lemma_failure_aborts(pre: Run, post: Run, action: Action)
    requires
        advances(pre, Outcome::Failed, post, action),
        !is_final(pre.stage()),
    ensures
        failure_at(pre.stage()) matches Some(error) && aborts_with(post, action, error),
{
}

/// A run that is over stays as it is, and repeats its last word.
pub proof fn lemma_final_stage_stays(pre: Run, outcome: Outcome, post: Run, action: Action)
    requires
        advances(pre, outcome, post, action),
        is_final(pre.stage()),
    ensures
        post.stage() == pre.stage(),
        pre.stage() is Finished ==> action == Action::Finish,
        pre.stage() matches Stage::Aborted { error } ==> action == (Action::Abort { error }),
{
}

/// A run without icons never asks for an icon and never saves a picture.
pub proof fn lemma_no_icons_nothing_saved(pre: Run, outcome: Outcome, post: Run, action: Action)
    requires
        pre.well_formed(),
        advances(pre, outcome, post, action),
        pre.job().icon_paths.len() == 0,
    ensures
        !(action is LoadIcon),
        !(action is Save),
{
}

/// Every picture that a run saves is the normalized profile picture with
/// the one icon that was just loaded: the template goes on unchanged, so
/// no icon shows on the picture of another.
pub proof fn lemma_saved_picture_holds_one_icon(
    pre: Run,
    icon: DynamicImage,
    post: Run,
    path: String,
    picture: DynamicImage,
)
    requires
        advances(pre, Outcome::Loaded(icon), post, Action::Save { path, picture }),
    ensures
        pre.stage() matches Stage::LoadingIcon { template, index } && {
            &&& iconified(template, icon, pre.settings().placement, picture)
            &&& post.stage() == (Stage::Saving { template, index })
        },
{
}

impl Run {
    /// What the run was asked to do.
    pub closed spec fn job(&self) -> Job {
        self.job
    }

    /// The choices that the run was started with.
    pub closed spec fn settings(&self) -> Settings {
        self.settings
    }

    /// The directory that the output files go to.
    pub closed spec fn out_dir(&self) -> String {
        self.out_dir
    }

    /// Where the run stands.
    pub closed spec fn stage(&self) -> Stage {
        self.stage
    }

    /// The output directory is the one that the job determines, and an icon
    /// that is being processed is one of the job's.
    #[verifier::type_invariant]
    pub closed spec fn well_formed(&self) -> bool {
        &&& self.out_dir@ == output_directory(
            text_of(self.job.out_dir),
            self.job.profile_picture_path@,
        )
        &&& match self.stage {
            Stage::LoadingIcon { index, .. } => index < self.job.icon_paths.len(),
            Stage::Saving { index, .. } => index < self.job.icon_paths.len(),
            _ => true,
        }
    }

    /// Begins a run. The first thing to do is to create the output
    /// directory.
    pub fn start(job: Job, settings: Settings) -> (r: (Run, Action))
        ensures
            r.0.well_formed(),
            r.0.job() == job,
            r.0.settings() == settings,
            r.0.out_dir()@ == output_directory(text_of(job.out_dir), job.profile_picture_path@),
            r.0.stage() == Stage::CreatingDirectory,
            r.1 matches Action::CreateOutputDirectory { path } && path@ == r.0.out_dir()@,
    {
        let out_dir = resolve_output_directory(&job.out_dir, job.profile_picture_path.as_str());
        let path = out_dir.clone();
        (
            Run { job, settings, out_dir, stage: Stage::CreatingDirectory },
            Action::CreateOutputDirectory { path },
        )
    }

    /// Whether the run has come to its end, with or without success.
    pub fn is_over(&self) -> (over: bool)
        ensures
            over == (self.stage() is Finished || self.stage() is Aborted),
    {
        match self.stage {
            Stage::Finished => true,
            Stage::Aborted { .. } => true,
            _ => false,
        }
    }

    /// Takes the outcome of the last action and decides the next one.
    ///
    /// An outcome that is not the one the run waits for counts as a failure
    /// of the action. Any failure aborts the run: nothing is retried, and no
    /// further icon is processed. A run that is over stays as it is.
    pub fn advance(self, outcome: Outcome) -> (r: (Run, Action))
        ensures
            r.0.well_formed(),
            advances(self, outcome, r.0, r.1),
    {
        proof {
            use_type_invariant(&self);
        }
        let Run { job, settings, out_dir, stage } = self;
        match (stage, outcome) {
            (Stage::CreatingDirectory, Outcome::Done) => {
                let path = job.profile_picture_path.clone();
                (
                    Run { job, settings, out_dir, stage: Stage::LoadingProfilePicture },
                    Action::LoadProfilePicture { path },
                )
            },
            (Stage::LoadingProfilePicture, Outcome::Loaded(picture)) => {
                match normalize_profile_picture(picture, settings.grayscale) {
                    Ok(template) => {
                        let ghost normalized = template;
                        let r = Self::turn_to_icon(job, settings, out_dir, template, 0);
                        assert(normalized_from(picture, settings.grayscale, normalized)
                            && turns_to_icon(r.0, r.1, normalized, 0));
                        r
                    },
                    Err(error) => Self::abort(job, settings, out_dir, error),
                }
            },
            (Stage::LoadingIcon { template, index }, Outcome::Loaded(icon)) => {
                let picture = match with_icon(&template, &icon, settings.placement) {
                    Ok(picture) => picture,
                    Err(error) => {
                        return Self::abort(job, settings, out_dir, error);
                    },
                };
                let target = output_path_for(
                    settings.naming,
                    out_dir.as_str(),
                    job.profile_picture_path.as_str(),
                    job.icon_paths[index].as_str(),
                );
                match target {
                    Some(path) => (
                        Run { job, settings, out_dir, stage: Stage::Saving { template, index } },
                        Action::Save { path, picture },
                    ),
                    None => Self::abort(job, settings, out_dir, CompositorError::MissingFileStem),
                }
            },
            (Stage::Saving { template, index }, Outcome::Done) => Self::turn_to_icon(
                job,
                settings,
                out_dir,
                template,
                index + 1,
            ),
            (Stage::Finished, _) => (
                Run { job, settings, out_dir, stage: Stage::Finished },
                Action::Finish,
            ),
            (Stage::Aborted { error }, _) => Self::abort(job, settings, out_dir, error),
            (Stage::CreatingDirectory, _) => {
                Self::abort(job, settings, out_dir, CompositorError::OutputDirectory)
            },
            (Stage::LoadingProfilePicture, _) => {
                Self::abort(job, settings, out_dir, CompositorError::Decode)
            },
            (Stage::LoadingIcon { .. }, _) => {
                Self::abort(job, settings, out_dir, CompositorError::Decode)
            },
            (Stage::Saving { .. }, _) => {
                Self::abort(job, settings, out_dir, CompositorError::Write)
            },
        }
    }

    fn abort(
        job: Job,
        settings: Settings,
        out_dir: String,
        error: CompositorError,
    ) -> (r: (Run, Action))
        requires
            out_dir@ == output_directory(text_of(job.out_dir), job.profile_picture_path@),
        ensures
            r.0.well_formed(),
            r.0.job() == job,
            r.0.settings() == settings,
            r.0.out_dir() == out_dir,
            aborts_with(r.0, r.1, error),
    {
        (Run { job, settings, out_dir, stage: Stage::Aborted { error } }, Action::Abort { error })
    }

    fn turn_to_icon(
        job: Job,
        settings: Settings,
        out_dir: String,
        template: DynamicImage,
        index: usize,
    ) -> (r: (Run, Action))
        requires
            out_dir@ == output_directory(text_of(job.out_dir), job.profile_picture_path@),
        ensures
            r.0.well_formed(),
            r.0.job() == job,
            r.0.settings() == settings,
            r.0.out_dir() == out_dir,
            turns_to_icon(r.0, r.1, template, index as int),
    {
        if index < job.icon_paths.len() {
            let path = job.icon_paths[index].clone();
            (
                Run { job, settings, out_dir, stage: Stage::LoadingIcon { template, index } },
                Action::LoadIcon { path },
            )
        } else {
            (Run { job, settings, out_dir, stage: Stage::Finished }, Action::Finish)
        }
    }
}

} // verus!
