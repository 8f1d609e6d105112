//! The layer cache decision: whether a layer left on disk by an earlier
//! build can be reused as it is, or must be deleted and populated anew.
//!
//! Reading and writing the layer directory and its sidecar file is left to
//! the caller; this module decides, and models what the disk holds after.
use vstd::prelude::*;

use crate::identifier::LayerName;

verus! {

/// The stages a layer serves, and whether it is kept for later builds.
#[derive(Clone, Copy, Debug, PartialEq, Eq, Structural)]
pub struct LayerTypes {
    pub build: bool,
    pub launch: bool,
    pub cache: bool,
}

/// The content of a layer's sidecar file: its types and its metadata, the
/// latter in serialized form so that comparing it compares the whole value.
#[derive(Debug, PartialEq, Eq)]
pub struct LayerContentMetadata {
    pub types: LayerTypes,
    pub metadata: String,
}

/// The mathematical content of a `LayerContentMetadata`.
pub type ContentView = (LayerTypes, Seq<char>);

impl View for LayerContentMetadata {
    type V = ContentView;

    open spec fn view(&self) -> ContentView {
        (self.types, self.metadata@)
    }
}

/// What the decision for one layer is.
#[derive(Clone, Copy, Debug, PartialEq, Eq, Structural)]
pub enum LayerDecision {
    /// Keep the directory and sidecar file untouched.
    Reuse,
    /// Delete directory and sidecar file (absence is no error), populate the
    /// directory, then write the candidate's sidecar file.
    Rebuild,
}

/// Whether the cached layer may be reused: not forced to rebuild, both the
/// directory and the sidecar file present, and the sidecar equal to the
/// freshly computed candidate in every part.
pub open spec fn reusable(
    sidecar: Option<ContentView>,
    directory_exists: bool,
    candidate: ContentView,
    force_rebuild: bool,
) -> bool {
    !force_rebuild && directory_exists && sidecar == Some(candidate)
}

/// Decides what to do with one layer, given what is on disk for it and the
/// candidate content computed in this build.
pub fn decide(
    sidecar: Option<&LayerContentMetadata>,
    directory_exists: bool,
    candidate: &LayerContentMetadata,
    force_rebuild: bool,
) -> (r: LayerDecision)
    ensures
        (r == LayerDecision::Reuse) == reusable(
            match sidecar {
                Some(s) => Some(s@),
                None => None,
            },
            directory_exists,
            candidate@,
            force_rebuild,
        ),
{
    if force_rebuild || !directory_exists {
        return LayerDecision::Rebuild;
    }
    match sidecar {
        None => LayerDecision::Rebuild,
        Some(cached) => {
            if cached.types == candidate.types && cached.metadata == candidate.metadata {
                LayerDecision::Reuse
            } else {
                LayerDecision::Rebuild
            }
        },
    }
}

/// The name of a layer's sidecar file, beside its directory.
pub fn sidecar_file_name(name: &LayerName) -> (r: String)
    ensures
        r@ == name@ + ".toml"@,
{
    let mut r = name.as_str().to_owned();
    r.append(".toml");
    r
}

/// A layer on disk, as the manager leaves it between calls. `generation`
/// tells populations apart: each population writes new contents.
pub enum LayerDisk {
    Absent,
    Populated { content: ContentView, generation: nat },
}

/// The sidecar file that a look at the disk finds.
pub open spec fn observed_sidecar(disk: LayerDisk) -> Option<ContentView> {
    match disk {
        LayerDisk::Absent => None,
        LayerDisk::Populated { content, .. } => Some(content),
    }
}

/// Whether a look at the disk finds the layer directory.
pub open spec fn observed_directory(disk: LayerDisk) -> bool {
    disk is Populated
}

/// The disk after one resolution of the layer with `candidate`; a rebuild
/// populates it as population `generation`.
pub open spec fn resolve_spec(disk: LayerDisk, candidate: ContentView, force_rebuild: bool, generation: nat) -> LayerDisk {
    if reusable(observed_sidecar(disk), observed_directory(disk), candidate, force_rebuild) {
        disk
    } else {
        LayerDisk::Populated { content: candidate, generation }
    }
}

/// After a resolution the layer is fully populated and its sidecar file
/// describes the candidate, whatever the disk held before.
pub proof fn lemma_resolved_layer_matches_candidate(disk: LayerDisk, candidate: ContentView, force_rebuild: bool, generation: nat)
    ensures
        observed_directory(resolve_spec(disk, candidate, force_rebuild, generation)),
        observed_sidecar(resolve_spec(disk, candidate, force_rebuild, generation)) == Some(candidate),
{
}

/// Two builds in a row with the same candidate: the second leaves the layer
/// exactly as the first left it, so nothing the first population wrote is
/// deleted or written again.
pub proof fn lemma_same_candidate_reuses(disk: LayerDisk, candidate: ContentView, first: nat, second: nat)
    ensures
        resolve_spec(resolve_spec(disk, candidate, false, first), candidate, false, second)
            == resolve_spec(disk, candidate, false, first),
{
}

/// Two builds in a row with different candidates: the second populates the
/// layer anew, so nothing of the first population is left.
pub proof fn lemma_changed_candidate_rebuilds(disk: LayerDisk, c1: ContentView, c2: ContentView, first: nat, second: nat)
    requires
        c1 != c2,
    ensures
        resolve_spec(resolve_spec(disk, c1, false, first), c2, false, second)
            == (LayerDisk::Populated { content: c2, generation: second }),
{
}

/// Where the resolution of one layer stands.
#[derive(Clone, Copy, Debug, PartialEq, Eq, Structural)]
pub enum ResolvePhase {
    /// The disk has not been looked at yet.
    Observe,
    /// The old directory and sidecar file are being deleted.
    Clear,
    /// The author's logic is filling the new directory.
    Populate,
    /// The sidecar file is being written.
    Persist,
    /// The author's logic failed; its directory is being removed.
    Cleanup,
    /// Done: the cached layer was kept.
    Reused,
    /// Done: the layer was populated anew.
    Rebuilt,
    /// Done: the resolution failed and the layer is absent, or a filesystem
    /// operation failed.
    Failed,
}

/// What the caller does next.
#[derive(Clone, Copy, Debug, PartialEq, Eq, Structural)]
pub enum ResolveAction {
    /// Delete the sidecar file and the directory; absence is no error.
    RemoveLayer,
    /// Create the directory and run the author's population logic in it.
    CreateAndPopulate,
    /// Write the candidate's sidecar file.
    WriteSidecar,
    /// Delete the directory that a failed population left.
    RemoveDirectory,
    /// Stop: the layer is ready.
    Finish,
    /// Stop: report the failure.
    Abort,
}

/// What the caller observed after the last action.
pub enum ResolveEvent {
    /// The disk as found, in phase `Observe`.
    Observed { sidecar: Option<LayerContentMetadata>, directory_exists: bool },
    /// The last action completed.
    Completed,
    /// The author's population logic reported an error.
    AuthorFailed,
    /// A filesystem operation failed.
    IoFailed,
}

/// The next phase and action of a resolution with `candidate`.
pub open spec fn resolve_step_spec(
    phase: ResolvePhase,
    event: ResolveEventView,
    candidate: ContentView,
    force_rebuild: bool,
) -> (ResolvePhase, ResolveAction) {
    match event {
        ResolveEventView::IoFailed => (ResolvePhase::Failed, ResolveAction::Abort),
        ResolveEventView::Observed { sidecar, directory_exists } => if phase == ResolvePhase::Observe {
            if reusable(sidecar, directory_exists, candidate, force_rebuild) {
                (ResolvePhase::Reused, ResolveAction::Finish)
            } else {
                (ResolvePhase::Clear, ResolveAction::RemoveLayer)
            }
        } else {
            (ResolvePhase::Failed, ResolveAction::Abort)
        },
        ResolveEventView::Completed => match phase {
            ResolvePhase::Clear => (ResolvePhase::Populate, ResolveAction::CreateAndPopulate),
            ResolvePhase::Populate => (ResolvePhase::Persist, ResolveAction::WriteSidecar),
            ResolvePhase::Persist => (ResolvePhase::Rebuilt, ResolveAction::Finish),
            ResolvePhase::Cleanup => (ResolvePhase::Failed, ResolveAction::Abort),
            _ => (ResolvePhase::Failed, ResolveAction::Abort),
        },
        ResolveEventView::AuthorFailed => if phase == ResolvePhase::Populate {
            (ResolvePhase::Cleanup, ResolveAction::RemoveDirectory)
        } else {
            (ResolvePhase::Failed, ResolveAction::Abort)
        },
    }
}

/// The mathematical content of a `ResolveEvent`.
pub enum ResolveEventView {
    Observed { sidecar: Option<ContentView>, directory_exists: bool },
    Completed,
    AuthorFailed,
    IoFailed,
}

impl View for ResolveEvent {
    type V = ResolveEventView;

    open spec fn view(&self) -> ResolveEventView {
        match self {
            ResolveEvent::Observed { sidecar, directory_exists } => ResolveEventView::Observed {
                sidecar: match sidecar {
                    Some(s) => Some(s@),
                    None => None,
                },
                directory_exists: *directory_exists,
            },
            ResolveEvent::Completed => ResolveEventView::Completed,
            ResolveEvent::AuthorFailed => ResolveEventView::AuthorFailed,
            ResolveEvent::IoFailed => ResolveEventView::IoFailed,
        }
    }
}

/// One step of the resolution of a layer with `candidate`: from the phase
/// and what the caller observed, the next phase and what to do. A rebuild
/// deletes, populates, then writes the sidecar file last; a failed
/// population removes its directory before the failure is reported.
pub fn resolve_step(
    phase: ResolvePhase,
    event: &ResolveEvent,
    candidate: &LayerContentMetadata,
    force_rebuild: bool,
) -> (r: (ResolvePhase, ResolveAction))
    ensures
        r == resolve_step_spec(phase, event@, candidate@, force_rebuild),
{
    match event {
        ResolveEvent::IoFailed => (ResolvePhase::Failed, ResolveAction::Abort),
        ResolveEvent::Observed { sidecar, directory_exists } => {
            if phase == ResolvePhase::Observe {
                match decide(sidecar.as_ref(), *directory_exists, candidate, force_rebuild) {
                    LayerDecision::Reuse => (ResolvePhase::Reused, ResolveAction::Finish),
                    LayerDecision::Rebuild => (ResolvePhase::Clear, ResolveAction::RemoveLayer),
                }
            } else {
                (ResolvePhase::Failed, ResolveAction::Abort)
            }
        },
        ResolveEvent::Completed => match phase {
            ResolvePhase::Clear => (ResolvePhase::Populate, ResolveAction::CreateAndPopulate),
            ResolvePhase::Populate => (ResolvePhase::Persist, ResolveAction::WriteSidecar),
            ResolvePhase::Persist => (ResolvePhase::Rebuilt, ResolveAction::Finish),
            _ => (ResolvePhase::Failed, ResolveAction::Abort),
        },
        ResolveEvent::AuthorFailed => {
            if phase == ResolvePhase::Populate {
                (ResolvePhase::Cleanup, ResolveAction::RemoveDirectory)
            } else {
                (ResolvePhase::Failed, ResolveAction::Abort)
            }
        },
    }
}

/// What the disk holds for one layer: whether its directory exists, and
/// its sidecar file, if any.
pub struct LayerFiles {
    pub directory: bool,
    pub sidecar: Option<ContentView>,
}

/// The disk after `action` was carried out. Population creates the
/// directory whether or not the author's logic then fails.
pub open spec fn after_action(files: LayerFiles, action: ResolveAction, candidate: ContentView) -> LayerFiles {
    match action {
        ResolveAction::RemoveLayer => LayerFiles { directory: false, sidecar: None },
        ResolveAction::CreateAndPopulate => LayerFiles { directory: true, sidecar: files.sidecar },
        ResolveAction::WriteSidecar => LayerFiles { directory: files.directory, sidecar: Some(candidate) },
        ResolveAction::RemoveDirectory => LayerFiles { directory: false, sidecar: files.sidecar },
        _ => files,
    }
}

/// The layer is absent, or complete with a sidecar file that describes
/// `candidate`.
pub open spec fn consistent(files: LayerFiles, candidate: ContentView) -> bool {
    (!files.directory && files.sidecar is None) || (files.directory && files.sidecar == Some(
        candidate,
    ))
}

/// What holds of the disk in each phase, once the action that led into
/// the phase was carried out, where every filesystem operation succeeded.
pub open spec fn phase_invariant(phase: ResolvePhase, files: LayerFiles, candidate: ContentView) -> bool {
    match phase {
        ResolvePhase::Observe | ResolvePhase::Failed => true,
        ResolvePhase::Clear | ResolvePhase::Cleanup => !files.directory && files.sidecar is None,
        ResolvePhase::Populate => files.directory && files.sidecar is None,
        ResolvePhase::Persist | ResolvePhase::Rebuilt => files.directory && files.sidecar == Some(
            candidate,
        ),
        ResolvePhase::Reused => consistent(files, candidate),
    }
}

/// Whether `event` could be observed of `files`: a look at the disk sees
/// what is there.
pub open spec fn truthful(event: ResolveEventView, files: LayerFiles) -> bool {
    match event {
        ResolveEventView::Observed { sidecar, directory_exists } => sidecar == files.sidecar
            && directory_exists == files.directory,
        _ => true,
    }
}

/// Each step keeps the phase invariant, as long as filesystem operations
/// succeed. So a resolution that ends in `Reused` or `Rebuilt` leaves the
/// layer complete and matching its candidate, and one whose population
/// failed ends, by way of `Cleanup`, with the layer absent: never a
/// directory without its sidecar file.
pub proof fn lemma_resolve_step_keeps_layer_consistent(
    phase: ResolvePhase,
    event: ResolveEventView,
    files: LayerFiles,
    candidate: ContentView,
    force_rebuild: bool,
)
    requires
        phase_invariant(phase, files, candidate),
        truthful(event, files),
        !(event is IoFailed),
    ensures
        phase_invariant(
            resolve_step_spec(phase, event, candidate, force_rebuild).0,
            after_action(files, resolve_step_spec(phase, event, candidate, force_rebuild).1, candidate),
            candidate,
        ),
        phase == ResolvePhase::Cleanup && event is Completed ==> !after_action(
            files,
            resolve_step_spec(phase, event, candidate, force_rebuild).1,
            candidate,
        ).directory && after_action(
            files,
            resolve_step_spec(phase, event, candidate, force_rebuild).1,
            candidate,
        ).sidecar is None,
{
}

} // verus!
