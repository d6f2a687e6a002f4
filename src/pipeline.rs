//! The cherry-pick pipeline as a state machine: extract, annotate, apply,
//! then remove every patch file. Each step takes the outcome of the last
//! action and names the next one; a driver runs the actions. Patch files
//! are removed whether applying them succeeded or failed, and also where
//! annotating them failed.
use vstd::prelude::*;
use vstd::string::*;
use crate::apply::{am_args, am_argv};
use crate::extract::{format_patch_args, format_patch_argv, lines, patch_paths, patch_paths_of};
use crate::path::{strip_depth, strip_depth_of};
use crate::trailers::{directives_of, interpret_trailers_args, interpret_trailers_argv, trailer_directives};

verus! {

/// What a cherry-pick is asked to do.
#[derive(Clone, Debug)]
pub struct CherryPick {
    /// The source repository.
    pub src_repo: String,
    /// The revisions to extract.
    pub revisions: String,
    /// Whether to extract the whole history up to `revisions`.
    pub from_root: bool,
    /// Whether `revisions` names the one commit to extract.
    pub single_commit: bool,
    /// The directory of the source repository whose changes are extracted.
    pub src_directory: Option<String>,
    /// The directory of the destination repository the patches apply under.
    pub dst_directory: Option<String>,
    /// Trailer tokens and values, alternating.
    pub trailers: Vec<String>,
}

/// Where the pipeline stands.
#[derive(Clone, Copy, Debug, PartialEq, Eq, Structural)]
pub enum Stage {
    /// `git format-patch` is running.
    Extracting,
    /// `git interpret-trailers` is running.
    Annotating,
    /// `git am` is running.
    Applying,
    /// The patch file before index `next` is being removed; the pipeline
    /// ends with `code`.
    Cleaning { next: usize, code: i32 },
    /// The pipeline has ended with `code`.
    Finished { code: i32 },
}

/// What the driver does next.
#[derive(Clone, Debug, PartialEq, Eq)]
pub enum Action {
    /// Run `git` with these arguments and report its exit code and output.
    Git(Vec<String>),
    /// Remove this patch file; a failure is only worth a warning.
    Remove(String),
    /// End the process with this exit code.
    Exit(i32),
}

/// An action as plain values.
pub enum ActionView {
    Git(Seq<Seq<char>>),
    Remove(Seq<char>),
    Exit(i32),
}

impl View for Action {
    type V = ActionView;

    open spec fn view(&self) -> ActionView {
        match self {
            Action::Git(a) => ActionView::Git(a.deep_view()),
            Action::Remove(p) => ActionView::Remove(p@),
            Action::Exit(c) => ActionView::Exit(*c),
        }
    }
}

/// The strip depth for the request's source directory, if it has one.
pub open spec fn depth_of(req: CherryPick) -> Option<usize> {
    match req.src_directory {
        Some(s) => Some(strip_depth_of(Some(s@)) as usize),
        None => None,
    }
}

/// The `git` arguments that extract the request's revisions.
pub open spec fn extract_argv(req: CherryPick) -> Seq<Seq<char>> {
    format_patch_argv(
        req.src_repo@,
        req.revisions@,
        req.from_root,
        req.single_commit,
        req.src_directory.deep_view(),
    )
}

/// The `git` arguments that apply `patches` as the request asks.
pub open spec fn apply_argv(req: CherryPick, patches: Seq<Seq<char>>) -> Seq<Seq<char>> {
    am_argv(req.dst_directory.deep_view(), depth_of(req), patches)
}

/// The next stage, patch list and action, from the outcome (`code`,
/// `output`) of the action that the pipeline asked for last.
pub open spec fn transition(
    req: CherryPick,
    stage: Stage,
    patches: Seq<Seq<char>>,
    code: i32,
    output: Seq<char>,
) -> (Stage, Seq<Seq<char>>, ActionView) {
    match stage {
        Stage::Extracting => if code != 0 {
            (Stage::Finished { code }, patches, ActionView::Exit(code))
        } else {
            let ps = patch_paths_of(req.src_repo@, output);
            let ds = directives_of(req.trailers.deep_view());
            if ps.len() == 0 {
                (Stage::Finished { code: 0 }, ps, ActionView::Exit(0))
            } else if ds.len() > 0 {
                (Stage::Annotating, ps, ActionView::Git(interpret_trailers_argv(ds, ps)))
            } else {
                (Stage::Applying, ps, ActionView::Git(apply_argv(req, ps)))
            }
        },
        Stage::Annotating => if code != 0 {
            (Stage::Cleaning { next: 1, code }, patches, ActionView::Remove(patches[0]))
        } else {
            (Stage::Applying, patches, ActionView::Git(apply_argv(req, patches)))
        },
        Stage::Applying => (Stage::Cleaning { next: 1, code }, patches, ActionView::Remove(patches[0])),
        Stage::Cleaning { next, code: owed } => if next < patches.len() {
            (
                Stage::Cleaning { next: (next + 1) as usize, code: owed },
                patches,
                ActionView::Remove(patches[next as int]),
            )
        } else {
            (Stage::Finished { code: owed }, patches, ActionView::Exit(owed))
        },
        Stage::Finished { code: owed } => (stage, patches, ActionView::Exit(owed)),
    }
}

/// Whether a stage fits the patch list: annotating, applying and cleaning
/// need patches, and cleaning has removed at most all of them.
pub open spec fn stage_fits(stage: Stage, patches: Seq<Seq<char>>) -> bool {
    match stage {
        Stage::Annotating => patches.len() > 0,
        Stage::Applying => patches.len() > 0,
        Stage::Cleaning { next, .. } => 1 <= next <= patches.len(),
        _ => true,
    }
}

/// The actions the pipeline asks for, one per outcome in `events`.
pub open spec fn actions(
    req: CherryPick,
    stage: Stage,
    patches: Seq<Seq<char>>,
    events: Seq<(i32, Seq<char>)>,
) -> Seq<ActionView>
    decreases events.len(),
{
    if events.len() == 0 {
        seq![]
    } else {
        let (s, ps, a) = transition(req, stage, patches, events[0].0, events[0].1);
        seq![a] + actions(req, s, ps, events.drop_first())
    }
}

/// A removal of each patch file, in order.
pub open spec fn removals(patches: Seq<Seq<char>>) -> Seq<ActionView> {
    patches.map_values(|p: Seq<char>| ActionView::Remove(p))
}

proof fn lemma_cleaning(
    req: CherryPick,
    patches: Seq<Seq<char>>,
    next: usize,
    owed: i32,
    events: Seq<(i32, Seq<char>)>,
)
    requires
        1 <= next <= patches.len() <= usize::MAX,
        events.len() == patches.len() - next + 1,
    ensures
        actions(req, Stage::Cleaning { next, code: owed }, patches, events) == removals(
            patches.subrange(next as int, patches.len() as int),
        ).push(ActionView::Exit(owed)),
    decreases patches.len() - next,
{
    let rest = events.drop_first();
    let t = transition(req, Stage::Cleaning { next, code: owed }, patches, events[0].0, events[0].1);
    assert(actions(req, Stage::Cleaning { next, code: owed }, patches, events) == seq![t.2] + actions(
        req,
        t.0,
        t.1,
        rest,
    ));
    if next < patches.len() {
        lemma_cleaning(req, patches, (next + 1) as usize, owed, rest);
        assert(removals(patches.subrange(next as int, patches.len() as int)) =~= seq![
            ActionView::Remove(patches[next as int]),
        ] + removals(patches.subrange(next + 1, patches.len() as int)));
    } else {
        assert(rest.len() == 0);
        assert(actions(req, t.0, t.1, rest) == Seq::<ActionView>::empty());
    }
    assert(actions(req, Stage::Cleaning { next, code: owed }, patches, events) =~= removals(
        patches.subrange(next as int, patches.len() as int),
    ).push(ActionView::Exit(owed)));
}

/// Once `git am` has run, whatever its exit code, the pipeline removes every
/// patch file, in order, one per outcome, and then exits with that code; the
/// same holds where annotating the patch files failed.
pub proof fn lemma_cleanup_whatever_the_outcome(
    req: CherryPick,
    stage: Stage,
    patches: Seq<Seq<char>>,
    code: i32,
    events: Seq<(i32, Seq<char>)>,
)
    requires
        0 < patches.len() <= usize::MAX,
        stage == Stage::Applying || (stage == Stage::Annotating && code != 0),
        events.len() == patches.len() + 1,
        events[0].0 == code,
    ensures
        actions(req, stage, patches, events) == removals(patches).push(ActionView::Exit(code)),
{
    let rest = events.drop_first();
    let t = transition(req, stage, patches, events[0].0, events[0].1);
    assert(actions(req, stage, patches, events) == seq![t.2] + actions(req, t.0, t.1, rest));
    lemma_cleaning(req, patches, 1, code, rest);
    assert(removals(patches) =~= seq![ActionView::Remove(patches[0])] + removals(
        patches.subrange(1, patches.len() as int),
    ));
    assert(actions(req, stage, patches, events) =~= removals(patches).push(ActionView::Exit(code)));
}

/// `git am` gets the patch files that extraction listed, in the order
/// listed, as its last arguments; `git interpret-trailers` runs first, on the
/// same files in the same order, only where trailers were given.
pub proof fn lemma_apply_keeps_extraction_order(
    req: CherryPick,
    listing: Seq<char>,
    annotated: Seq<char>,
)
    requires
        patch_paths_of(req.src_repo@, listing).len() > 0,
    ensures
        directives_of(req.trailers.deep_view()).len() == 0 ==> actions(
            req,
            Stage::Extracting,
            seq![],
            seq![(0i32, listing)],
        ) == seq![ActionView::Git(apply_argv(req, patch_paths_of(req.src_repo@, listing)))],
        directives_of(req.trailers.deep_view()).len() > 0 ==> actions(
            req,
            Stage::Extracting,
            seq![],
            seq![(0i32, listing), (0i32, annotated)],
        ) == seq![
            ActionView::Git(
                interpret_trailers_argv(
                    directives_of(req.trailers.deep_view()),
                    patch_paths_of(req.src_repo@, listing),
                ),
            ),
            ActionView::Git(apply_argv(req, patch_paths_of(req.src_repo@, listing))),
        ],
        apply_argv(req, patch_paths_of(req.src_repo@, listing)).subrange(
            apply_argv(req, patch_paths_of(req.src_repo@, listing)).len() - patch_paths_of(
                req.src_repo@,
                listing,
            ).len(),
            apply_argv(req, patch_paths_of(req.src_repo@, listing)).len() as int,
        ) == patch_paths_of(req.src_repo@, listing),
{
    let ps = patch_paths_of(req.src_repo@, listing);
    let ds = directives_of(req.trailers.deep_view());
    let a = apply_argv(req, ps);
    assert(a.subrange(a.len() - ps.len(), a.len() as int) =~= ps);
    let t = transition(req, Stage::Extracting, seq![], 0i32, listing);
    if ds.len() == 0 {
        let e1 = seq![(0i32, listing)];
        assert(e1.drop_first().len() == 0);
        assert(actions(req, t.0, t.1, e1.drop_first()) == Seq::<ActionView>::empty());
        assert(actions(req, Stage::Extracting, seq![], e1) == seq![t.2] + actions(
            req,
            t.0,
            t.1,
            e1.drop_first(),
        ));
        assert(actions(req, Stage::Extracting, seq![], e1) =~= seq![ActionView::Git(a)]);
    } else {
        let e2 = seq![(0i32, listing), (0i32, annotated)];
        let e3 = e2.drop_first();
        assert(e3 =~= seq![(0i32, annotated)]);
        assert(e3.drop_first().len() == 0);
        let u = transition(req, t.0, t.1, 0i32, annotated);
        assert(actions(req, u.0, u.1, e3.drop_first()) == Seq::<ActionView>::empty());
        assert(actions(req, t.0, t.1, e3) == seq![u.2] + actions(req, u.0, u.1, e3.drop_first()));
        assert(actions(req, Stage::Extracting, seq![], e2) == seq![t.2] + actions(req, t.0, t.1, e3));
        assert(actions(req, Stage::Extracting, seq![], e2) =~= seq![
            ActionView::Git(interpret_trailers_argv(ds, ps)),
            ActionView::Git(a),
        ]);
    }
}

/// A range that extraction lists no patch file for ends the pipeline at
/// once, with exit code zero.
pub proof fn lemma_empty_range_succeeds(req: CherryPick, listing: Seq<char>)
    requires
        lines(listing).len() == 0,
    ensures
        actions(req, Stage::Extracting, seq![], seq![(0i32, listing)]) == seq![ActionView::Exit(0)],
{
    let e = seq![(0i32, listing)];
    let t = transition(req, Stage::Extracting, seq![], 0i32, listing);
    assert(e.drop_first().len() == 0);
    assert(actions(req, t.0, t.1, e.drop_first()) == Seq::<ActionView>::empty());
    assert(actions(req, Stage::Extracting, seq![], e) == seq![t.2] + actions(req, t.0, t.1, e.drop_first()));
    assert(actions(req, Stage::Extracting, seq![], e) =~= seq![ActionView::Exit(0)]);
}

/// Without trailers, no patch file is ever annotated: after extraction the
/// pipeline goes straight to applying, or ends.
pub proof fn lemma_no_trailers_no_annotation(req: CherryPick, code: i32, listing: Seq<char>)
    requires
        directives_of(req.trailers.deep_view()).len() == 0,
    ensures
        transition(req, Stage::Extracting, seq![], code, listing).0 != Stage::Annotating,
{
}

/// A cherry-pick in progress.
pub struct Pipeline {
    pub request: CherryPick,
    pub stage: Stage,
    /// The extracted patch files, oldest commit first.
    pub patches: Vec<String>,
}

/// The view of an optional string as an optional `&str`.
fn opt_str(o: &Option<String>) -> (r: Option<&str>)
    ensures
        r.deep_view() == o.deep_view(),
{
    match o {
        Some(s) => Some(s.as_str()),
        None => None,
    }
}

impl CherryPick {
    /// The request that imports the whole history up to `tree_ish` of the
    /// repository at `src_repo`, applied at the destination's root.
    pub fn full_clone(src_repo: &str, tree_ish: &str) -> (r: CherryPick)
        ensures
            r.src_repo@ == src_repo@,
            r.revisions@ == tree_ish@,
            r.from_root,
            !r.single_commit,
            r.src_directory is None,
            r.dst_directory is None,
            r.trailers@.len() == 0,
    {
        CherryPick {
            src_repo: String::from_str(src_repo),
            revisions: String::from_str(tree_ish),
            from_root: true,
            single_commit: false,
            src_directory: None,
            dst_directory: None,
            trailers: Vec::new(),
        }
    }
}

impl Pipeline {
    pub open spec fn wf(&self) -> bool {
        stage_fits(self.stage, self.patches.deep_view())
    }

    /// A pipeline about to extract the request's revisions.
    pub fn new(request: CherryPick) -> (r: Pipeline)
        ensures
            r.request == request,
            r.stage == Stage::Extracting,
            r.patches@.len() == 0,
            r.wf(),
    {
        Pipeline { request, stage: Stage::Extracting, patches: Vec::new() }
    }

    /// The first action: extract the revisions.
    pub fn start(&self) -> (r: Action)
        ensures
            r@ == ActionView::Git(extract_argv(self.request)),
    {
        let src_directory = opt_str(&self.request.src_directory);
        Action::Git(
            format_patch_args(
                self.request.src_repo.as_str(),
                self.request.revisions.as_str(),
                self.request.from_root,
                self.request.single_commit,
                src_directory,
            ),
        )
    }

    fn apply_args(&self) -> (r: Vec<String>)
        ensures
            r.deep_view() == apply_argv(self.request, self.patches.deep_view()),
    {
        let depth = match &self.request.src_directory {
            Some(s) => Some(strip_depth(Some(s.as_str()))),
            None => None,
        };
        am_args(opt_str(&self.request.dst_directory), depth, &self.patches)
    }

    /// Takes the exit code and output of the last action and names the next.
    pub fn step(&mut self, code: i32, output: &str) -> (r: Action)
        requires
            old(self).wf(),
        ensures
            final(self).wf(),
            final(self).request == old(self).request,
            (final(self).stage, final(self).patches.deep_view(), r@) == transition(
                old(self).request,
                old(self).stage,
                old(self).patches.deep_view(),
                code,
                output@,
            ),
    {
        match self.stage {
            Stage::Extracting => {
                if code != 0 {
                    self.stage = Stage::Finished { code };
                    return Action::Exit(code);
                }
                self.patches = patch_paths(self.request.src_repo.as_str(), output);
                if self.patches.len() == 0 {
                    self.stage = Stage::Finished { code: 0 };
                    return Action::Exit(0);
                }
                let ds = trailer_directives(&self.request.trailers);
                if ds.len() > 0 {
                    self.stage = Stage::Annotating;
                    Action::Git(interpret_trailers_args(&ds, &self.patches))
                } else {
                    self.stage = Stage::Applying;
                    Action::Git(self.apply_args())
                }
            },
            Stage::Annotating => {
                if code != 0 {
                    self.stage = Stage::Cleaning { next: 1, code };
                    Action::Remove(self.patches[0].clone())
                } else {
                    self.stage = Stage::Applying;
                    Action::Git(self.apply_args())
                }
            },
            Stage::Applying => {
                self.stage = Stage::Cleaning { next: 1, code };
                Action::Remove(self.patches[0].clone())
            },
            Stage::Cleaning { next, code: owed } => {
                if next < self.patches.len() {
                    self.stage = Stage::Cleaning { next: next + 1, code: owed };
                    Action::Remove(self.patches[next].clone())
                } else {
                    self.stage = Stage::Finished { code: owed };
                    Action::Exit(owed)
                }
            },
            Stage::Finished { code: owed } => Action::Exit(owed),
        }
    }
}

} // verus!
