//! The scene that the viewer loop displays, and the selector of its visible
//! frame.
use crate::net::{RemoteCommand, StreamEvent};
use gchemol_core::Molecule;
use vstd::prelude::*;

verus! {

/// Selector of the visible frame of a trajectory; it may run past either end
/// and wraps around the number of frames.
#[derive(Clone, Copy, Debug, Default)]
pub struct CurrentFrame(pub isize);

impl CurrentFrame {
    /// The frame that the selector picks among `nframes > 0` frames: the
    /// selector reduced modulo `nframes` into `0..nframes`.
    pub open spec fn frame_of(self, nframes: int) -> int {
        self.0 as int % nframes
    }

    /// Returns the index of the current frame, or `None` if there is no frame.
    pub fn index(&self, nframes: usize) -> (r: Option<usize>)
        ensures
            r is None <==> nframes == 0,
            r matches Some(i) ==> i < nframes && i as int == self.frame_of(nframes as int),
    {
        if nframes == 0 {
            None
        } else if self.0 >= 0 {
            let x: usize = self.0 as usize;
            let r: usize = x % nframes;
            Some(r)
        } else {
            // x == -(k + 1) reduces to n - 1 - (k mod n)
            let k: usize = (-(self.0 + 1)) as usize;
            let m: usize = k % nframes;
            let r: usize = nframes - 1 - m;
            proof {
                let x = self.0 as int;
                let n = nframes as int;
                assert(x == -(k as int) - 1);
                assert(m as int == k as int % n);
                let q = k as int / n;
                assert(k as int == q * n + m) by (nonlinear_arith)
                    requires
                        m as int == k as int % n,
                        q == k as int / n,
                        n > 0,
                ;
                assert(x == (-q - 1) * n + r) by (nonlinear_arith)
                    requires
                        k as int == q * n + m,
                        x == -(k as int) - 1,
                        r == n - 1 - m,
                ;
                vstd::arithmetic::div_mod::lemma_fundamental_div_mod_converse(x, n, -q - 1, r as int);
            }
            Some(r)
        }
    }

    /// Moves the selector one frame forward.
    pub fn next(&mut self)
        requires
            old(self).0 < isize::MAX,
        ensures
            final(self).0 == old(self).0 + 1,
    {
        self.0 = self.0 + 1;
    }

    /// Moves the selector one frame back.
    pub fn prev(&mut self)
        requires
            old(self).0 > isize::MIN,
        ensures
            final(self).0 == old(self).0 - 1,
    {
        self.0 = self.0 - 1;
    }
}

/// The molecules loaded as the frames of a trajectory.
#[derive(Clone, Debug, Default)]
pub struct MoleculeTrajectory {
    pub mols: Vec<Molecule>,
}

/// How the scene is drawn.
#[derive(Clone, Copy, Debug, Default)]
pub struct VisilizationState {
    pub display_label: bool,
}

/// What a scene is, seen from outside: the frames on display (if any), the
/// visible-frame selector, and whether atom labels are shown.
pub ghost struct SceneView {
    pub molecules: Option<Seq<Molecule>>,
    pub frame: int,
    pub labels_shown: bool,
}

impl SceneView {
    /// At most one scene is active, and an active scene has a frame.
    pub open spec fn well_formed(self) -> bool {
        self.molecules matches Some(m) ==> m.len() > 0
    }

    /// The frame on display: the selector reduced modulo the frame count.
    pub open spec fn visible_frame(self) -> Option<int> {
        match self.molecules {
            Some(m) => if m.len() > 0 { Some(self.frame % m.len() as int) } else { None },
            None => None,
        }
    }
}

/// What a command did to the scene, for the layers that draw it.
#[derive(Debug, Clone, Copy, PartialEq, Eq, Structural)]
pub enum SceneChange {
    /// New frames are on display; `replaced` tells whether an earlier scene
    /// was evicted for them.
    Installed { replaced: bool },
    /// The scene was evicted.
    Cleared,
    /// Nothing changed.
    Unchanged,
    /// Atom labels are now shown or hidden.
    Labels { shown: bool },
}

/// Why a command was dropped; the scene is left as it was.
#[derive(Debug, Clone, Copy, PartialEq, Eq, Structural)]
pub enum DispatchError {
    /// A load that carries no molecule.
    EmptyPayload,
}

/// The scene after `cmd`: a load of at least one molecule replaces the scene
/// and selects its first frame; an empty load changes nothing; a delete evicts
/// the scene; a label command only sets whether labels are shown.
pub open spec fn step(s: SceneView, cmd: RemoteCommand) -> SceneView {
    match cmd {
        RemoteCommand::Load(mols) => if mols@.len() == 0 {
            s
        } else {
            SceneView { molecules: Some(mols@), frame: 0, labels_shown: s.labels_shown }
        },
        RemoteCommand::Delete => SceneView { molecules: None, frame: s.frame, labels_shown: s.labels_shown },
        RemoteCommand::Label { delete } => SceneView {
            molecules: s.molecules,
            frame: s.frame,
            labels_shown: !delete,
        },
    }
}

/// What applying `cmd` to `s` reports.
pub open spec fn outcome(s: SceneView, cmd: RemoteCommand) -> Result<SceneChange, DispatchError> {
    match cmd {
        RemoteCommand::Load(mols) => if mols@.len() == 0 {
            Err(DispatchError::EmptyPayload)
        } else {
            Ok(SceneChange::Installed { replaced: s.molecules is Some })
        },
        RemoteCommand::Delete => if s.molecules is Some {
            Ok(SceneChange::Cleared)
        } else {
            Ok(SceneChange::Unchanged)
        },
        RemoteCommand::Label { delete } => Ok(SceneChange::Labels { shown: !delete }),
    }
}

/// The scene after the events of `evs`, applied in order.
pub open spec fn run(s: SceneView, evs: Seq<StreamEvent>) -> SceneView
    decreases evs.len(),
{
    if evs.len() == 0 {
        s
    } else {
        step(run(s, evs.drop_last()), evs.last().0)
    }
}

/// The scene that the viewer loop displays. It is changed only by the
/// commands that the loop dispatches.
pub struct SceneState {
    trajectory: Option<MoleculeTrajectory>,
    current_frame: CurrentFrame,
    visualization: VisilizationState,
}

impl View for SceneState {
    type V = SceneView;

    closed spec fn view(&self) -> SceneView {
        SceneView {
            molecules: match self.trajectory {
                Some(t) => Some(t.mols@),
                None => None,
            },
            frame: self.current_frame.0 as int,
            labels_shown: self.visualization.display_label,
        }
    }
}

impl SceneState {
    #[verifier::type_invariant]
    closed spec fn inv(self) -> bool {
        self@.well_formed()
    }

    /// An empty scene, with labels hidden.
    pub fn new() -> (r: Self)
        ensures
            r@.molecules is None,
            r@.frame == 0,
            !r@.labels_shown,
    {
        SceneState {
            trajectory: None,
            current_frame: CurrentFrame(0),
            visualization: VisilizationState { display_label: false },
        }
    }

    /// The frames on display, if a scene is active.
    pub fn molecules(&self) -> (r: Option<&Vec<Molecule>>)
        ensures
            match r {
                Some(v) => self@.molecules == Some(v@),
                None => self@.molecules is None,
            },
    {
        match &self.trajectory {
            Some(t) => Some(&t.mols),
            None => None,
        }
    }

    /// The index of the frame on display, if a scene is active.
    pub fn visible_frame(&self) -> (r: Option<usize>)
        ensures
            match r {
                Some(i) => self@.visible_frame() == Some(i as int),
                None => self@.visible_frame() is None,
            },
    {
        proof {
            use_type_invariant(self);
        }
        match &self.trajectory {
            Some(t) => self.current_frame.index(t.mols.len()),
            None => None,
        }
    }

    /// Whether atom labels are shown.
    pub fn labels_shown(&self) -> (r: bool)
        ensures
            r == self@.labels_shown,
    {
        self.visualization.display_label
    }

    /// Installs `mols` as the new scene, evicting the current one, and selects
    /// the first frame. An empty list is refused and changes nothing.
    pub fn load_command(&mut self, mols: Vec<Molecule>) -> (r: Result<SceneChange, DispatchError>)
        ensures
            final(self)@ == step(old(self)@, RemoteCommand::Load(mols)),
            r == outcome(old(self)@, RemoteCommand::Load(mols)),
    {
        if mols.len() == 0 {
            return Err(DispatchError::EmptyPayload);
        }
        let replaced = self.trajectory.is_some();
        self.trajectory = Some(MoleculeTrajectory { mols });
        self.current_frame = CurrentFrame(0);
        Ok(SceneChange::Installed { replaced })
    }

    /// Evicts the current scene; does nothing when no scene is active.
    pub fn delete_command(&mut self) -> (r: SceneChange)
        ensures
            final(self)@ == step(old(self)@, RemoteCommand::Delete),
            Ok::<SceneChange, DispatchError>(r) == outcome(old(self)@, RemoteCommand::Delete),
    {
        if self.trajectory.is_some() {
            self.trajectory = None;
            SceneChange::Cleared
        } else {
            SceneChange::Unchanged
        }
    }

    /// Hides (`delete`) or shows the atom labels; the frames stay as they are.
    pub fn label_command(&mut self, delete: bool) -> (r: SceneChange)
        ensures
            final(self)@ == step(old(self)@, RemoteCommand::Label { delete }),
            Ok::<SceneChange, DispatchError>(r) == outcome(old(self)@, RemoteCommand::Label { delete }),
    {
        proof {
            use_type_invariant(&*self);
        }
        self.visualization = VisilizationState { display_label: !delete };
        SceneChange::Labels { shown: !delete }
    }

    /// Applies one command with the handler of its kind.
    pub fn dispatch(&mut self, cmd: RemoteCommand) -> (r: Result<SceneChange, DispatchError>)
        ensures
            final(self)@ == step(old(self)@, cmd),
            r == outcome(old(self)@, cmd),
    {
        match cmd {
            RemoteCommand::Load(mols) => self.load_command(mols),
            RemoteCommand::Delete => Ok(self.delete_command()),
            RemoteCommand::Label { delete } => Ok(self.label_command(delete)),
        }
    }

    /// Applies the events of one tick in the order they were pulled, and
    /// reports what each did.
    pub fn apply_events(&mut self, events: Vec<StreamEvent>) -> (r: Vec<Result<SceneChange, DispatchError>>)
        ensures
            final(self)@ == run(old(self)@, events@),
            r@.len() == events@.len(),
            forall|i: int|
                0 <= i < events@.len() ==> #[trigger] r@[i] == outcome(
                    run(old(self)@, events@.take(i)),
                    events@[i].0,
                ),
    {
        let ghost start = self@;
        let ghost all = events@;
        let mut events = events;
        let mut results: Vec<Result<SceneChange, DispatchError>> = Vec::new();
        while events.len() > 0
            invariant
                results@.len() + events@.len() == all.len(),
                events@ == all.skip(results@.len() as int),
                self@ == run(start, all.take(results@.len() as int)),
                forall|i: int|
                    0 <= i < results@.len() ==> #[trigger] results@[i] == outcome(
                        run(start, all.take(i)),
                        all[i].0,
                    ),
            decreases events@.len(),
        {
            let k = results.len();
            let ev = events.remove(0);
            proof {
                assert(ev == all[k as int]);
                assert(all.take(k as int + 1).drop_last() =~= all.take(k as int));
                assert(all.take(k as int + 1).last() == all[k as int]);
                assert(events@ =~= all.skip(k as int + 1));
            }
            let StreamEvent(cmd) = ev;
            let change = self.dispatch(cmd);
            results.push(change);
        }
        proof {
            assert(all.take(all.len() as int) =~= all);
        }
        results
    }
}

/// Dispatching a run of events over several ticks leaves the same scene as
/// dispatching them all in one tick: only their order counts.
pub proof fn lemma_run_concat(s: SceneView, a: Seq<StreamEvent>, b: Seq<StreamEvent>)
    ensures
        run(run(s, a), b) == run(s, a + b),
    decreases b.len(),
{
    if b.len() == 0 {
        assert(a + b =~= a);
    } else {
        lemma_run_concat(s, a, b.drop_last());
        assert((a + b).drop_last() =~= a + b.drop_last());
        assert((a + b).last() == b.last());
    }
}

/// A delete while no scene is active changes nothing and reports so, and any
/// number of such deletes in a row leave the scene as it was.
pub proof fn lemma_delete_without_scene(s: SceneView, n: nat)
    requires
        s.molecules is None,
    ensures
        outcome(s, RemoteCommand::Delete) == Ok::<SceneChange, DispatchError>(SceneChange::Unchanged),
        run(s, Seq::new(n, |i: int| StreamEvent(RemoteCommand::Delete))) == s,
    decreases n,
{
    let deletes = Seq::new(n, |i: int| StreamEvent(RemoteCommand::Delete));
    if n > 0 {
        lemma_delete_without_scene(s, (n - 1) as nat);
        assert(deletes.drop_last() =~= Seq::new(
            (n - 1) as nat,
            |i: int| StreamEvent(RemoteCommand::Delete),
        ));
    }
}

/// A load of a non-empty list displays exactly that list, in its order, with
/// the first frame visible, whatever was displayed before.
pub proof fn lemma_load_shows_list(s: SceneView, mols: Vec<Molecule>)
    requires
        mols@.len() > 0,
    ensures
        step(s, RemoteCommand::Load(mols)).molecules == Some(mols@),
        step(s, RemoteCommand::Load(mols)).visible_frame() == Some(0int),
        step(s, RemoteCommand::Load(mols)).well_formed(),
{
    vstd::arithmetic::div_mod::lemma_small_mod(0, mols@.len());
}

/// Label commands set only whether labels are shown: the last one decides,
/// and the frames on display and the selector stay as they were.
pub proof fn lemma_labels_keep_scene(s: SceneView, first: bool, second: bool)
    ensures
        run(
            s,
            seq![
                StreamEvent(RemoteCommand::Label { delete: first }),
                StreamEvent(RemoteCommand::Label { delete: second }),
            ],
        ) == (SceneView { molecules: s.molecules, frame: s.frame, labels_shown: !second }),
{
    let evs = seq![
        StreamEvent(RemoteCommand::Label { delete: first }),
        StreamEvent(RemoteCommand::Label { delete: second }),
    ];
    let one = seq![StreamEvent(RemoteCommand::Label { delete: first })];
    assert(evs.drop_last() =~= one);
    assert(one.drop_last() =~= Seq::<StreamEvent>::empty());
    assert(run(s, one.drop_last()) == s);
    assert(one.last() == StreamEvent(RemoteCommand::Label { delete: first }));
    assert(run(s, one) == step(s, RemoteCommand::Label { delete: first }));
}

/// Every command keeps the scene well formed: at most one scene, never an
/// empty one.
pub proof fn lemma_step_well_formed(s: SceneView, cmd: RemoteCommand)
    requires
        s.well_formed(),
    ensures
        step(s, cmd).well_formed(),
{
}

} // verus!
