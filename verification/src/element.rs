//! The chart element and its shared model.
//!
//! A [`PlottersDrawAreaModel`] owns one user chart behind a reader/writer
//! lock and is shared by reference counting: the application and any number
//! of elements hold handles to the same model.  A
//! [`PlottersDrawAreaViewer`] is the element: on each paint it builds a
//! fresh [`GpuiBackend`] for its assigned bounds, takes the model's read
//! lock for exactly the duration of one `plot` call, and converts the
//! outcome into a scene plus an optional diagnostic.  Errors never escape a
//! paint call: a failing plot yields the primitives emitted before the
//! failure and exactly one diagnostic for the embedding application to log.

use std::rc::Rc;
use vstd::prelude::*;
use vstd::rwlock::RwLock;

use crate::backend::GpuiBackend;
use crate::geometry::PixelBounds;
use crate::scene::ScenePrimitive;
use crate::DrawingErrorKind;

verus! {

/// The chart plot contract: user-supplied chart code draws by calling
/// backend primitives on the root it is handed, and reports success or a
/// drawing error.  Implementations hold their own state; the element calls
/// `plot` under the model's read lock, so a plot must not re-enter the
/// model.
pub trait PlottersChart {
    fn plot(&self, root: &mut GpuiBackend) -> Result<(), DrawingErrorKind>;
}

/// Relies on std's `Rc::clone`: the returned handle shares the original's
/// allocation, so it carries the same value.
#[verifier::external_body]
fn rc_clone<T>(v: &Rc<T>) -> (r: Rc<T>)
    ensures
        r == *v,
{
    Rc::clone(v)
}

/// A shared chart model: one chart plot owned behind a reader/writer lock,
/// the whole handed around by reference counting.  Writers replace or
/// rework the chart between frames; the UI thread reads it during paint.
#[verifier::reject_recursive_types(C)]
pub struct PlottersDrawAreaModel<C> {
    inner: Rc<RwLock<C, spec_fn(C) -> bool>>,
}

impl<C> PlottersDrawAreaModel<C> {
    /// The lock admits every chart value; a well-formed model is one built
    /// by [`PlottersDrawAreaModel::new`].
    pub closed spec fn wf(self) -> bool {
        forall|c: C| self.inner.inv(c)
    }

    /// Wrap a chart plot in a fresh model.
    pub fn new(plot: C) -> (r: Self)
        ensures
            r.wf(),
    {
        let lock = RwLock::<C, spec_fn(C) -> bool>::new(plot, Ghost(|c: C| true));
        PlottersDrawAreaModel { inner: Rc::new(lock) }
    }

    /// Another handle to the same model: mutations through either handle
    /// are seen by both.
    pub fn share(&self) -> (r: Self)
        ensures
            r == *self,
    {
        PlottersDrawAreaModel { inner: rc_clone(&self.inner) }
    }

    /// Acquire shared access, hand the chart to `f`, release, and return
    /// what `f` returned.
    pub fn with_read<R, F: FnOnce(&C) -> R>(&self, f: F) -> (r: R)
        requires
            self.wf(),
            forall|c: C| #[trigger] f.requires((&c,)),
        ensures
            exists|c: C| #[trigger] f.ensures((&c,), r),
    {
        let handle = self.inner.acquire_read();
        let r = f(handle.borrow());
        handle.release_read();
        r
    }

    /// Acquire exclusive access, pass the chart through `f`, and store the
    /// chart `f` returns.
    pub fn with_write<F: FnOnce(C) -> C>(&self, f: F)
        requires
            self.wf(),
            forall|c: C| #[trigger] f.requires((c,)),
    {
        let (prev, handle) = self.inner.acquire_write();
        let next = f(prev);
        handle.release_write(next);
    }

    /// Acquire exclusive access and swap the owned chart, returning the
    /// previous one.
    pub fn replace(&self, plot: C) -> (prev: C)
        requires
            self.wf(),
    {
        let (prev, handle) = self.inner.acquire_write();
        handle.release_write(plot);
        prev
    }
}

/// What one paint call produced: the scene primitives emitted by the chart,
/// in call order, and at most one diagnostic.
#[derive(Debug)]
pub struct PaintOutcome {
    pub scene: Vec<ScenePrimitive>,
    pub error: Option<DrawingErrorKind>,
}

/// The error-containment shape of a paint outcome: exactly one diagnostic
/// if and only if the plot failed, and the diagnostic carries the plot's
/// own error.
pub open spec fn paint_outcome_matches(
    out: PaintOutcome,
    res: Result<(), DrawingErrorKind>,
) -> bool {
    match res {
        Result::Ok(u) => out.error is None,
        Result::Err(e) => out.error == Some(e),
    }
}

/// Error containment: whatever a plot call returned, the paint outcome
/// keeps every primitive emitted before a failure and reports a failure as
/// exactly one diagnostic; a successful plot reports none.
pub fn finish_paint(res: Result<(), DrawingErrorKind>, scene: Vec<ScenePrimitive>) -> (out:
    PaintOutcome)
    ensures
        out.scene == scene,
        paint_outcome_matches(out, res),
{
    match res {
        Result::Ok(()) => PaintOutcome { scene, error: None },
        Result::Err(e) => PaintOutcome { scene, error: Some(e) },
    }
}

/// The chart element: holds one shared model and drives one paint per
/// frame.  It keeps no drawing state of its own between frames.
#[verifier::reject_recursive_types(C)]
pub struct PlottersDrawAreaViewer<C> {
    pub model: PlottersDrawAreaModel<C>,
}

impl<C: PlottersChart> PlottersDrawAreaViewer<C> {
    /// An element with a model of its own.
    pub fn new(plot: C) -> (r: Self)
        ensures
            r.model.wf(),
    {
        PlottersDrawAreaViewer { model: PlottersDrawAreaModel::new(plot) }
    }

    /// An element sharing an existing model.
    pub fn with_shared_model(model: &PlottersDrawAreaModel<C>) -> (r: Self)
        requires
            model.wf(),
        ensures
            r.model == *model,
    {
        PlottersDrawAreaViewer { model: model.share() }
    }

    /// Paint one frame: bind a fresh backend to the element's bounds, take
    /// the model's read lock around exactly one `plot` call, release it,
    /// and return the emitted scene with at most one diagnostic.  The call
    /// always completes; a plot failure is contained in the outcome.
    pub fn paint(&self, bounds: PixelBounds) -> (out: PaintOutcome)
        requires
            self.model.wf(),
            bounds.wf(),
        ensures
            exists|res: Result<(), DrawingErrorKind>| #[trigger] paint_outcome_matches(out, res),
    {
        let handle = self.model.inner.acquire_read();
        let chart = handle.borrow();
        let mut root = GpuiBackend::new(bounds);
        let res = chart.plot(&mut root);
        handle.release_read();
        finish_paint(res, root.into_scene())
    }
}

} // verus!
