use vstd::prelude::*;
use vstd::std_specs::convert::FromSpec;

verus! {

/// A callable that is invoked exactly once: the call consumes it.
pub trait RFnOnce<TParam, TResult>: Sized {
    /// `p` is an argument on which `call` may be invoked.
    spec fn accepts(&self, p: TParam) -> bool;

    /// `r` is a result that `call(p)` may return.
    spec fn yields(&self, p: TParam, r: TResult) -> bool;

    fn call(self, p: TParam) -> (r: TResult)
        requires
            self.accepts(p),
        ensures
            self.yields(p, r),
    ;
}

impl<TFn: FnOnce(TParam) -> TResult, TParam, TResult> RFnOnce<TParam, TResult> for TFn {
    open spec fn accepts(&self, p: TParam) -> bool {
        call_requires(*self, (p,))
    }

    open spec fn yields(&self, p: TParam, r: TResult) -> bool {
        call_ensures(*self, (p,), r)
    }

    fn call(self, p: TParam) -> (r: TResult) {
        (self)(p)
    }
}

/// The dispatch behind an erased once-callable. It is armed until its one call, which
/// consumes the environment; discarding it armed releases the environment instead.
pub(crate) trait DispatchOnce<TParam, TResult> {
    spec fn armed(&self) -> bool;

    spec fn pre(&self, p: TParam) -> bool;

    spec fn post(&self, p: TParam, r: TResult) -> bool;

    fn dispatch(&mut self, p: TParam) -> (r: TResult)
        requires
            old(self).armed(),
            old(self).pre(p),
        ensures
            old(self).post(p, r),
            !final(self).armed(),
    ;
}

/// The environment of a once-callable: `Some` while armed, `None` once consumed.
pub(crate) struct Slot<TFn> {
    f: Option<TFn>,
}

impl<TFn: FnOnce(TParam) -> TResult, TParam, TResult> DispatchOnce<TParam, TResult> for Slot<TFn> {
    closed spec fn armed(&self) -> bool {
        self.f is Some
    }

    closed spec fn pre(&self, p: TParam) -> bool {
        call_requires(self.f->Some_0, (p,))
    }

    closed spec fn post(&self, p: TParam, r: TResult) -> bool {
        call_ensures(self.f->Some_0, (p,), r)
    }

    fn dispatch(&mut self, p: TParam) -> (r: TResult) {
        let f = self.f.take().unwrap();
        f(p)
    }
}

/// A once-callable that owns its environment on the heap. Its one call consumes the
/// environment; discarding it uncalled releases the environment instead.
#[verifier::reject_recursive_types(TParam)]
#[verifier::reject_recursive_types(TResult)]
pub struct RBoxFnOnce<'a, TParam, TResult> {
    inner: Box<dyn DispatchOnce<TParam, TResult> + 'a>,
}

impl<'a, TFn, TParam, TResult> From<TFn> for RBoxFnOnce<'a, TParam, TResult> where
    TFn: 'a + FnOnce(TParam) -> TResult,
 {
    fn from(inner: TFn) -> (r: Self) {
        RBoxFnOnce { inner: Box::new(Slot { f: Some(inner) }) }
    }
}

impl<'a, TFn, TParam, TResult> vstd::std_specs::convert::FromSpecImpl<TFn> for RBoxFnOnce<'a, TParam, TResult> where
    TFn: 'a + FnOnce(TParam) -> TResult,
 {
    open spec fn obeys_from_spec() -> bool {
        true
    }

    closed spec fn from_spec(v: TFn) -> Self {
        RBoxFnOnce { inner: Box::new(Slot { f: Some(v) }) }
    }
}

/// An owning once-adapter accepts exactly the arguments that the moved callable accepts, and
/// may return exactly what it may return.
pub proof fn box_fn_once_behaves_as_moved<'a, TFn, TParam, TResult>(inner: TFn) where
    TFn: 'a + FnOnce(TParam) -> TResult,

    ensures
        forall|p: TParam|
            #[trigger] RBoxFnOnce::<'a, TParam, TResult>::from_spec(inner).accepts(p)
                == call_requires(inner, (p,)),
        forall|p: TParam, r: TResult|
            #[trigger] RBoxFnOnce::<'a, TParam, TResult>::from_spec(inner).yields(p, r)
                == call_ensures(inner, (p,), r),
{
}

impl<'a, TParam, TResult> RBoxFnOnce<'a, TParam, TResult> {
    /// Moves `inner` onto the heap behind a fixed representation, armed for its one call.
    pub fn new<TFn: 'a + FnOnce(TParam) -> TResult>(inner: TFn) -> (r: Self)
        ensures
            forall|p: TParam| #[trigger] r.accepts(p) == call_requires(inner, (p,)),
            forall|p: TParam, v: TResult| #[trigger] r.yields(p, v) == call_ensures(inner, (p,), v),
    {
        proof {
            box_fn_once_behaves_as_moved::<'a, TFn, TParam, TResult>(inner);
        }
        Self::from(inner)
    }
}

impl<'a, TParam, TResult> RFnOnce<TParam, TResult> for RBoxFnOnce<'a, TParam, TResult> {
    closed spec fn accepts(&self, p: TParam) -> bool {
        self.inner.armed() && self.inner.pre(p)
    }

    closed spec fn yields(&self, p: TParam, r: TResult) -> bool {
        self.inner.post(p, r)
    }

    fn call(self, p: TParam) -> (r: TResult) {
        let mut inner = self.inner;
        inner.dispatch(p)
    }
}

} // verus!
