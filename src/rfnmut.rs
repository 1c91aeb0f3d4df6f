use vstd::prelude::*;
use vstd::std_specs::convert::FromSpec;

verus! {

broadcast use vstd::function::group_function_axioms;

/// A callable that may be invoked any number of times through exclusive access, and may
/// change its captured state between calls.
pub trait RFnMut<TParam, TResult> {
    /// `p` is an argument on which `call` may be invoked.
    spec fn accepts(&self, p: TParam) -> bool;

    /// `r` is a result that `call(p)` may return.
    spec fn yields(&self, p: TParam, r: TResult) -> bool;

    /// What the callable accepts and may return stays the same from one call to the next.
    fn call(&mut self, p: TParam) -> (r: TResult)
        requires
            old(self).accepts(p),
        ensures
            old(self).yields(p, r),
            forall|q: TParam| #[trigger] final(self).accepts(q) == old(self).accepts(q),
            forall|q: TParam, s: TResult| #[trigger] final(self).yields(q, s) == old(self).yields(q, s),
    ;
}

impl<TFn: FnMut(TParam) -> TResult, TParam, TResult> RFnMut<TParam, TResult> for TFn {
    open spec fn accepts(&self, p: TParam) -> bool {
        call_requires(*self, (p,))
    }

    open spec fn yields(&self, p: TParam, r: TResult) -> bool {
        call_ensures(*self, (p,), r)
    }

    fn call(&mut self, p: TParam) -> (r: TResult) {
        (self)(p)
    }
}

/// The dispatch behind an erased mutable callable: one implementation for each concrete type.
pub(crate) trait DispatchMut<TParam, TResult> {
    spec fn pre(&self, p: TParam) -> bool;

    spec fn post(&self, p: TParam, r: TResult) -> bool;

    fn dispatch(&mut self, p: TParam) -> (r: TResult)
        requires
            old(self).pre(p),
        ensures
            old(self).post(p, r),
            forall|q: TParam| #[trigger] final(self).pre(q) == old(self).pre(q),
            forall|q: TParam, s: TResult| #[trigger] final(self).post(q, s) == old(self).post(q, s),
    ;
}

impl<TFn: FnMut(TParam) -> TResult, TParam, TResult> DispatchMut<TParam, TResult> for TFn {
    open spec fn pre(&self, p: TParam) -> bool {
        call_requires(*self, (p,))
    }

    open spec fn post(&self, p: TParam, r: TResult) -> bool {
        call_ensures(*self, (p,), r)
    }

    fn dispatch(&mut self, p: TParam) -> (r: TResult) {
        (self)(p)
    }
}

/// A mutable callable over state that someone else owns, valid for `'a`. Only the borrow is
/// boxed: the state stays where its owner keeps it, and is never released from here.
#[verifier::reject_recursive_types(TParam)]
#[verifier::reject_recursive_types(TResult)]
pub struct RRefFnMut<'a, TParam, TResult> {
    inner: Box<dyn DispatchMut<TParam, TResult> + 'a>,
}

impl<'a, T, TParam, TResult> From<&'a mut T> for RRefFnMut<'a, TParam, TResult> where
    T: 'a + FnMut(TParam) -> TResult,
 {
    fn from(inner: &'a mut T) -> (r: Self) {
        RRefFnMut { inner: Box::new(inner) }
    }
}

impl<'a, T, TParam, TResult> vstd::std_specs::convert::FromSpecImpl<&'a mut T> for RRefFnMut<'a, TParam, TResult> where
    T: 'a + FnMut(TParam) -> TResult,
 {
    open spec fn obeys_from_spec() -> bool {
        true
    }

    closed spec fn from_spec(v: &'a mut T) -> Self {
        RRefFnMut { inner: Box::new(v) }
    }
}

/// A mutable borrow adapter accepts every argument that the borrowed callable accepts, and
/// what it returns is a result that the borrowed callable may return.
pub proof fn ref_fn_mut_behaves_as_borrowed<'a, T, TParam, TResult>(inner: &'a mut T) where
    T: 'a + FnMut(TParam) -> TResult,

    ensures
        forall|p: TParam|
            call_requires(*old(inner), (p,)) ==> #[trigger] RRefFnMut::<
                'a,
                TParam,
                TResult,
            >::from_spec(inner).accepts(p),
        forall|p: TParam, r: TResult|
            #[trigger] RRefFnMut::<'a, TParam, TResult>::from_spec(inner).yields(p, r)
                ==> call_ensures(*old(inner), (p,), r),
{
}

impl<'a, TParam, TResult> RRefFnMut<'a, TParam, TResult> {
    /// Borrows `inner` exclusively for `'a` behind a fixed representation.
    pub fn new<T: 'a + FnMut(TParam) -> TResult>(inner: &'a mut T) -> (r: Self)
        ensures
            forall|p: TParam| call_requires(*old(inner), (p,)) ==> #[trigger] r.accepts(p),
            forall|p: TParam, v: TResult| #[trigger] r.yields(p, v) ==> call_ensures(*old(inner), (p,), v),
    {
        proof {
            ref_fn_mut_behaves_as_borrowed::<'a, T, TParam, TResult>(inner);
        }
        Self::from(inner)
    }
}

impl<'a, TParam, TResult> RFnMut<TParam, TResult> for RRefFnMut<'a, TParam, TResult> {
    closed spec fn accepts(&self, p: TParam) -> bool {
        self.inner.pre(p)
    }

    closed spec fn yields(&self, p: TParam, r: TResult) -> bool {
        self.inner.post(p, r)
    }

    fn call(&mut self, p: TParam) -> (r: TResult) {
        self.inner.dispatch(p)
    }
}

/// A mutable callable that owns its environment on the heap and releases it when discarded.
#[verifier::reject_recursive_types(TParam)]
#[verifier::reject_recursive_types(TResult)]
pub struct RBoxFnMut<'a, TParam, TResult> {
    inner: Box<dyn DispatchMut<TParam, TResult> + 'a>,
}

impl<'a, TFn, TParam, TResult> From<TFn> for RBoxFnMut<'a, TParam, TResult> where
    TFn: 'a + FnMut(TParam) -> TResult,
 {
    fn from(inner: TFn) -> (r: Self) {
        RBoxFnMut { inner: Box::new(inner) }
    }
}

impl<'a, TFn, TParam, TResult> vstd::std_specs::convert::FromSpecImpl<TFn> for RBoxFnMut<'a, TParam, TResult> where
    TFn: 'a + FnMut(TParam) -> TResult,
 {
    open spec fn obeys_from_spec() -> bool {
        true
    }

    closed spec fn from_spec(v: TFn) -> Self {
        RBoxFnMut { inner: Box::new(v) }
    }
}

/// An owning mutable adapter accepts exactly the arguments that the moved callable accepts,
/// and may return exactly what it may return.
pub proof fn box_fn_mut_behaves_as_moved<'a, TFn, TParam, TResult>(inner: TFn) where
    TFn: 'a + FnMut(TParam) -> TResult,

    ensures
        forall|p: TParam|
            #[trigger] RBoxFnMut::<'a, TParam, TResult>::from_spec(inner).accepts(p)
                == call_requires(inner, (p,)),
        forall|p: TParam, r: TResult|
            #[trigger] RBoxFnMut::<'a, TParam, TResult>::from_spec(inner).yields(p, r)
                == call_ensures(inner, (p,), r),
{
}

impl<'a, TParam, TResult> RBoxFnMut<'a, TParam, TResult> {
    /// Moves `inner` onto the heap behind a fixed representation.
    pub fn new<TFn: 'a + FnMut(TParam) -> TResult>(inner: TFn) -> (r: Self)
        ensures
            forall|p: TParam| #[trigger] r.accepts(p) == call_requires(inner, (p,)),
            forall|p: TParam, v: TResult| #[trigger] r.yields(p, v) == call_ensures(inner, (p,), v),
    {
        proof {
            box_fn_mut_behaves_as_moved::<'a, TFn, TParam, TResult>(inner);
        }
        Self::from(inner)
    }
}

impl<'a, TParam, TResult> RFnMut<TParam, TResult> for RBoxFnMut<'a, TParam, TResult> {
    closed spec fn accepts(&self, p: TParam) -> bool {
        self.inner.pre(p)
    }

    closed spec fn yields(&self, p: TParam, r: TResult) -> bool {
        self.inner.post(p, r)
    }

    fn call(&mut self, p: TParam) -> (r: TResult) {
        self.inner.dispatch(p)
    }
}

} // verus!
