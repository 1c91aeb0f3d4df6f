use vstd::prelude::*;
use vstd::std_specs::convert::FromSpec;

verus! {

/// A callable that may be invoked any number of times through shared access.
pub trait RFn<'a, TParam, TResult: 'a> {
    /// `p` is an argument on which `call` may be invoked.
    spec fn accepts(&self, p: TParam) -> bool;

    /// `r` is a result that `call(p)` may return.
    spec fn yields(&self, p: TParam, r: TResult) -> bool;

    fn call(&'a self, p: TParam) -> (r: TResult)
        requires
            self.accepts(p),
        ensures
            self.yields(p, r),
    ;
}

impl<'a, TFn: Fn(TParam) -> TResult, TParam, TResult: 'a> RFn<'a, TParam, TResult> for TFn {
    open spec fn accepts(&self, p: TParam) -> bool {
        call_requires(*self, (p,))
    }

    open spec fn yields(&self, p: TParam, r: TResult) -> bool {
        call_ensures(*self, (p,), r)
    }

    fn call(&'a self, p: TParam) -> (r: TResult) {
        (self)(p)
    }
}

/// The dispatch behind an erased shared callable: one implementation for each concrete type.
pub(crate) trait Dispatch<TParam, TResult> {
    spec fn pre(&self, p: TParam) -> bool;

    spec fn post(&self, p: TParam, r: TResult) -> bool;

    fn dispatch(&self, p: TParam) -> (r: TResult)
        requires
            self.pre(p),
        ensures
            self.post(p, r),
    ;
}

impl<TFn: Fn(TParam) -> TResult, TParam, TResult> Dispatch<TParam, TResult> for TFn {
    open spec fn pre(&self, p: TParam) -> bool {
        call_requires(*self, (p,))
    }

    open spec fn post(&self, p: TParam, r: TResult) -> bool {
        call_ensures(*self, (p,), r)
    }

    fn dispatch(&self, p: TParam) -> (r: TResult) {
        (self)(p)
    }
}

/// A shared callable over state that someone else owns: no allocation, and valid for `'a`.
#[verifier::reject_recursive_types(TParam)]
#[verifier::reject_recursive_types(TResult)]
pub struct RRefFn<'a, TParam, TResult> {
    inner: &'a (dyn Dispatch<TParam, TResult> + 'a),
}

impl<'a, T, TParam, TResult> From<&'a T> for RRefFn<'a, TParam, TResult> where
    T: 'a + Fn(TParam) -> TResult,
 {
    fn from(inner: &'a T) -> (r: Self) {
        RRefFn { inner: inner }
    }
}

impl<'a, T, TParam, TResult> vstd::std_specs::convert::FromSpecImpl<&'a T> for RRefFn<'a, TParam, TResult> where
    T: 'a + Fn(TParam) -> TResult,
 {
    open spec fn obeys_from_spec() -> bool {
        true
    }

    closed spec fn from_spec(v: &'a T) -> Self {
        RRefFn { inner: v }
    }
}

/// A borrow adapter accepts exactly the arguments that the borrowed callable accepts, and
/// may return exactly what it may return.
pub proof fn ref_fn_behaves_as_borrowed<'a, T, TParam, TResult>(inner: &'a T) where
    T: 'a + Fn(TParam) -> TResult,

    ensures
        forall|p: TParam|
            #[trigger] RRefFn::<'a, TParam, TResult>::from_spec(inner).accepts(p) == call_requires(
                *inner,
                (p,),
            ),
        forall|p: TParam, r: TResult|
            #[trigger] RRefFn::<'a, TParam, TResult>::from_spec(inner).yields(p, r)
                == call_ensures(*inner, (p,), r),
{
}

/// For any number of calls: a run of calls through a borrow adapter is a run of calls of the
/// borrowed callable. Each argument of the run that the callable accepts, the adapter accepts,
/// and each result that the adapter returned is one that the callable may return there.
pub proof fn ref_fn_runs_as_borrowed<'a, T, TParam, TResult>(
    inner: &'a T,
    args: Seq<TParam>,
    results: Seq<TResult>,
) where T: 'a + Fn(TParam) -> TResult
    requires
        args.len() == results.len(),
        forall|i: int| 0 <= i < args.len() ==> call_requires(*inner, (#[trigger] args[i],)),
        forall|i: int|
            0 <= i < args.len() ==> RRefFn::<'a, TParam, TResult>::from_spec(inner).yields(
                #[trigger] args[i],
                results[i],
            ),
    ensures
        forall|i: int|
            0 <= i < args.len() ==> RRefFn::<'a, TParam, TResult>::from_spec(inner).accepts(
                #[trigger] args[i],
            ) && call_ensures(*inner, (args[i],), results[i]),
{
}

/// Where the borrowed callable's result on `p` is determined, any two calls of the borrow
/// adapter on `p` return that same value.
pub proof fn ref_fn_calls_agree<'a, T, TParam, TResult>(
    inner: &'a T,
    p: TParam,
    first: TResult,
    second: TResult,
) where T: 'a + Fn(TParam) -> TResult
    requires
        forall|a: TResult, b: TResult|
            call_ensures(*inner, (p,), a) && call_ensures(*inner, (p,), b) ==> a == b,
        RRefFn::<'a, TParam, TResult>::from_spec(inner).yields(p, first),
        RRefFn::<'a, TParam, TResult>::from_spec(inner).yields(p, second),
    ensures
        first == second,
        call_ensures(*inner, (p,), first),
{
}

impl<'a, TParam, TResult> RRefFn<'a, TParam, TResult> {
    /// Borrows `inner` for `'a` behind a fixed representation; nothing is allocated.
    pub fn new<T: 'a + Fn(TParam) -> TResult>(inner: &'a T) -> (r: Self)
        ensures
            forall|p: TParam| #[trigger] r.accepts(p) == call_requires(*inner, (p,)),
            forall|p: TParam, v: TResult| #[trigger] r.yields(p, v) == call_ensures(*inner, (p,), v),
    {
        proof {
            ref_fn_behaves_as_borrowed::<'a, T, TParam, TResult>(inner);
        }
        Self::from(inner)
    }
}

impl<'a, TParam, TResult: 'a> RFn<'a, TParam, TResult> for RRefFn<'a, TParam, TResult> {
    closed spec fn accepts(&self, p: TParam) -> bool {
        self.inner.pre(p)
    }

    closed spec fn yields(&self, p: TParam, r: TResult) -> bool {
        self.inner.post(p, r)
    }

    fn call(&'a self, p: TParam) -> (r: TResult) {
        self.inner.dispatch(p)
    }
}

/// A shared callable that owns its environment on the heap and releases it when discarded.
#[verifier::reject_recursive_types(TParam)]
#[verifier::reject_recursive_types(TResult)]
pub struct RBoxFn<'a, TParam, TResult> {
    inner: Box<dyn Dispatch<TParam, TResult> + 'a>,
}

impl<'a, TFn, TParam, TResult> From<TFn> for RBoxFn<'a, TParam, TResult> where
    TFn: 'a + Fn(TParam) -> TResult,
 {
    fn from(inner: TFn) -> (r: Self) {
        RBoxFn { inner: Box::new(inner) }
    }
}

impl<'a, TFn, TParam, TResult> vstd::std_specs::convert::FromSpecImpl<TFn> for RBoxFn<'a, TParam, TResult> where
    TFn: 'a + Fn(TParam) -> TResult,
 {
    open spec fn obeys_from_spec() -> bool {
        true
    }

    closed spec fn from_spec(v: TFn) -> Self {
        RBoxFn { inner: Box::new(v) }
    }
}

/// An owning shared adapter accepts exactly the arguments that the moved callable accepts,
/// and may return exactly what it may return.
pub proof fn box_fn_behaves_as_moved<'a, TFn, TParam, TResult>(inner: TFn) where
    TFn: 'a + Fn(TParam) -> TResult,

    ensures
        forall|p: TParam|
            #[trigger] RBoxFn::<'a, TParam, TResult>::from_spec(inner).accepts(p) == call_requires(
                inner,
                (p,),
            ),
        forall|p: TParam, r: TResult|
            #[trigger] RBoxFn::<'a, TParam, TResult>::from_spec(inner).yields(p, r)
                == call_ensures(inner, (p,), r),
{
}

/// Where the moved callable's result on `p` is determined, any two calls of the owning
/// adapter on `p` return that same value.
pub proof fn box_fn_calls_agree<'a, TFn, TParam, TResult>(
    inner: TFn,
    p: TParam,
    first: TResult,
    second: TResult,
) where TFn: 'a + Fn(TParam) -> TResult
    requires
        forall|a: TResult, b: TResult|
            call_ensures(inner, (p,), a) && call_ensures(inner, (p,), b) ==> a == b,
        RBoxFn::<'a, TParam, TResult>::from_spec(inner).yields(p, first),
        RBoxFn::<'a, TParam, TResult>::from_spec(inner).yields(p, second),
    ensures
        first == second,
        call_ensures(inner, (p,), first),
{
}

impl<'a, TParam, TResult> RBoxFn<'a, TParam, TResult> {
    /// Moves `inner` onto the heap behind a fixed representation.
    pub fn new<TFn: 'a + Fn(TParam) -> TResult>(inner: TFn) -> (r: Self)
        ensures
            forall|p: TParam| #[trigger] r.accepts(p) == call_requires(inner, (p,)),
            forall|p: TParam, v: TResult| #[trigger] r.yields(p, v) == call_ensures(inner, (p,), v),
    {
        proof {
            box_fn_behaves_as_moved::<'a, TFn, TParam, TResult>(inner);
        }
        Self::from(inner)
    }
}

impl<'a, 'b, TParam, TResult: 'b> RFn<'b, TParam, TResult> for RBoxFn<'a, TParam, TResult> {
    closed spec fn accepts(&self, p: TParam) -> bool {
        self.inner.pre(p)
    }

    closed spec fn yields(&self, p: TParam, r: TResult) -> bool {
        self.inner.post(p, r)
    }

    fn call(&'b self, p: TParam) -> (r: TResult) {
        self.inner.dispatch(p)
    }
}

} // verus!
