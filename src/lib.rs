//! Callables that cross a boundary through a fixed representation: a borrowed or boxed
//! environment paired with the dispatch that was generated for its concrete type.
mod rfn;
mod rfnmut;
mod rfnonce;

pub use rfn::{
    box_fn_behaves_as_moved, box_fn_calls_agree, ref_fn_behaves_as_borrowed, ref_fn_calls_agree,
    ref_fn_runs_as_borrowed, RBoxFn, RFn, RRefFn,
};
pub use rfnmut::{
    box_fn_mut_behaves_as_moved, ref_fn_mut_behaves_as_borrowed, RBoxFnMut, RFnMut, RRefFnMut,
};
pub use rfnonce::{box_fn_once_behaves_as_moved, RBoxFnOnce, RFnOnce};
