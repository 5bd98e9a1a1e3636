//! How far a resumable operation has come.

use crate::error::{DatabaseError, DatabaseErrorView};
use vstd::prelude::*;

verus! {

/// The state of an operation after a step: it either waits for its host, in
/// stage `S`, or has ended with a `T` or an error.
#[derive(Debug, PartialEq, Eq)]
pub enum Progress<S, T> {
    /// The operation waits for the reply to the request of this stage.
    Pending(S),
    /// The operation has ended.
    Finished(Result<T, DatabaseError>),
}

/// The mathematical value of a [`Progress`].
pub enum ProgressView<S, T> {
    Pending(S),
    Finished(Result<T, DatabaseErrorView>),
}

impl<S, T> ProgressView<S, T> {
    /// The operation has ended well, with `value`.
    pub open spec fn gives(self, value: T) -> bool {
        self == ProgressView::<S, T>::Finished(Ok(value))
    }

    /// The operation has ended with `error`.
    pub open spec fn fails_with(self, error: DatabaseErrorView) -> bool {
        self == ProgressView::<S, T>::Finished(Err(error))
    }
}

impl<S: View, T: View> View for Progress<S, T> {
    type V = ProgressView<S::V, T::V>;

    open spec fn view(&self) -> ProgressView<S::V, T::V> {
        match *self {
            Progress::Pending(stage) => ProgressView::Pending(stage@),
            Progress::Finished(Ok(value)) => ProgressView::Finished(Ok(value@)),
            Progress::Finished(Err(error)) => ProgressView::Finished(Err(error@)),
        }
    }
}

} // verus!
