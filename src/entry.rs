use std::any::{Any, TypeId};
use std::sync::Arc;
use vstd::prelude::*;

verus! {

#[verifier::external_type_specification]
#[verifier::external_body]
pub struct ExTypeId(TypeId);

/// Relies on `TypeId`'s `PartialEq`: two identifiers compare equal exactly
/// when they are the same identifier.
pub assume_specification[ <TypeId as PartialEq>::eq ](a: &TypeId, b: &TypeId) -> (r: bool)
    ensures
        r == (*a == *b),
;

/// A shared handle to a substitute callable, in the shape in which it is
/// stored behind the type erasure.
pub struct MockWrapper<F: ?Sized>(pub Arc<F>);

/// The type-erased payload of an entry: a boxed `MockWrapper<F>` for some `F`.
/// Verus does not take a trait object with more than one trait, so the box is
/// kept out of its sight; only the functions of this module touch it.
#[verifier::external_body]
pub struct ErasedMock {
    inner: Box<dyn Any + Send + Sync>,
}

/// Relies on `Box::new` and the unsizing coercion to `dyn Any`: the handle is
/// stored as it is.
#[verifier::external_body]
fn erase<F: ?Sized + Send + Sync + 'static>(mock: Arc<F>) -> (r: ErasedMock) {
    ErasedMock { inner: Box::new(MockWrapper(mock)) }
}

/// Relies on `TypeId::of`: the identifier of the stored shape for `F`.
#[verifier::external_body]
fn type_of_mock<F: ?Sized + Send + Sync + 'static>() -> (r: TypeId) {
    TypeId::of::<MockWrapper<F>>()
}

/// Relies on `downcast_ref` and `Arc::clone`: the stored handle, shared
/// again, when the payload holds a `MockWrapper<F>`, else nothing.
#[verifier::external_body]
fn recover<F: ?Sized + Send + Sync + 'static>(payload: &ErasedMock) -> (r: Option<Arc<F>>) {
    payload.inner.downcast_ref::<MockWrapper<F>>().map(|w| Arc::clone(&w.0))
}

/// A stored substitute: the erased handle together with the runtime
/// identifier of the type it was stored with.
pub struct MockEntry {
    tid: TypeId,
    payload: ErasedMock,
}

impl MockEntry {
    /// The identifier of the callable type this entry was stored with.
    pub closed spec fn tag(&self) -> TypeId {
        self.tid
    }

    /// Erases a shared callable into an entry.
    pub fn new<F: ?Sized + Send + Sync + 'static>(mock: Arc<F>) -> (r: MockEntry) {
        let tid = type_of_mock::<F>();
        let payload = erase(mock);
        MockEntry { tid, payload }
    }

    /// The identifier that `recover` compares against.
    pub fn type_tag(&self) -> (r: &TypeId)
        ensures
            *r == self.tag(),
    {
        &self.tid
    }

    /// The identifier that an entry made for callable type `F` carries.
    pub fn tag_for<F: ?Sized + Send + Sync + 'static>() -> (r: TypeId) {
        type_of_mock::<F>()
    }

    /// Recovers the stored handle as callable type `F`: nothing when the
    /// identifier of `F` differs from the stored one.
    pub fn recover<F: ?Sized + Send + Sync + 'static>(&self) -> (r: Option<Arc<F>>) {
        let want = type_of_mock::<F>();
        if want == self.tid {
            recover::<F>(&self.payload)
        } else {
            None
        }
    }
}

} // verus!
