//! Append-only, identity-bearing object storage
//!
//! Objects live in a [`Store`], one per object kind. A [`Handle`] names one
//! slot of a store. Identities are handed out in increasing order, never
//! reused, and a slot, once bound to content, never changes again.

use vstd::prelude::*;

verus! {

/// An identity-bearing reference to an object in a [`Store`]
///
/// Two handles are equal if and only if they name the same identity, whatever
/// the content behind them.
#[derive(Clone, Copy, Debug, PartialEq, Eq, Hash, Structural)]
pub struct Handle {
    pub id: usize,
}

/// An error that signals a misuse of a [`Store`]
#[derive(Clone, Copy, Debug, PartialEq, Eq, Structural)]
pub enum StoreError {
    /// The handle was not reserved in this store
    NotFound,
    /// The handle has already been bound to content
    AlreadyInserted,
}

/// The slots after a reservation, and the reserved handle
pub open spec fn spec_reserve<T>(slots: Seq<Option<T>>) -> (Seq<Option<T>>, Handle) {
    (slots.push(None), Handle { id: slots.len() as usize })
}

/// The slots after an insertion, and its outcome
pub open spec fn spec_insert<T>(slots: Seq<Option<T>>, h: Handle, object: T) -> (Seq<Option<T>>, Result<(), StoreError>) {
    if h.id >= slots.len() {
        (slots, Err(StoreError::NotFound))
    } else if slots[h.id as int] is Some {
        (slots, Err(StoreError::AlreadyInserted))
    } else {
        (slots.update(h.id as int, Some(object)), Ok(()))
    }
}

/// `new` keeps every slot of `old`, and every bound slot's content
pub open spec fn extends<T>(old: Seq<Option<T>>, new: Seq<Option<T>>) -> bool {
    &&& old.len() <= new.len()
    &&& forall|i: int| 0 <= i < old.len() && (#[trigger] old[i]) is Some ==> new[i] == old[i]
}

/// A repository of objects of one kind
pub struct Store<T> {
    slots: Vec<Option<T>>,
}

impl<T> View for Store<T> {
    type V = Seq<Option<T>>;

    closed spec fn view(&self) -> Seq<Option<T>> {
        self.slots@
    }
}

impl<T> Store<T> {
    /// Whether `h` names a slot of this store that holds content
    pub open spec fn contains(&self, h: Handle) -> bool {
        h.id < self@.len() && self@[h.id as int] is Some
    }

    /// The content behind `h`
    pub open spec fn spec_get(&self, h: Handle) -> T
        recommends
            self.contains(h),
    {
        self@[h.id as int]->Some_0
    }

    /// Construct an empty store
    pub fn new() -> (r: Self)
        ensures
            r@ == Seq::<Option<T>>::empty(),
    {
        Store { slots: Vec::new() }
    }

    /// The number of identities handed out so far
    pub fn len(&self) -> (r: usize)
        ensures
            r == self@.len(),
    {
        self.slots.len()
    }

    /// Allocate a fresh identity, with no content bound to it yet
    pub fn reserve(&mut self) -> (h: Handle)
        ensures
            (final(self)@, h) == spec_reserve(old(self)@),
            h.id == old(self)@.len(),
            extends(old(self)@, final(self)@),
    {
        let id = self.slots.len();
        self.slots.push(None);
        let grown: usize = self.slots.len();
        Handle { id }
    }

    /// Bind content to a reserved identity
    ///
    /// Fails if the identity was not reserved here, or already holds content.
    pub fn insert(&mut self, h: Handle, object: T) -> (r: Result<(), StoreError>)
        ensures
            (final(self)@, r) == spec_insert(old(self)@, h, object),
            extends(old(self)@, final(self)@),
    {
        if h.id >= self.slots.len() {
            return Err(StoreError::NotFound);
        }
        if self.slots[h.id].is_some() {
            return Err(StoreError::AlreadyInserted);
        }
        self.slots.set(h.id, Some(object));
        Ok(())
    }

    /// Reserve an identity and bind `object` to it
    pub fn push(&mut self, object: T) -> (h: Handle)
        ensures
            h.id == old(self)@.len(),
            final(self)@ == old(self)@.push(Some(object)),
            extends(old(self)@, final(self)@),
    {
        let h = self.reserve();
        let r = self.insert(h, object);
        proof {
            assert(final(self)@ =~= old(self)@.push(Some(object)));
        }
        h
    }

    /// Access the content behind a handle
    pub fn get(&self, h: Handle) -> (r: &T)
        requires
            self.contains(h),
        ensures
            *r == self.spec_get(h),
    {
        self.slots[h.id].as_ref().unwrap()
    }
}

/// Reserving an identity and binding content to it right away always
/// succeeds; binding content to that identity a second time is rejected.
pub proof fn lemma_reserve_then_insert<T>(slots: Seq<Option<T>>, first: T, second: T)
    requires
        slots.len() < usize::MAX,
    ensures
        ({
            let (reserved, h) = spec_reserve(slots);
            let (inserted, r1) = spec_insert(reserved, h, first);
            let (again, r2) = spec_insert(inserted, h, second);
            &&& r1 == Ok::<(), StoreError>(())
            &&& inserted[h.id as int] == Some(first)
            &&& r2 == Err::<(), StoreError>(StoreError::AlreadyInserted)
            &&& again == inserted
        }),
{
}

/// Two objects stored one after the other get distinct identities, even
/// where their contents are equal; a handle only ever equals its copies.
pub proof fn lemma_fresh_identities<T>(slots: Seq<Option<T>>, first: T, second: T)
    requires
        slots.len() + 1 < usize::MAX,
    ensures
        ({
            let (reserved, a) = spec_reserve(slots);
            let (inserted, _) = spec_insert(reserved, a, first);
            let (again, b) = spec_reserve(inserted);
            &&& a != b
            &&& forall|h: Handle| h == a <==> h.id == a.id
        }),
{
}

/// A store never changes content it has handed out: whatever sequence of
/// reservations and insertions leads from one state to another, and from
/// there to a third, every bound slot of the first reads the same in the last.
pub proof fn lemma_extends_trans<T>(a: Seq<Option<T>>, b: Seq<Option<T>>, c: Seq<Option<T>>)
    requires
        extends(a, b),
        extends(b, c),
    ensures
        extends(a, c),
{
}

/// Every state extends itself.
pub proof fn lemma_extends_refl<T>(a: Seq<Option<T>>)
    ensures
        extends(a, a),
{
}

} // verus!
