use std::hash::{Hash, Hasher};
use std::ops::Deref;
use std::sync::Arc;
use vstd::prelude::*;
use vstd::std_specs::cmp::PartialEqSpec;

use crate::decimal::{append_decimal, decimal_digits, lemma_decimal_digits_injective};
use crate::transport::UListener;

verus! {

/// `<usize as std::hash::Hash>::hash`: feeds the integer into the hasher. The
/// contract claims only that the call returns; nothing is said of the hasher's state
/// afterwards.
pub assume_specification<H: Hasher>[ <usize as Hash>::hash::<H> ](data: &usize, state: &mut H);

/// Feeds an unsigned integer into a hasher, as `Hash` does for `usize`: one run of it
/// is one integer fed into the hasher, from the state it had to the state it ends in.
pub fn feed_usize<H: Hasher>(value: usize, state: &mut H) {
    value.hash(state);
}

/// The address of the allocation that `listener` points to.
///
/// Calls `std::sync::Arc::as_ptr` and takes the address of the pointer it returns,
/// without the metadata of a `dyn` pointer. Nothing is claimed of the value: it is
/// where the allocator put the listener, and two calls on handles to one allocation
/// give the same value, which is more than the contract states.
#[verifier::external_body]
fn allocation_address<L: ?Sized>(listener: &Arc<L>) -> usize {
    Arc::as_ptr(listener).addr()
}

/// A wrapper type that allows comparing [`UListener`]s to each other.
///
/// Two `ComparableListener`s are equal exactly when they hold the same listener, that is
/// when their handles point to the same allocation, whatever the listener's contents.
/// The address of that allocation is the wrapper's identity: it is taken once, when the
/// wrapper is made, and equality, hashing and the debug text all go by it.
///
/// Not necessary for end-user uEs to use; primarily intended for transport libraries
/// when implementing [`crate::UTransport`], to hold listeners in collections that
/// require hashing, such as a `HashMap` or `HashSet`.
pub struct ComparableListener<L: ?Sized = dyn UListener> {
    listener: Arc<L>,
    address: usize,
}

impl<L: ?Sized> ComparableListener<L> {
    /// The identity of the wrapped listener: the address of its allocation.
    pub closed spec fn identity(&self) -> usize {
        self.address
    }

    /// The wrapped handle to the listener.
    pub closed spec fn listener(&self) -> Arc<L> {
        self.listener
    }

    /// Wraps a listener.
    pub fn new(listener: Arc<L>) -> (wrapped: Self)
        ensures
            wrapped.listener() == listener,
    {
        let address = allocation_address(&listener);
        ComparableListener { listener, address }
    }

    /// Gets a clone of the wrapped reference to the listener.
    pub fn into_inner(&self) -> (listener: Arc<L>)
        ensures
            listener == self.listener(),
    {
        self.listener.clone()
    }

    /// The address of the wrapped listener's allocation.
    pub fn pointer_address(&self) -> (address: usize)
        ensures
            address == self.identity(),
    {
        self.address
    }

    /// The text that identifies this wrapper in debug output:
    /// `ComparableListener: ` followed by the listener's address in decimal.
    pub fn to_debug_string(&self) -> (text: String)
        ensures
            text@ == "ComparableListener: "@ + decimal_digits(self.identity() as nat),
    {
        let mut text = String::from_str("ComparableListener: ");
        append_decimal(&mut text, self.address);
        text
    }

    /// Two wrappers are equal exactly when their debug texts are: the text names the
    /// listener.
    pub proof fn lemma_debug_string_identifies(a: Self, b: Self)
        ensures
            a.eq_spec(&b) <==> "ComparableListener: "@ + decimal_digits(a.identity() as nat)
                == "ComparableListener: "@ + decimal_digits(b.identity() as nat),
    {
        let prefix = "ComparableListener: "@;
        let da = decimal_digits(a.identity() as nat);
        let db = decimal_digits(b.identity() as nat);
        if prefix + da == prefix + db {
            assert(da =~= (prefix + da).subrange(prefix.len() as int, (prefix + da).len() as int));
            assert(db =~= (prefix + db).subrange(prefix.len() as int, (prefix + db).len() as int));
            lemma_decimal_digits_injective(a.identity() as nat, b.identity() as nat);
        }
    }

    /// `==` on wrappers is an equivalence relation: reflexive, symmetric and transitive.
    pub proof fn lemma_eq_is_equivalence()
        ensures
            forall|a: Self| #[trigger] a.eq_spec(&a),
            vstd::laws_eq::obeys_eq::<Self>(),
    {
        reveal(vstd::laws_eq::obeys_eq_spec_properties);
    }

    /// Two wrappers are equal exactly when their pointer addresses are.
    pub proof fn lemma_eq_iff_same_address(a: Self, b: Self)
        ensures
            a.eq_spec(&b) <==> a.identity() == b.identity(),
    {
    }
}

impl<L: ?Sized> Clone for ComparableListener<L> {
    /// A second wrapper of the same listener, equal to this one.
    fn clone(&self) -> (copy: Self)
        ensures
            copy == *self,
    {
        ComparableListener { listener: self.listener.clone(), address: self.address }
    }
}

impl<L: ?Sized> Deref for ComparableListener<L> {
    type Target = L;

    fn deref(&self) -> (listener: &L)
        ensures
            listener == &*self.listener(),
    {
        &*self.listener
    }
}

impl<L: ?Sized> Hash for ComparableListener<L> {
    /// Feeds the address of the wrapped listener into the given [`Hasher`], and nothing
    /// else: the hasher ends as one run of `feed_usize` with `self.identity()` (the
    /// pointer address) leaves it, started from the state it had. Wrappers that differ
    /// feed different integers; equal ones feed the same, which is consistent with
    /// [`ComparableListener::eq`].
    fn hash<H: Hasher>(&self, state: &mut H)
        ensures
            exists|fed: &mut H|
                *fed == *old(state) && *final(fed) == *final(state) && #[trigger] call_ensures(
                    feed_usize::<H>,
                    (self.identity(), fed),
                    (),
                ),
    {
        proof {
            assert(self.identity() == self.address);
        }
        feed_usize(self.address, state);
    }
}

impl<L: ?Sized> PartialEq for ComparableListener<L> {
    /// `true` if the listener held by `self` is the one held by `other`.
    /// This is consistent with the implementation of [`ComparableListener::hash`].
    fn eq(&self, other: &Self) -> (same: bool) {
        self.address == other.address
    }
}

impl<L: ?Sized> vstd::std_specs::cmp::PartialEqSpecImpl for ComparableListener<L> {
    open spec fn obeys_eq_spec() -> bool {
        true
    }

    open spec fn eq_spec(&self, other: &Self) -> bool {
        self.identity() == other.identity()
    }
}

impl<L: ?Sized> Eq for ComparableListener<L> {

}

} // verus!
