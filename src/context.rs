//! Contexts: values that can be polled to tell whether the state they
//! describe still holds.
use vstd::prelude::*;
use vstd::std_specs::cmp::PartialEqSpec;
use vstd::std_specs::cmp::PartialOrdSpec;
use vstd::std_specs::cmp::PartialEqIs;
use vstd::std_specs::cmp::PartialOrdIs;

verus! {

/// A value that can be asked whether the clause it stands for still holds.
pub trait ContractContext {
    /// Whether the clause still holds.
    fn poll_valid(&self) -> bool;
}

impl ContractContext for bool {
    /// A flag is its own validity.
    fn poll_valid(&self) -> (r: bool)
        ensures
            r == *self,
    {
        *self
    }
}

impl ContractContext for () {
    /// The unit value never invalidates its contract.
    fn poll_valid(&self) -> (r: bool)
        ensures
            r,
    {
        true
    }
}

impl ContractContext for u8 {
    /// A number never invalidates its contract.
    fn poll_valid(&self) -> (r: bool)
        ensures
            r,
    {
        true
    }
}

impl ContractContext for u16 {
    /// A number never invalidates its contract.
    fn poll_valid(&self) -> (r: bool)
        ensures
            r,
    {
        true
    }
}

impl ContractContext for u32 {
    /// A number never invalidates its contract.
    fn poll_valid(&self) -> (r: bool)
        ensures
            r,
    {
        true
    }
}

impl ContractContext for u64 {
    /// A number never invalidates its contract.
    fn poll_valid(&self) -> (r: bool)
        ensures
            r,
    {
        true
    }
}

impl ContractContext for u128 {
    /// A number never invalidates its contract.
    fn poll_valid(&self) -> (r: bool)
        ensures
            r,
    {
        true
    }
}

impl ContractContext for usize {
    /// A number never invalidates its contract.
    fn poll_valid(&self) -> (r: bool)
        ensures
            r,
    {
        true
    }
}

impl ContractContext for i8 {
    /// A number never invalidates its contract.
    fn poll_valid(&self) -> (r: bool)
        ensures
            r,
    {
        true
    }
}

impl ContractContext for i16 {
    /// A number never invalidates its contract.
    fn poll_valid(&self) -> (r: bool)
        ensures
            r,
    {
        true
    }
}

impl ContractContext for i32 {
    /// A number never invalidates its contract.
    fn poll_valid(&self) -> (r: bool)
        ensures
            r,
    {
        true
    }
}

impl ContractContext for i64 {
    /// A number never invalidates its contract.
    fn poll_valid(&self) -> (r: bool)
        ensures
            r,
    {
        true
    }
}

impl ContractContext for i128 {
    /// A number never invalidates its contract.
    fn poll_valid(&self) -> (r: bool)
        ensures
            r,
    {
        true
    }
}

impl ContractContext for isize {
    /// A number never invalidates its contract.
    fn poll_valid(&self) -> (r: bool)
        ensures
            r,
    {
        true
    }
}

/// An empty context, for contracts that cannot be voided.
#[derive(Clone, Copy, Debug)]
pub struct DefaultContext;

impl DefaultContext {
    pub fn new() -> (r: Self)
        ensures
            r == DefaultContext,
    {
        DefaultContext
    }
}

impl Default for DefaultContext {
    fn default() -> (r: Self)
        ensures
            r == DefaultContext,
    {
        DefaultContext::new()
    }
}

impl ContractContext for DefaultContext {
    /// Always valid.
    fn poll_valid(&self) -> (r: bool)
        ensures
            r,
    {
        true
    }
}

/// Valid while its two elements are equal.
#[derive(Clone, Copy, Debug)]
pub struct EqContext<A, B>(pub A, pub B);

impl<A: PartialEq<B>, B> ContractContext for EqContext<A, B> {
    fn poll_valid(&self) -> (r: bool)
        ensures
            A::obeys_eq_spec() ==> r == self.0.is_eq(&self.1),
    {
        self.0 == self.1
    }
}

/// Valid while its two elements differ.
#[derive(Clone, Copy, Debug)]
pub struct NqContext<A, B>(pub A, pub B);

impl<A: PartialEq<B>, B> ContractContext for NqContext<A, B> {
    fn poll_valid(&self) -> (r: bool)
        ensures
            A::obeys_eq_spec() ==> r == self.0.is_ne(&self.1),
    {
        self.0 != self.1
    }
}

/// Valid while the first element is less than the second.
#[derive(Clone, Copy, Debug)]
pub struct LtContext<A>(pub A, pub A);

impl<A: Ord> ContractContext for LtContext<A> {
    fn poll_valid(&self) -> (r: bool)
        ensures
            A::obeys_partial_cmp_spec() ==> r == self.0.is_lt(&self.1),
    {
        self.0 < self.1
    }
}

/// Valid while the first element is at most the second.
#[derive(Clone, Copy, Debug)]
pub struct LeContext<A>(pub A, pub A);

impl<A: Ord> ContractContext for LeContext<A> {
    fn poll_valid(&self) -> (r: bool)
        ensures
            A::obeys_partial_cmp_spec() ==> r == self.0.is_le(&self.1),
    {
        self.0 <= self.1
    }
}

/// Valid while the first element is greater than the second.
#[derive(Clone, Copy, Debug)]
pub struct GtContext<A>(pub A, pub A);

impl<A: Ord> ContractContext for GtContext<A> {
    fn poll_valid(&self) -> (r: bool)
        ensures
            A::obeys_partial_cmp_spec() ==> r == self.0.is_gt(&self.1),
    {
        self.0 > self.1
    }
}

/// Valid while the first element is at least the second.
#[derive(Clone, Copy, Debug)]
pub struct GeContext<A>(pub A, pub A);

impl<A: Ord> ContractContext for GeContext<A> {
    fn poll_valid(&self) -> (r: bool)
        ensures
            A::obeys_partial_cmp_spec() ==> r == self.0.is_ge(&self.1),
    {
        self.0 >= self.1
    }
}

/// The kinds of context errors.
#[derive(PartialEq, Eq, Structural, Clone, Copy, Debug)]
pub enum ContextErrorKind {
    /// The context is no longer available in this contract.
    ExpiredContext,
}

/// An error about a contract's context.
#[derive(Debug)]
pub struct ContextError {
    kind: ContextErrorKind,
}

impl ContextError {
    /// The error of the given kind.
    pub fn from(kind: ContextErrorKind) -> (r: Self)
        ensures
            r.kind() == kind,
    {
        ContextError { kind }
    }

    pub closed spec fn kind_spec(&self) -> ContextErrorKind {
        self.kind
    }

    /// The kind of this error.
    #[verifier::when_used_as_spec(kind_spec)]
    pub fn kind(&self) -> (r: ContextErrorKind)
        ensures
            r == self.kind_spec(),
    {
        self.kind
    }
}

} // verus!
