//! Predicates over items that can be combined with `&`, `|`, `^` and `!`.
use vstd::prelude::*;
use core::marker::PhantomData;
use core::ops::{BitAnd, BitOr, BitXor, Not};

verus! {

/// A test on items of type `Item`.
pub trait Predicate {
    type Item;

    /// Whether the test may be run on `item`.
    spec fn runs_on(&self, item: &Self::Item) -> bool;

    /// Whether running the test on `item` may give `r`.
    spec fn may_give(&self, item: &Self::Item, r: bool) -> bool;

    /// Runs the test on `item`.
    fn test(&self, item: &Self::Item) -> (r: bool)
        requires
            self.runs_on(item),
        ensures
            self.may_give(item, r),
    ;
}

/// A test given by a function.
#[derive(Debug)]
pub struct FnPredicate<F, T>(pub F, pub PhantomData<T>);

impl<T, F: Fn(&T) -> bool> Predicate for FnPredicate<F, T> {
    type Item = T;

    open spec fn runs_on(&self, item: &T) -> bool {
        call_requires(self.0, (item,))
    }

    open spec fn may_give(&self, item: &T, r: bool) -> bool {
        call_ensures(self.0, (item,), r)
    }

    fn test(&self, item: &T) -> (r: bool) {
        (self.0)(item)
    }
}

/// Both tests pass; the second runs only when the first passes.
#[derive(Clone, Copy, Debug)]
pub struct AndPredicate<A, B>(pub A, pub B);

impl<A: Predicate, B: Predicate<Item = A::Item>> Predicate for AndPredicate<A, B> {
    type Item = A::Item;

    open spec fn runs_on(&self, item: &A::Item) -> bool {
        self.0.runs_on(item) && (self.0.may_give(item, true) ==> self.1.runs_on(item))
    }

    open spec fn may_give(&self, item: &A::Item, r: bool) -> bool {
        ||| self.0.may_give(item, false) && !r
        ||| self.0.may_give(item, true) && self.1.may_give(item, r)
    }

    fn test(&self, item: &A::Item) -> (r: bool) {
        let Self(a, b) = self;
        a.test(item) && b.test(item)
    }
}

/// One of the tests passes; the second runs only when the first fails.
#[derive(Clone, Copy, Debug)]
pub struct OrPredicate<A, B>(pub A, pub B);

impl<A: Predicate, B: Predicate<Item = A::Item>> Predicate for OrPredicate<A, B> {
    type Item = A::Item;

    open spec fn runs_on(&self, item: &A::Item) -> bool {
        self.0.runs_on(item) && (self.0.may_give(item, false) ==> self.1.runs_on(item))
    }

    open spec fn may_give(&self, item: &A::Item, r: bool) -> bool {
        ||| self.0.may_give(item, true) && r
        ||| self.0.may_give(item, false) && self.1.may_give(item, r)
    }

    fn test(&self, item: &A::Item) -> (r: bool) {
        let Self(a, b) = self;
        a.test(item) || b.test(item)
    }
}

/// Exactly one of the tests passes; both run.
#[derive(Clone, Copy, Debug)]
pub struct XorPredicate<A, B>(pub A, pub B);

impl<A: Predicate, B: Predicate<Item = A::Item>> Predicate for XorPredicate<A, B> {
    type Item = A::Item;

    open spec fn runs_on(&self, item: &A::Item) -> bool {
        self.0.runs_on(item) && self.1.runs_on(item)
    }

    open spec fn may_give(&self, item: &A::Item, r: bool) -> bool {
        exists|x: bool, y: bool| self.0.may_give(item, x) && self.1.may_give(item, y) && r == (x != y)
    }

    fn test(&self, item: &A::Item) -> (r: bool) {
        let Self(a, b) = self;
        let x = a.test(item);
        let y = b.test(item);
        x ^ y
    }
}

/// The test fails.
#[derive(Clone, Copy, Debug)]
pub struct NotPredicate<A>(pub A);

impl<A: Predicate> Predicate for NotPredicate<A> {
    type Item = A::Item;

    open spec fn runs_on(&self, item: &A::Item) -> bool {
        self.0.runs_on(item)
    }

    open spec fn may_give(&self, item: &A::Item, r: bool) -> bool {
        self.0.may_give(item, !r)
    }

    fn test(&self, item: &A::Item) -> (r: bool) {
        !self.0.test(item)
    }
}

/// Values that can be turned into a predicate on `T`.
pub trait IntoPredicate<T> {
    type Pred: Predicate<Item = T>;

    /// The predicate that `self` is.
    spec fn as_pred(self) -> Self::Pred;

    /// The predicate that `self` is.
    fn into_predicate(self) -> (r: Self::Pred)
        ensures
            r == self.as_pred(),
    ;
}

impl<T, F: Fn(&T) -> bool> IntoPredicate<T> for F {
    type Pred = FnPredicate<F, T>;

    open spec fn as_pred(self) -> FnPredicate<F, T> {
        FnPredicate(self, PhantomData)
    }

    fn into_predicate(self) -> (r: FnPredicate<F, T>) {
        FnPredicate(self, PhantomData)
    }
}

/// A `AndPredicate` is a predicate already.
impl<A, B> IntoPredicate<<Self as Predicate>::Item> for AndPredicate<A, B> where AndPredicate<A, B>: Predicate {
    type Pred = Self;

    open spec fn as_pred(self) -> Self {
        self
    }

    fn into_predicate(self) -> (r: Self) {
        self
    }
}

impl<P: IntoPredicate<<Self as Predicate>::Item>, A, B> BitAnd<P> for AndPredicate<A, B> where AndPredicate<A, B>: Predicate {
    type Output = AndPredicate<Self, P::Pred>;

    fn bitand(self, other: P) -> (r: AndPredicate<Self, P::Pred>) {
        AndPredicate(self, other.into_predicate())
    }
}

impl<P: IntoPredicate<<Self as Predicate>::Item>, A, B> vstd::std_specs::ops::BitAndSpecImpl<P> for AndPredicate<A, B> where AndPredicate<A, B>: Predicate {
    open spec fn obeys_bitand_spec() -> bool {
        true
    }

    open spec fn bitand_req(self, rhs: P) -> bool {
        true
    }

    open spec fn bitand_spec(self, rhs: P) -> AndPredicate<Self, P::Pred> {
        AndPredicate(self, rhs.as_pred())
    }
}

impl<P: IntoPredicate<<Self as Predicate>::Item>, A, B> BitOr<P> for AndPredicate<A, B> where AndPredicate<A, B>: Predicate {
    type Output = OrPredicate<Self, P::Pred>;

    fn bitor(self, other: P) -> (r: OrPredicate<Self, P::Pred>) {
        OrPredicate(self, other.into_predicate())
    }
}

impl<P: IntoPredicate<<Self as Predicate>::Item>, A, B> vstd::std_specs::ops::BitOrSpecImpl<P> for AndPredicate<A, B> where AndPredicate<A, B>: Predicate {
    open spec fn obeys_bitor_spec() -> bool {
        true
    }

    open spec fn bitor_req(self, rhs: P) -> bool {
        true
    }

    open spec fn bitor_spec(self, rhs: P) -> OrPredicate<Self, P::Pred> {
        OrPredicate(self, rhs.as_pred())
    }
}

impl<P: IntoPredicate<<Self as Predicate>::Item>, A, B> BitXor<P> for AndPredicate<A, B> where AndPredicate<A, B>: Predicate {
    type Output = XorPredicate<Self, P::Pred>;

    fn bitxor(self, other: P) -> (r: XorPredicate<Self, P::Pred>) {
        XorPredicate(self, other.into_predicate())
    }
}

impl<P: IntoPredicate<<Self as Predicate>::Item>, A, B> vstd::std_specs::ops::BitXorSpecImpl<P> for AndPredicate<A, B> where AndPredicate<A, B>: Predicate {
    open spec fn obeys_bitxor_spec() -> bool {
        true
    }

    open spec fn bitxor_req(self, rhs: P) -> bool {
        true
    }

    open spec fn bitxor_spec(self, rhs: P) -> XorPredicate<Self, P::Pred> {
        XorPredicate(self, rhs.as_pred())
    }
}

impl<A, B> Not for AndPredicate<A, B> where AndPredicate<A, B>: Predicate {
    type Output = NotPredicate<Self>;

    fn not(self) -> (r: NotPredicate<Self>) {
        NotPredicate(self)
    }
}

impl<A, B> vstd::std_specs::ops::NotSpecImpl for AndPredicate<A, B> where AndPredicate<A, B>: Predicate {
    open spec fn obeys_not_spec() -> bool {
        true
    }

    open spec fn not_req(self) -> bool {
        true
    }

    open spec fn not_spec(self) -> NotPredicate<Self> {
        NotPredicate(self)
    }
}

/// A `OrPredicate` is a predicate already.
impl<A, B> IntoPredicate<<Self as Predicate>::Item> for OrPredicate<A, B> where OrPredicate<A, B>: Predicate {
    type Pred = Self;

    open spec fn as_pred(self) -> Self {
        self
    }

    fn into_predicate(self) -> (r: Self) {
        self
    }
}

impl<P: IntoPredicate<<Self as Predicate>::Item>, A, B> BitAnd<P> for OrPredicate<A, B> where OrPredicate<A, B>: Predicate {
    type Output = AndPredicate<Self, P::Pred>;

    fn bitand(self, other: P) -> (r: AndPredicate<Self, P::Pred>) {
        AndPredicate(self, other.into_predicate())
    }
}

impl<P: IntoPredicate<<Self as Predicate>::Item>, A, B> vstd::std_specs::ops::BitAndSpecImpl<P> for OrPredicate<A, B> where OrPredicate<A, B>: Predicate {
    open spec fn obeys_bitand_spec() -> bool {
        true
    }

    open spec fn bitand_req(self, rhs: P) -> bool {
        true
    }

    open spec fn bitand_spec(self, rhs: P) -> AndPredicate<Self, P::Pred> {
        AndPredicate(self, rhs.as_pred())
    }
}

impl<P: IntoPredicate<<Self as Predicate>::Item>, A, B> BitOr<P> for OrPredicate<A, B> where OrPredicate<A, B>: Predicate {
    type Output = OrPredicate<Self, P::Pred>;

    fn bitor(self, other: P) -> (r: OrPredicate<Self, P::Pred>) {
        OrPredicate(self, other.into_predicate())
    }
}

impl<P: IntoPredicate<<Self as Predicate>::Item>, A, B> vstd::std_specs::ops::BitOrSpecImpl<P> for OrPredicate<A, B> where OrPredicate<A, B>: Predicate {
    open spec fn obeys_bitor_spec() -> bool {
        true
    }

    open spec fn bitor_req(self, rhs: P) -> bool {
        true
    }

    open spec fn bitor_spec(self, rhs: P) -> OrPredicate<Self, P::Pred> {
        OrPredicate(self, rhs.as_pred())
    }
}

impl<P: IntoPredicate<<Self as Predicate>::Item>, A, B> BitXor<P> for OrPredicate<A, B> where OrPredicate<A, B>: Predicate {
    type Output = XorPredicate<Self, P::Pred>;

    fn bitxor(self, other: P) -> (r: XorPredicate<Self, P::Pred>) {
        XorPredicate(self, other.into_predicate())
    }
}

impl<P: IntoPredicate<<Self as Predicate>::Item>, A, B> vstd::std_specs::ops::BitXorSpecImpl<P> for OrPredicate<A, B> where OrPredicate<A, B>: Predicate {
    open spec fn obeys_bitxor_spec() -> bool {
        true
    }

    open spec fn bitxor_req(self, rhs: P) -> bool {
        true
    }

    open spec fn bitxor_spec(self, rhs: P) -> XorPredicate<Self, P::Pred> {
        XorPredicate(self, rhs.as_pred())
    }
}

impl<A, B> Not for OrPredicate<A, B> where OrPredicate<A, B>: Predicate {
    type Output = NotPredicate<Self>;

    fn not(self) -> (r: NotPredicate<Self>) {
        NotPredicate(self)
    }
}

impl<A, B> vstd::std_specs::ops::NotSpecImpl for OrPredicate<A, B> where OrPredicate<A, B>: Predicate {
    open spec fn obeys_not_spec() -> bool {
        true
    }

    open spec fn not_req(self) -> bool {
        true
    }

    open spec fn not_spec(self) -> NotPredicate<Self> {
        NotPredicate(self)
    }
}

/// A `XorPredicate` is a predicate already.
impl<A, B> IntoPredicate<<Self as Predicate>::Item> for XorPredicate<A, B> where XorPredicate<A, B>: Predicate {
    type Pred = Self;

    open spec fn as_pred(self) -> Self {
        self
    }

    fn into_predicate(self) -> (r: Self) {
        self
    }
}

impl<P: IntoPredicate<<Self as Predicate>::Item>, A, B> BitAnd<P> for XorPredicate<A, B> where XorPredicate<A, B>: Predicate {
    type Output = AndPredicate<Self, P::Pred>;

    fn bitand(self, other: P) -> (r: AndPredicate<Self, P::Pred>) {
        AndPredicate(self, other.into_predicate())
    }
}

impl<P: IntoPredicate<<Self as Predicate>::Item>, A, B> vstd::std_specs::ops::BitAndSpecImpl<P> for XorPredicate<A, B> where XorPredicate<A, B>: Predicate {
    open spec fn obeys_bitand_spec() -> bool {
        true
    }

    open spec fn bitand_req(self, rhs: P) -> bool {
        true
    }

    open spec fn bitand_spec(self, rhs: P) -> AndPredicate<Self, P::Pred> {
        AndPredicate(self, rhs.as_pred())
    }
}

impl<P: IntoPredicate<<Self as Predicate>::Item>, A, B> BitOr<P> for XorPredicate<A, B> where XorPredicate<A, B>: Predicate {
    type Output = OrPredicate<Self, P::Pred>;

    fn bitor(self, other: P) -> (r: OrPredicate<Self, P::Pred>) {
        OrPredicate(self, other.into_predicate())
    }
}

impl<P: IntoPredicate<<Self as Predicate>::Item>, A, B> vstd::std_specs::ops::BitOrSpecImpl<P> for XorPredicate<A, B> where XorPredicate<A, B>: Predicate {
    open spec fn obeys_bitor_spec() -> bool {
        true
    }

    open spec fn bitor_req(self, rhs: P) -> bool {
        true
    }

    open spec fn bitor_spec(self, rhs: P) -> OrPredicate<Self, P::Pred> {
        OrPredicate(self, rhs.as_pred())
    }
}

impl<P: IntoPredicate<<Self as Predicate>::Item>, A, B> BitXor<P> for XorPredicate<A, B> where XorPredicate<A, B>: Predicate {
    type Output = XorPredicate<Self, P::Pred>;

    fn bitxor(self, other: P) -> (r: XorPredicate<Self, P::Pred>) {
        XorPredicate(self, other.into_predicate())
    }
}

impl<P: IntoPredicate<<Self as Predicate>::Item>, A, B> vstd::std_specs::ops::BitXorSpecImpl<P> for XorPredicate<A, B> where XorPredicate<A, B>: Predicate {
    open spec fn obeys_bitxor_spec() -> bool {
        true
    }

    open spec fn bitxor_req(self, rhs: P) -> bool {
        true
    }

    open spec fn bitxor_spec(self, rhs: P) -> XorPredicate<Self, P::Pred> {
        XorPredicate(self, rhs.as_pred())
    }
}

impl<A, B> Not for XorPredicate<A, B> where XorPredicate<A, B>: Predicate {
    type Output = NotPredicate<Self>;

    fn not(self) -> (r: NotPredicate<Self>) {
        NotPredicate(self)
    }
}

impl<A, B> vstd::std_specs::ops::NotSpecImpl for XorPredicate<A, B> where XorPredicate<A, B>: Predicate {
    open spec fn obeys_not_spec() -> bool {
        true
    }

    open spec fn not_req(self) -> bool {
        true
    }

    open spec fn not_spec(self) -> NotPredicate<Self> {
        NotPredicate(self)
    }
}

/// A `NotPredicate` is a predicate already.
impl<A> IntoPredicate<<Self as Predicate>::Item> for NotPredicate<A> where NotPredicate<A>: Predicate {
    type Pred = Self;

    open spec fn as_pred(self) -> Self {
        self
    }

    fn into_predicate(self) -> (r: Self) {
        self
    }
}

impl<P: IntoPredicate<<Self as Predicate>::Item>, A> BitAnd<P> for NotPredicate<A> where NotPredicate<A>: Predicate {
    type Output = AndPredicate<Self, P::Pred>;

    fn bitand(self, other: P) -> (r: AndPredicate<Self, P::Pred>) {
        AndPredicate(self, other.into_predicate())
    }
}

impl<P: IntoPredicate<<Self as Predicate>::Item>, A> vstd::std_specs::ops::BitAndSpecImpl<P> for NotPredicate<A> where NotPredicate<A>: Predicate {
    open spec fn obeys_bitand_spec() -> bool {
        true
    }

    open spec fn bitand_req(self, rhs: P) -> bool {
        true
    }

    open spec fn bitand_spec(self, rhs: P) -> AndPredicate<Self, P::Pred> {
        AndPredicate(self, rhs.as_pred())
    }
}

impl<P: IntoPredicate<<Self as Predicate>::Item>, A> BitOr<P> for NotPredicate<A> where NotPredicate<A>: Predicate {
    type Output = OrPredicate<Self, P::Pred>;

    fn bitor(self, other: P) -> (r: OrPredicate<Self, P::Pred>) {
        OrPredicate(self, other.into_predicate())
    }
}

impl<P: IntoPredicate<<Self as Predicate>::Item>, A> vstd::std_specs::ops::BitOrSpecImpl<P> for NotPredicate<A> where NotPredicate<A>: Predicate {
    open spec fn obeys_bitor_spec() -> bool {
        true
    }

    open spec fn bitor_req(self, rhs: P) -> bool {
        true
    }

    open spec fn bitor_spec(self, rhs: P) -> OrPredicate<Self, P::Pred> {
        OrPredicate(self, rhs.as_pred())
    }
}

impl<P: IntoPredicate<<Self as Predicate>::Item>, A> BitXor<P> for NotPredicate<A> where NotPredicate<A>: Predicate {
    type Output = XorPredicate<Self, P::Pred>;

    fn bitxor(self, other: P) -> (r: XorPredicate<Self, P::Pred>) {
        XorPredicate(self, other.into_predicate())
    }
}

impl<P: IntoPredicate<<Self as Predicate>::Item>, A> vstd::std_specs::ops::BitXorSpecImpl<P> for NotPredicate<A> where NotPredicate<A>: Predicate {
    open spec fn obeys_bitxor_spec() -> bool {
        true
    }

    open spec fn bitxor_req(self, rhs: P) -> bool {
        true
    }

    open spec fn bitxor_spec(self, rhs: P) -> XorPredicate<Self, P::Pred> {
        XorPredicate(self, rhs.as_pred())
    }
}

impl<A> Not for NotPredicate<A> where NotPredicate<A>: Predicate {
    type Output = NotPredicate<Self>;

    fn not(self) -> (r: NotPredicate<Self>) {
        NotPredicate(self)
    }
}

impl<A> vstd::std_specs::ops::NotSpecImpl for NotPredicate<A> where NotPredicate<A>: Predicate {
    open spec fn obeys_not_spec() -> bool {
        true
    }

    open spec fn not_req(self) -> bool {
        true
    }

    open spec fn not_spec(self) -> NotPredicate<Self> {
        NotPredicate(self)
    }
}

/// A `FnPredicate` is a predicate already.
impl<F, T> IntoPredicate<<Self as Predicate>::Item> for FnPredicate<F, T> where FnPredicate<F, T>: Predicate {
    type Pred = Self;

    open spec fn as_pred(self) -> Self {
        self
    }

    fn into_predicate(self) -> (r: Self) {
        self
    }
}

impl<P: IntoPredicate<<Self as Predicate>::Item>, F, T> BitAnd<P> for FnPredicate<F, T> where FnPredicate<F, T>: Predicate {
    type Output = AndPredicate<Self, P::Pred>;

    fn bitand(self, other: P) -> (r: AndPredicate<Self, P::Pred>) {
        AndPredicate(self, other.into_predicate())
    }
}

impl<P: IntoPredicate<<Self as Predicate>::Item>, F, T> vstd::std_specs::ops::BitAndSpecImpl<P> for FnPredicate<F, T> where FnPredicate<F, T>: Predicate {
    open spec fn obeys_bitand_spec() -> bool {
        true
    }

    open spec fn bitand_req(self, rhs: P) -> bool {
        true
    }

    open spec fn bitand_spec(self, rhs: P) -> AndPredicate<Self, P::Pred> {
        AndPredicate(self, rhs.as_pred())
    }
}

impl<P: IntoPredicate<<Self as Predicate>::Item>, F, T> BitOr<P> for FnPredicate<F, T> where FnPredicate<F, T>: Predicate {
    type Output = OrPredicate<Self, P::Pred>;

    fn bitor(self, other: P) -> (r: OrPredicate<Self, P::Pred>) {
        OrPredicate(self, other.into_predicate())
    }
}

impl<P: IntoPredicate<<Self as Predicate>::Item>, F, T> vstd::std_specs::ops::BitOrSpecImpl<P> for FnPredicate<F, T> where FnPredicate<F, T>: Predicate {
    open spec fn obeys_bitor_spec() -> bool {
        true
    }

    open spec fn bitor_req(self, rhs: P) -> bool {
        true
    }

    open spec fn bitor_spec(self, rhs: P) -> OrPredicate<Self, P::Pred> {
        OrPredicate(self, rhs.as_pred())
    }
}

impl<P: IntoPredicate<<Self as Predicate>::Item>, F, T> BitXor<P> for FnPredicate<F, T> where FnPredicate<F, T>: Predicate {
    type Output = XorPredicate<Self, P::Pred>;

    fn bitxor(self, other: P) -> (r: XorPredicate<Self, P::Pred>) {
        XorPredicate(self, other.into_predicate())
    }
}

impl<P: IntoPredicate<<Self as Predicate>::Item>, F, T> vstd::std_specs::ops::BitXorSpecImpl<P> for FnPredicate<F, T> where FnPredicate<F, T>: Predicate {
    open spec fn obeys_bitxor_spec() -> bool {
        true
    }

    open spec fn bitxor_req(self, rhs: P) -> bool {
        true
    }

    open spec fn bitxor_spec(self, rhs: P) -> XorPredicate<Self, P::Pred> {
        XorPredicate(self, rhs.as_pred())
    }
}

impl<F, T> Not for FnPredicate<F, T> where FnPredicate<F, T>: Predicate {
    type Output = NotPredicate<Self>;

    fn not(self) -> (r: NotPredicate<Self>) {
        NotPredicate(self)
    }
}

impl<F, T> vstd::std_specs::ops::NotSpecImpl for FnPredicate<F, T> where FnPredicate<F, T>: Predicate {
    open spec fn obeys_not_spec() -> bool {
        true
    }

    open spec fn not_req(self) -> bool {
        true
    }

    open spec fn not_spec(self) -> NotPredicate<Self> {
        NotPredicate(self)
    }
}

/// De Morgan: "not (a and b)" runs on the same items and gives the same outcomes as
/// "(not a) or (not b)".
pub proof fn law_de_morgan<A: Predicate, B: Predicate<Item = A::Item>>(a: A, b: B, item: &A::Item, r: bool)
    ensures
        NotPredicate(AndPredicate(a, b)).runs_on(item) == OrPredicate(NotPredicate(a), NotPredicate(b)).runs_on(item),
        NotPredicate(AndPredicate(a, b)).may_give(item, r) == OrPredicate(NotPredicate(a), NotPredicate(b)).may_give(item, r),
{
}

/// A conjunction passes only where both tests may pass, a disjunction fails only where both
/// may fail, and an exclusive or passes only where the two may differ.
pub proof fn law_combined_outcomes<A: Predicate, B: Predicate<Item = A::Item>>(a: A, b: B, item: &A::Item)
    ensures
        AndPredicate(a, b).may_give(item, true) ==> a.may_give(item, true) && b.may_give(item, true),
        OrPredicate(a, b).may_give(item, false) ==> a.may_give(item, false) && b.may_give(item, false),
        XorPredicate(a, b).may_give(item, true) ==> exists|x: bool| a.may_give(item, x) && b.may_give(item, !x),
{
}

} // verus!
