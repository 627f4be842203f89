//! The arguments of a callback: as values, and as the tuple that a closure takes.
use crate::ffi::types::{Arg, FfiPrimitive, Value};
use vstd::prelude::*;

verus! {

/// The arguments of a callback.
pub struct DynamicList {
    pub values: Vec<Value>,
}

/// The arguments of a typed closure, as a tuple of what a call can return.
pub trait DynamicArgs: Sized {
    /// The typed arguments that a list holds, if it has as many values as the
    /// tuple, each of its type.
    spec fn extracted(list: DynamicList) -> Option<Self>;

    /// Takes the typed arguments out of a list.
    fn extract(list: DynamicList) -> (args: Option<Self>)
        ensures
            args == Self::extracted(list),
    ;
}

/// Takes the last argument out of a list that has one.
fn popTyped<T: FfiPrimitive>(values: &mut Vec<Value>) -> (arg: Option<T>)
    requires
        old(values)@.len() > 0,
    ensures
        arg == T::decoded(old(values)@.last()),
        final(values)@ == old(values)@.drop_last(),
{
    match values.pop() {
        Some(content) => match T::fromFfiValue(Arg(content)) {
            Ok(arg) => Some(arg),
            Err(_) => None,
        },
        None => None,
    }
}

impl DynamicArgs for () {
    open spec fn extracted(list: DynamicList) -> Option<Self> {
        if list.values@.len() == 0 {
            Some(())
        } else {
            None
        }
    }

    fn extract(list: DynamicList) -> (args: Option<Self>) {
        if list.values.len() == 0 {
            Some(())
        } else {
            None
        }
    }
}

impl<A: FfiPrimitive> DynamicArgs for (A,) {
    open spec fn extracted(list: DynamicList) -> Option<Self> {
        let values = list.values@;
        if values.len() == 1
            && A::decoded(values[0]) is Some {
            Some(
                (
                    A::decoded(values[0])->0,
                ),
            )
        } else {
            None
        }
    }

    fn extract(list: DynamicList) -> (args: Option<Self>) {
        let mut values: Vec<Value> = list.values;
        if values.len() != 1 {
            return None;
        }
        let a: Option<A> = popTyped::<A>(&mut values);
        match a {
            Some(a) => Some((a,)),
            _ => None,
        }
    }
}

impl<A: FfiPrimitive, B: FfiPrimitive> DynamicArgs for (A, B) {
    open spec fn extracted(list: DynamicList) -> Option<Self> {
        let values = list.values@;
        if values.len() == 2
            && A::decoded(values[0]) is Some
            && B::decoded(values[1]) is Some {
            Some(
                (
                    A::decoded(values[0])->0,
                    B::decoded(values[1])->0,
                ),
            )
        } else {
            None
        }
    }

    fn extract(list: DynamicList) -> (args: Option<Self>) {
        let mut values: Vec<Value> = list.values;
        if values.len() != 2 {
            return None;
        }
        let b: Option<B> = popTyped::<B>(&mut values);
        let a: Option<A> = popTyped::<A>(&mut values);
        match (a, b) {
            (Some(a), Some(b)) => Some((a, b)),
            _ => None,
        }
    }
}

impl<A: FfiPrimitive, B: FfiPrimitive, C: FfiPrimitive> DynamicArgs for (A, B, C) {
    open spec fn extracted(list: DynamicList) -> Option<Self> {
        let values = list.values@;
        if values.len() == 3
            && A::decoded(values[0]) is Some
            && B::decoded(values[1]) is Some
            && C::decoded(values[2]) is Some {
            Some(
                (
                    A::decoded(values[0])->0,
                    B::decoded(values[1])->0,
                    C::decoded(values[2])->0,
                ),
            )
        } else {
            None
        }
    }

    fn extract(list: DynamicList) -> (args: Option<Self>) {
        let mut values: Vec<Value> = list.values;
        if values.len() != 3 {
            return None;
        }
        let c: Option<C> = popTyped::<C>(&mut values);
        let b: Option<B> = popTyped::<B>(&mut values);
        let a: Option<A> = popTyped::<A>(&mut values);
        match (a, b, c) {
            (Some(a), Some(b), Some(c)) => Some((a, b, c)),
            _ => None,
        }
    }
}

impl<
    A: FfiPrimitive,
    B: FfiPrimitive,
    C: FfiPrimitive,
    D: FfiPrimitive,
> DynamicArgs for (A, B, C, D) {
    open spec fn extracted(list: DynamicList) -> Option<Self> {
        let values = list.values@;
        if values.len() == 4
            && A::decoded(values[0]) is Some
            && B::decoded(values[1]) is Some
            && C::decoded(values[2]) is Some
            && D::decoded(values[3]) is Some {
            Some(
                (
                    A::decoded(values[0])->0,
                    B::decoded(values[1])->0,
                    C::decoded(values[2])->0,
                    D::decoded(values[3])->0,
                ),
            )
        } else {
            None
        }
    }

    fn extract(list: DynamicList) -> (args: Option<Self>) {
        let mut values: Vec<Value> = list.values;
        if values.len() != 4 {
            return None;
        }
        let d: Option<D> = popTyped::<D>(&mut values);
        let c: Option<C> = popTyped::<C>(&mut values);
        let b: Option<B> = popTyped::<B>(&mut values);
        let a: Option<A> = popTyped::<A>(&mut values);
        match (a, b, c, d) {
            (Some(a), Some(b), Some(c), Some(d)) => Some((a, b, c, d)),
            _ => None,
        }
    }
}

impl<
    A: FfiPrimitive,
    B: FfiPrimitive,
    C: FfiPrimitive,
    D: FfiPrimitive,
    E: FfiPrimitive,
> DynamicArgs for (A, B, C, D, E) {
    open spec fn extracted(list: DynamicList) -> Option<Self> {
        let values = list.values@;
        if values.len() == 5
            && A::decoded(values[0]) is Some
            && B::decoded(values[1]) is Some
            && C::decoded(values[2]) is Some
            && D::decoded(values[3]) is Some
            && E::decoded(values[4]) is Some {
            Some(
                (
                    A::decoded(values[0])->0,
                    B::decoded(values[1])->0,
                    C::decoded(values[2])->0,
                    D::decoded(values[3])->0,
                    E::decoded(values[4])->0,
                ),
            )
        } else {
            None
        }
    }

    fn extract(list: DynamicList) -> (args: Option<Self>) {
        let mut values: Vec<Value> = list.values;
        if values.len() != 5 {
            return None;
        }
        let e: Option<E> = popTyped::<E>(&mut values);
        let d: Option<D> = popTyped::<D>(&mut values);
        let c: Option<C> = popTyped::<C>(&mut values);
        let b: Option<B> = popTyped::<B>(&mut values);
        let a: Option<A> = popTyped::<A>(&mut values);
        match (a, b, c, d, e) {
            (Some(a), Some(b), Some(c), Some(d), Some(e)) => Some((a, b, c, d, e)),
            _ => None,
        }
    }
}

impl<
    A: FfiPrimitive,
    B: FfiPrimitive,
    C: FfiPrimitive,
    D: FfiPrimitive,
    E: FfiPrimitive,
    F: FfiPrimitive,
> DynamicArgs for (A, B, C, D, E, F) {
    open spec fn extracted(list: DynamicList) -> Option<Self> {
        let values = list.values@;
        if values.len() == 6
            && A::decoded(values[0]) is Some
            && B::decoded(values[1]) is Some
            && C::decoded(values[2]) is Some
            && D::decoded(values[3]) is Some
            && E::decoded(values[4]) is Some
            && F::decoded(values[5]) is Some {
            Some(
                (
                    A::decoded(values[0])->0,
                    B::decoded(values[1])->0,
                    C::decoded(values[2])->0,
                    D::decoded(values[3])->0,
                    E::decoded(values[4])->0,
                    F::decoded(values[5])->0,
                ),
            )
        } else {
            None
        }
    }

    fn extract(list: DynamicList) -> (args: Option<Self>) {
        let mut values: Vec<Value> = list.values;
        if values.len() != 6 {
            return None;
        }
        let f: Option<F> = popTyped::<F>(&mut values);
        let e: Option<E> = popTyped::<E>(&mut values);
        let d: Option<D> = popTyped::<D>(&mut values);
        let c: Option<C> = popTyped::<C>(&mut values);
        let b: Option<B> = popTyped::<B>(&mut values);
        let a: Option<A> = popTyped::<A>(&mut values);
        match (a, b, c, d, e, f) {
            (Some(a), Some(b), Some(c), Some(d), Some(e), Some(f)) => Some((a, b, c, d, e, f)),
            _ => None,
        }
    }
}

impl<
    A: FfiPrimitive,
    B: FfiPrimitive,
    C: FfiPrimitive,
    D: FfiPrimitive,
    E: FfiPrimitive,
    F: FfiPrimitive,
    G: FfiPrimitive,
> DynamicArgs for (A, B, C, D, E, F, G) {
    open spec fn extracted(list: DynamicList) -> Option<Self> {
        let values = list.values@;
        if values.len() == 7
            && A::decoded(values[0]) is Some
            && B::decoded(values[1]) is Some
            && C::decoded(values[2]) is Some
            && D::decoded(values[3]) is Some
            && E::decoded(values[4]) is Some
            && F::decoded(values[5]) is Some
            && G::decoded(values[6]) is Some {
            Some(
                (
                    A::decoded(values[0])->0,
                    B::decoded(values[1])->0,
                    C::decoded(values[2])->0,
                    D::decoded(values[3])->0,
                    E::decoded(values[4])->0,
                    F::decoded(values[5])->0,
                    G::decoded(values[6])->0,
                ),
            )
        } else {
            None
        }
    }

    fn extract(list: DynamicList) -> (args: Option<Self>) {
        let mut values: Vec<Value> = list.values;
        if values.len() != 7 {
            return None;
        }
        let g: Option<G> = popTyped::<G>(&mut values);
        let f: Option<F> = popTyped::<F>(&mut values);
        let e: Option<E> = popTyped::<E>(&mut values);
        let d: Option<D> = popTyped::<D>(&mut values);
        let c: Option<C> = popTyped::<C>(&mut values);
        let b: Option<B> = popTyped::<B>(&mut values);
        let a: Option<A> = popTyped::<A>(&mut values);
        match (a, b, c, d, e, f, g) {
            (Some(a), Some(b), Some(c), Some(d), Some(e), Some(f), Some(g)) => Some((a, b, c, d, e, f, g)),
            _ => None,
        }
    }
}

impl<
    A: FfiPrimitive,
    B: FfiPrimitive,
    C: FfiPrimitive,
    D: FfiPrimitive,
    E: FfiPrimitive,
    F: FfiPrimitive,
    G: FfiPrimitive,
    H: FfiPrimitive,
> DynamicArgs for (A, B, C, D, E, F, G, H) {
    open spec fn extracted(list: DynamicList) -> Option<Self> {
        let values = list.values@;
        if values.len() == 8
            && A::decoded(values[0]) is Some
            && B::decoded(values[1]) is Some
            && C::decoded(values[2]) is Some
            && D::decoded(values[3]) is Some
            && E::decoded(values[4]) is Some
            && F::decoded(values[5]) is Some
            && G::decoded(values[6]) is Some
            && H::decoded(values[7]) is Some {
            Some(
                (
                    A::decoded(values[0])->0,
                    B::decoded(values[1])->0,
                    C::decoded(values[2])->0,
                    D::decoded(values[3])->0,
                    E::decoded(values[4])->0,
                    F::decoded(values[5])->0,
                    G::decoded(values[6])->0,
                    H::decoded(values[7])->0,
                ),
            )
        } else {
            None
        }
    }

    fn extract(list: DynamicList) -> (args: Option<Self>) {
        let mut values: Vec<Value> = list.values;
        if values.len() != 8 {
            return None;
        }
        let h: Option<H> = popTyped::<H>(&mut values);
        let g: Option<G> = popTyped::<G>(&mut values);
        let f: Option<F> = popTyped::<F>(&mut values);
        let e: Option<E> = popTyped::<E>(&mut values);
        let d: Option<D> = popTyped::<D>(&mut values);
        let c: Option<C> = popTyped::<C>(&mut values);
        let b: Option<B> = popTyped::<B>(&mut values);
        let a: Option<A> = popTyped::<A>(&mut values);
        match (a, b, c, d, e, f, g, h) {
            (Some(a), Some(b), Some(c), Some(d), Some(e), Some(f), Some(g), Some(h)) => Some((a, b, c, d, e, f, g, h)),
            _ => None,
        }
    }
}

impl<
    A: FfiPrimitive,
    B: FfiPrimitive,
    C: FfiPrimitive,
    D: FfiPrimitive,
    E: FfiPrimitive,
    F: FfiPrimitive,
    G: FfiPrimitive,
    H: FfiPrimitive,
    I: FfiPrimitive,
> DynamicArgs for (A, B, C, D, E, F, G, H, I) {
    open spec fn extracted(list: DynamicList) -> Option<Self> {
        let values = list.values@;
        if values.len() == 9
            && A::decoded(values[0]) is Some
            && B::decoded(values[1]) is Some
            && C::decoded(values[2]) is Some
            && D::decoded(values[3]) is Some
            && E::decoded(values[4]) is Some
            && F::decoded(values[5]) is Some
            && G::decoded(values[6]) is Some
            && H::decoded(values[7]) is Some
            && I::decoded(values[8]) is Some {
            Some(
                (
                    A::decoded(values[0])->0,
                    B::decoded(values[1])->0,
                    C::decoded(values[2])->0,
                    D::decoded(values[3])->0,
                    E::decoded(values[4])->0,
                    F::decoded(values[5])->0,
                    G::decoded(values[6])->0,
                    H::decoded(values[7])->0,
                    I::decoded(values[8])->0,
                ),
            )
        } else {
            None
        }
    }

    fn extract(list: DynamicList) -> (args: Option<Self>) {
        let mut values: Vec<Value> = list.values;
        if values.len() != 9 {
            return None;
        }
        let i: Option<I> = popTyped::<I>(&mut values);
        let h: Option<H> = popTyped::<H>(&mut values);
        let g: Option<G> = popTyped::<G>(&mut values);
        let f: Option<F> = popTyped::<F>(&mut values);
        let e: Option<E> = popTyped::<E>(&mut values);
        let d: Option<D> = popTyped::<D>(&mut values);
        let c: Option<C> = popTyped::<C>(&mut values);
        let b: Option<B> = popTyped::<B>(&mut values);
        let a: Option<A> = popTyped::<A>(&mut values);
        match (a, b, c, d, e, f, g, h, i) {
            (Some(a), Some(b), Some(c), Some(d), Some(e), Some(f), Some(g), Some(h), Some(i)) => Some((a, b, c, d, e, f, g, h, i)),
            _ => None,
        }
    }
}

impl<
    A: FfiPrimitive,
    B: FfiPrimitive,
    C: FfiPrimitive,
    D: FfiPrimitive,
    E: FfiPrimitive,
    F: FfiPrimitive,
    G: FfiPrimitive,
    H: FfiPrimitive,
    I: FfiPrimitive,
    J: FfiPrimitive,
> DynamicArgs for (A, B, C, D, E, F, G, H, I, J) {
    open spec fn extracted(list: DynamicList) -> Option<Self> {
        let values = list.values@;
        if values.len() == 10
            && A::decoded(values[0]) is Some
            && B::decoded(values[1]) is Some
            && C::decoded(values[2]) is Some
            && D::decoded(values[3]) is Some
            && E::decoded(values[4]) is Some
            && F::decoded(values[5]) is Some
            && G::decoded(values[6]) is Some
            && H::decoded(values[7]) is Some
            && I::decoded(values[8]) is Some
            && J::decoded(values[9]) is Some {
            Some(
                (
                    A::decoded(values[0])->0,
                    B::decoded(values[1])->0,
                    C::decoded(values[2])->0,
                    D::decoded(values[3])->0,
                    E::decoded(values[4])->0,
                    F::decoded(values[5])->0,
                    G::decoded(values[6])->0,
                    H::decoded(values[7])->0,
                    I::decoded(values[8])->0,
                    J::decoded(values[9])->0,
                ),
            )
        } else {
            None
        }
    }

    fn extract(list: DynamicList) -> (args: Option<Self>) {
        let mut values: Vec<Value> = list.values;
        if values.len() != 10 {
            return None;
        }
        let j: Option<J> = popTyped::<J>(&mut values);
        let i: Option<I> = popTyped::<I>(&mut values);
        let h: Option<H> = popTyped::<H>(&mut values);
        let g: Option<G> = popTyped::<G>(&mut values);
        let f: Option<F> = popTyped::<F>(&mut values);
        let e: Option<E> = popTyped::<E>(&mut values);
        let d: Option<D> = popTyped::<D>(&mut values);
        let c: Option<C> = popTyped::<C>(&mut values);
        let b: Option<B> = popTyped::<B>(&mut values);
        let a: Option<A> = popTyped::<A>(&mut values);
        match (a, b, c, d, e, f, g, h, i, j) {
            (Some(a), Some(b), Some(c), Some(d), Some(e), Some(f), Some(g), Some(h), Some(i), Some(j)) => Some((a, b, c, d, e, f, g, h, i, j)),
            _ => None,
        }
    }
}

impl<
    A: FfiPrimitive,
    B: FfiPrimitive,
    C: FfiPrimitive,
    D: FfiPrimitive,
    E: FfiPrimitive,
    F: FfiPrimitive,
    G: FfiPrimitive,
    H: FfiPrimitive,
    I: FfiPrimitive,
    J: FfiPrimitive,
    K: FfiPrimitive,
> DynamicArgs for (A, B, C, D, E, F, G, H, I, J, K) {
    open spec fn extracted(list: DynamicList) -> Option<Self> {
        let values = list.values@;
        if values.len() == 11
            && A::decoded(values[0]) is Some
            && B::decoded(values[1]) is Some
            && C::decoded(values[2]) is Some
            && D::decoded(values[3]) is Some
            && E::decoded(values[4]) is Some
            && F::decoded(values[5]) is Some
            && G::decoded(values[6]) is Some
            && H::decoded(values[7]) is Some
            && I::decoded(values[8]) is Some
            && J::decoded(values[9]) is Some
            && K::decoded(values[10]) is Some {
            Some(
                (
                    A::decoded(values[0])->0,
                    B::decoded(values[1])->0,
                    C::decoded(values[2])->0,
                    D::decoded(values[3])->0,
                    E::decoded(values[4])->0,
                    F::decoded(values[5])->0,
                    G::decoded(values[6])->0,
                    H::decoded(values[7])->0,
                    I::decoded(values[8])->0,
                    J::decoded(values[9])->0,
                    K::decoded(values[10])->0,
                ),
            )
        } else {
            None
        }
    }

    fn extract(list: DynamicList) -> (args: Option<Self>) {
        let mut values: Vec<Value> = list.values;
        if values.len() != 11 {
            return None;
        }
        let k: Option<K> = popTyped::<K>(&mut values);
        let j: Option<J> = popTyped::<J>(&mut values);
        let i: Option<I> = popTyped::<I>(&mut values);
        let h: Option<H> = popTyped::<H>(&mut values);
        let g: Option<G> = popTyped::<G>(&mut values);
        let f: Option<F> = popTyped::<F>(&mut values);
        let e: Option<E> = popTyped::<E>(&mut values);
        let d: Option<D> = popTyped::<D>(&mut values);
        let c: Option<C> = popTyped::<C>(&mut values);
        let b: Option<B> = popTyped::<B>(&mut values);
        let a: Option<A> = popTyped::<A>(&mut values);
        match (a, b, c, d, e, f, g, h, i, j, k) {
            (Some(a), Some(b), Some(c), Some(d), Some(e), Some(f), Some(g), Some(h), Some(i), Some(j), Some(k)) => Some((a, b, c, d, e, f, g, h, i, j, k)),
            _ => None,
        }
    }
}

impl<
    A: FfiPrimitive,
    B: FfiPrimitive,
    C: FfiPrimitive,
    D: FfiPrimitive,
    E: FfiPrimitive,
    F: FfiPrimitive,
    G: FfiPrimitive,
    H: FfiPrimitive,
    I: FfiPrimitive,
    J: FfiPrimitive,
    K: FfiPrimitive,
    L: FfiPrimitive,
> DynamicArgs for (A, B, C, D, E, F, G, H, I, J, K, L) {
    open spec fn extracted(list: DynamicList) -> Option<Self> {
        let values = list.values@;
        if values.len() == 12
            && A::decoded(values[0]) is Some
            && B::decoded(values[1]) is Some
            && C::decoded(values[2]) is Some
            && D::decoded(values[3]) is Some
            && E::decoded(values[4]) is Some
            && F::decoded(values[5]) is Some
            && G::decoded(values[6]) is Some
            && H::decoded(values[7]) is Some
            && I::decoded(values[8]) is Some
            && J::decoded(values[9]) is Some
            && K::decoded(values[10]) is Some
            && L::decoded(values[11]) is Some {
            Some(
                (
                    A::decoded(values[0])->0,
                    B::decoded(values[1])->0,
                    C::decoded(values[2])->0,
                    D::decoded(values[3])->0,
                    E::decoded(values[4])->0,
                    F::decoded(values[5])->0,
                    G::decoded(values[6])->0,
                    H::decoded(values[7])->0,
                    I::decoded(values[8])->0,
                    J::decoded(values[9])->0,
                    K::decoded(values[10])->0,
                    L::decoded(values[11])->0,
                ),
            )
        } else {
            None
        }
    }

    fn extract(list: DynamicList) -> (args: Option<Self>) {
        let mut values: Vec<Value> = list.values;
        if values.len() != 12 {
            return None;
        }
        let l: Option<L> = popTyped::<L>(&mut values);
        let k: Option<K> = popTyped::<K>(&mut values);
        let j: Option<J> = popTyped::<J>(&mut values);
        let i: Option<I> = popTyped::<I>(&mut values);
        let h: Option<H> = popTyped::<H>(&mut values);
        let g: Option<G> = popTyped::<G>(&mut values);
        let f: Option<F> = popTyped::<F>(&mut values);
        let e: Option<E> = popTyped::<E>(&mut values);
        let d: Option<D> = popTyped::<D>(&mut values);
        let c: Option<C> = popTyped::<C>(&mut values);
        let b: Option<B> = popTyped::<B>(&mut values);
        let a: Option<A> = popTyped::<A>(&mut values);
        match (a, b, c, d, e, f, g, h, i, j, k, l) {
            (Some(a), Some(b), Some(c), Some(d), Some(e), Some(f), Some(g), Some(h), Some(i), Some(j), Some(k), Some(l)) => Some((a, b, c, d, e, f, g, h, i, j, k, l)),
            _ => None,
        }
    }
}

// ------------------------------------------------------------------------------------------------
// What holds of arguments
// ------------------------------------------------------------------------------------------------

/// A closure without arguments takes the empty list, and no other.
pub proof fn noArgumentsAreTheEmptyList(list: DynamicList)
    ensures
        (<() as DynamicArgs>::extracted(list) is Some) == (list.values@.len() == 0),
{
}

/// One argument is taken from a list of one, each from its own place and as its own
/// type; a list of any other length, or with a value of another type, holds none.
pub proof fn oneArgumentKeepsItsPlace<A: FfiPrimitive>(list: DynamicList)
    ensures
        match <(A,) as DynamicArgs>::extracted(list) {
            Some(args) => {
                &&& list.values@.len() == 1
                &&& A::decoded(list.values@[0]) == Some(args.0)
            },
            None => {
                ||| list.values@.len() != 1
                ||| A::decoded(list.values@[0]) is None
            },
        },
{
}

/// Two arguments are taken from a list of two, each from its own place and as its own
/// type; a list of any other length, or with a value of another type, holds none.
pub proof fn twoArgumentsKeepTheirPlace<A: FfiPrimitive, B: FfiPrimitive>(list: DynamicList)
    ensures
        match <(A, B) as DynamicArgs>::extracted(list) {
            Some(args) => {
                &&& list.values@.len() == 2
                &&& A::decoded(list.values@[0]) == Some(args.0)
                &&& B::decoded(list.values@[1]) == Some(args.1)
            },
            None => {
                ||| list.values@.len() != 2
                ||| A::decoded(list.values@[0]) is None
                ||| B::decoded(list.values@[1]) is None
            },
        },
{
}

/// Three arguments are taken from a list of three, each from its own place and as its own
/// type; a list of any other length, or with a value of another type, holds none.
pub proof fn threeArgumentsKeepTheirPlace<A: FfiPrimitive, B: FfiPrimitive, C: FfiPrimitive>(list: DynamicList)
    ensures
        match <(A, B, C) as DynamicArgs>::extracted(list) {
            Some(args) => {
                &&& list.values@.len() == 3
                &&& A::decoded(list.values@[0]) == Some(args.0)
                &&& B::decoded(list.values@[1]) == Some(args.1)
                &&& C::decoded(list.values@[2]) == Some(args.2)
            },
            None => {
                ||| list.values@.len() != 3
                ||| A::decoded(list.values@[0]) is None
                ||| B::decoded(list.values@[1]) is None
                ||| C::decoded(list.values@[2]) is None
            },
        },
{
}

/// Four arguments are taken from a list of four, each from its own place and as its own
/// type; a list of any other length, or with a value of another type, holds none.
pub proof fn fourArgumentsKeepTheirPlace<A: FfiPrimitive, B: FfiPrimitive, C: FfiPrimitive, D: FfiPrimitive>(list: DynamicList)
    ensures
        match <(A, B, C, D) as DynamicArgs>::extracted(list) {
            Some(args) => {
                &&& list.values@.len() == 4
                &&& A::decoded(list.values@[0]) == Some(args.0)
                &&& B::decoded(list.values@[1]) == Some(args.1)
                &&& C::decoded(list.values@[2]) == Some(args.2)
                &&& D::decoded(list.values@[3]) == Some(args.3)
            },
            None => {
                ||| list.values@.len() != 4
                ||| A::decoded(list.values@[0]) is None
                ||| B::decoded(list.values@[1]) is None
                ||| C::decoded(list.values@[2]) is None
                ||| D::decoded(list.values@[3]) is None
            },
        },
{
}

/// Five arguments are taken from a list of five, each from its own place and as its own
/// type; a list of any other length, or with a value of another type, holds none.
pub proof fn fiveArgumentsKeepTheirPlace<A: FfiPrimitive, B: FfiPrimitive, C: FfiPrimitive, D: FfiPrimitive, E: FfiPrimitive>(list: DynamicList)
    ensures
        match <(A, B, C, D, E) as DynamicArgs>::extracted(list) {
            Some(args) => {
                &&& list.values@.len() == 5
                &&& A::decoded(list.values@[0]) == Some(args.0)
                &&& B::decoded(list.values@[1]) == Some(args.1)
                &&& C::decoded(list.values@[2]) == Some(args.2)
                &&& D::decoded(list.values@[3]) == Some(args.3)
                &&& E::decoded(list.values@[4]) == Some(args.4)
            },
            None => {
                ||| list.values@.len() != 5
                ||| A::decoded(list.values@[0]) is None
                ||| B::decoded(list.values@[1]) is None
                ||| C::decoded(list.values@[2]) is None
                ||| D::decoded(list.values@[3]) is None
                ||| E::decoded(list.values@[4]) is None
            },
        },
{
}

/// Six arguments are taken from a list of six, each from its own place and as its own
/// type; a list of any other length, or with a value of another type, holds none.
pub proof fn sixArgumentsKeepTheirPlace<A: FfiPrimitive, B: FfiPrimitive, C: FfiPrimitive, D: FfiPrimitive, E: FfiPrimitive, F: FfiPrimitive>(list: DynamicList)
    ensures
        match <(A, B, C, D, E, F) as DynamicArgs>::extracted(list) {
            Some(args) => {
                &&& list.values@.len() == 6
                &&& A::decoded(list.values@[0]) == Some(args.0)
                &&& B::decoded(list.values@[1]) == Some(args.1)
                &&& C::decoded(list.values@[2]) == Some(args.2)
                &&& D::decoded(list.values@[3]) == Some(args.3)
                &&& E::decoded(list.values@[4]) == Some(args.4)
                &&& F::decoded(list.values@[5]) == Some(args.5)
            },
            None => {
                ||| list.values@.len() != 6
                ||| A::decoded(list.values@[0]) is None
                ||| B::decoded(list.values@[1]) is None
                ||| C::decoded(list.values@[2]) is None
                ||| D::decoded(list.values@[3]) is None
                ||| E::decoded(list.values@[4]) is None
                ||| F::decoded(list.values@[5]) is None
            },
        },
{
}

/// Seven arguments are taken from a list of seven, each from its own place and as its own
/// type; a list of any other length, or with a value of another type, holds none.
pub proof fn sevenArgumentsKeepTheirPlace<A: FfiPrimitive, B: FfiPrimitive, C: FfiPrimitive, D: FfiPrimitive, E: FfiPrimitive, F: FfiPrimitive, G: FfiPrimitive>(list: DynamicList)
    ensures
        match <(A, B, C, D, E, F, G) as DynamicArgs>::extracted(list) {
            Some(args) => {
                &&& list.values@.len() == 7
                &&& A::decoded(list.values@[0]) == Some(args.0)
                &&& B::decoded(list.values@[1]) == Some(args.1)
                &&& C::decoded(list.values@[2]) == Some(args.2)
                &&& D::decoded(list.values@[3]) == Some(args.3)
                &&& E::decoded(list.values@[4]) == Some(args.4)
                &&& F::decoded(list.values@[5]) == Some(args.5)
                &&& G::decoded(list.values@[6]) == Some(args.6)
            },
            None => {
                ||| list.values@.len() != 7
                ||| A::decoded(list.values@[0]) is None
                ||| B::decoded(list.values@[1]) is None
                ||| C::decoded(list.values@[2]) is None
                ||| D::decoded(list.values@[3]) is None
                ||| E::decoded(list.values@[4]) is None
                ||| F::decoded(list.values@[5]) is None
                ||| G::decoded(list.values@[6]) is None
            },
        },
{
}

/// Eight arguments are taken from a list of eight, each from its own place and as its own
/// type; a list of any other length, or with a value of another type, holds none.
pub proof fn eightArgumentsKeepTheirPlace<A: FfiPrimitive, B: FfiPrimitive, C: FfiPrimitive, D: FfiPrimitive, E: FfiPrimitive, F: FfiPrimitive, G: FfiPrimitive, H: FfiPrimitive>(list: DynamicList)
    ensures
        match <(A, B, C, D, E, F, G, H) as DynamicArgs>::extracted(list) {
            Some(args) => {
                &&& list.values@.len() == 8
                &&& A::decoded(list.values@[0]) == Some(args.0)
                &&& B::decoded(list.values@[1]) == Some(args.1)
                &&& C::decoded(list.values@[2]) == Some(args.2)
                &&& D::decoded(list.values@[3]) == Some(args.3)
                &&& E::decoded(list.values@[4]) == Some(args.4)
                &&& F::decoded(list.values@[5]) == Some(args.5)
                &&& G::decoded(list.values@[6]) == Some(args.6)
                &&& H::decoded(list.values@[7]) == Some(args.7)
            },
            None => {
                ||| list.values@.len() != 8
                ||| A::decoded(list.values@[0]) is None
                ||| B::decoded(list.values@[1]) is None
                ||| C::decoded(list.values@[2]) is None
                ||| D::decoded(list.values@[3]) is None
                ||| E::decoded(list.values@[4]) is None
                ||| F::decoded(list.values@[5]) is None
                ||| G::decoded(list.values@[6]) is None
                ||| H::decoded(list.values@[7]) is None
            },
        },
{
}

/// Nine arguments are taken from a list of nine, each from its own place and as its own
/// type; a list of any other length, or with a value of another type, holds none.
pub proof fn nineArgumentsKeepTheirPlace<A: FfiPrimitive, B: FfiPrimitive, C: FfiPrimitive, D: FfiPrimitive, E: FfiPrimitive, F: FfiPrimitive, G: FfiPrimitive, H: FfiPrimitive, I: FfiPrimitive>(list: DynamicList)
    ensures
        match <(A, B, C, D, E, F, G, H, I) as DynamicArgs>::extracted(list) {
            Some(args) => {
                &&& list.values@.len() == 9
                &&& A::decoded(list.values@[0]) == Some(args.0)
                &&& B::decoded(list.values@[1]) == Some(args.1)
                &&& C::decoded(list.values@[2]) == Some(args.2)
                &&& D::decoded(list.values@[3]) == Some(args.3)
                &&& E::decoded(list.values@[4]) == Some(args.4)
                &&& F::decoded(list.values@[5]) == Some(args.5)
                &&& G::decoded(list.values@[6]) == Some(args.6)
                &&& H::decoded(list.values@[7]) == Some(args.7)
                &&& I::decoded(list.values@[8]) == Some(args.8)
            },
            None => {
                ||| list.values@.len() != 9
                ||| A::decoded(list.values@[0]) is None
                ||| B::decoded(list.values@[1]) is None
                ||| C::decoded(list.values@[2]) is None
                ||| D::decoded(list.values@[3]) is None
                ||| E::decoded(list.values@[4]) is None
                ||| F::decoded(list.values@[5]) is None
                ||| G::decoded(list.values@[6]) is None
                ||| H::decoded(list.values@[7]) is None
                ||| I::decoded(list.values@[8]) is None
            },
        },
{
}

/// Ten arguments are taken from a list of ten, each from its own place and as its own
/// type; a list of any other length, or with a value of another type, holds none.
pub proof fn tenArgumentsKeepTheirPlace<A: FfiPrimitive, B: FfiPrimitive, C: FfiPrimitive, D: FfiPrimitive, E: FfiPrimitive, F: FfiPrimitive, G: FfiPrimitive, H: FfiPrimitive, I: FfiPrimitive, J: FfiPrimitive>(list: DynamicList)
    ensures
        match <(A, B, C, D, E, F, G, H, I, J) as DynamicArgs>::extracted(list) {
            Some(args) => {
                &&& list.values@.len() == 10
                &&& A::decoded(list.values@[0]) == Some(args.0)
                &&& B::decoded(list.values@[1]) == Some(args.1)
                &&& C::decoded(list.values@[2]) == Some(args.2)
                &&& D::decoded(list.values@[3]) == Some(args.3)
                &&& E::decoded(list.values@[4]) == Some(args.4)
                &&& F::decoded(list.values@[5]) == Some(args.5)
                &&& G::decoded(list.values@[6]) == Some(args.6)
                &&& H::decoded(list.values@[7]) == Some(args.7)
                &&& I::decoded(list.values@[8]) == Some(args.8)
                &&& J::decoded(list.values@[9]) == Some(args.9)
            },
            None => {
                ||| list.values@.len() != 10
                ||| A::decoded(list.values@[0]) is None
                ||| B::decoded(list.values@[1]) is None
                ||| C::decoded(list.values@[2]) is None
                ||| D::decoded(list.values@[3]) is None
                ||| E::decoded(list.values@[4]) is None
                ||| F::decoded(list.values@[5]) is None
                ||| G::decoded(list.values@[6]) is None
                ||| H::decoded(list.values@[7]) is None
                ||| I::decoded(list.values@[8]) is None
                ||| J::decoded(list.values@[9]) is None
            },
        },
{
}

/// Eleven arguments are taken from a list of eleven, each from its own place and as its own
/// type; a list of any other length, or with a value of another type, holds none.
pub proof fn elevenArgumentsKeepTheirPlace<A: FfiPrimitive, B: FfiPrimitive, C: FfiPrimitive, D: FfiPrimitive, E: FfiPrimitive, F: FfiPrimitive, G: FfiPrimitive, H: FfiPrimitive, I: FfiPrimitive, J: FfiPrimitive, K: FfiPrimitive>(list: DynamicList)
    ensures
        match <(A, B, C, D, E, F, G, H, I, J, K) as DynamicArgs>::extracted(list) {
            Some(args) => {
                &&& list.values@.len() == 11
                &&& A::decoded(list.values@[0]) == Some(args.0)
                &&& B::decoded(list.values@[1]) == Some(args.1)
                &&& C::decoded(list.values@[2]) == Some(args.2)
                &&& D::decoded(list.values@[3]) == Some(args.3)
                &&& E::decoded(list.values@[4]) == Some(args.4)
                &&& F::decoded(list.values@[5]) == Some(args.5)
                &&& G::decoded(list.values@[6]) == Some(args.6)
                &&& H::decoded(list.values@[7]) == Some(args.7)
                &&& I::decoded(list.values@[8]) == Some(args.8)
                &&& J::decoded(list.values@[9]) == Some(args.9)
                &&& K::decoded(list.values@[10]) == Some(args.10)
            },
            None => {
                ||| list.values@.len() != 11
                ||| A::decoded(list.values@[0]) is None
                ||| B::decoded(list.values@[1]) is None
                ||| C::decoded(list.values@[2]) is None
                ||| D::decoded(list.values@[3]) is None
                ||| E::decoded(list.values@[4]) is None
                ||| F::decoded(list.values@[5]) is None
                ||| G::decoded(list.values@[6]) is None
                ||| H::decoded(list.values@[7]) is None
                ||| I::decoded(list.values@[8]) is None
                ||| J::decoded(list.values@[9]) is None
                ||| K::decoded(list.values@[10]) is None
            },
        },
{
}

/// Twelve arguments are taken from a list of twelve, each from its own place and as its own
/// type; a list of any other length, or with a value of another type, holds none.
pub proof fn twelveArgumentsKeepTheirPlace<A: FfiPrimitive, B: FfiPrimitive, C: FfiPrimitive, D: FfiPrimitive, E: FfiPrimitive, F: FfiPrimitive, G: FfiPrimitive, H: FfiPrimitive, I: FfiPrimitive, J: FfiPrimitive, K: FfiPrimitive, L: FfiPrimitive>(list: DynamicList)
    ensures
        match <(A, B, C, D, E, F, G, H, I, J, K, L) as DynamicArgs>::extracted(list) {
            Some(args) => {
                &&& list.values@.len() == 12
                &&& A::decoded(list.values@[0]) == Some(args.0)
                &&& B::decoded(list.values@[1]) == Some(args.1)
                &&& C::decoded(list.values@[2]) == Some(args.2)
                &&& D::decoded(list.values@[3]) == Some(args.3)
                &&& E::decoded(list.values@[4]) == Some(args.4)
                &&& F::decoded(list.values@[5]) == Some(args.5)
                &&& G::decoded(list.values@[6]) == Some(args.6)
                &&& H::decoded(list.values@[7]) == Some(args.7)
                &&& I::decoded(list.values@[8]) == Some(args.8)
                &&& J::decoded(list.values@[9]) == Some(args.9)
                &&& K::decoded(list.values@[10]) == Some(args.10)
                &&& L::decoded(list.values@[11]) == Some(args.11)
            },
            None => {
                ||| list.values@.len() != 12
                ||| A::decoded(list.values@[0]) is None
                ||| B::decoded(list.values@[1]) is None
                ||| C::decoded(list.values@[2]) is None
                ||| D::decoded(list.values@[3]) is None
                ||| E::decoded(list.values@[4]) is None
                ||| F::decoded(list.values@[5]) is None
                ||| G::decoded(list.values@[6]) is None
                ||| H::decoded(list.values@[7]) is None
                ||| I::decoded(list.values@[8]) is None
                ||| J::decoded(list.values@[9]) is None
                ||| K::decoded(list.values@[10]) is None
                ||| L::decoded(list.values@[11]) is None
            },
        },
{
}

} // verus!
