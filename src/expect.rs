use vstd::prelude::*;
use crate::render::rendering_of;

verus! {

/// Power `expect` for `Result` and `Option`, spelled as a method.
///
/// `has_value` says when the value is there to be taken, `value` what it is.
/// Taking it where it is absent is a broken assumption of the caller: the
/// executable code then stops with a fixed message, and verified callers
/// are held to `has_value`.
pub trait PowerExpect {
    type Output;

    spec fn has_value(&self) -> bool;

    spec fn value(&self) -> Self::Output;

    fn X(self) -> (r: Self::Output)
        requires
            self.has_value(),
        ensures
            r == self.value(),
    ;
}

impl<T> PowerExpect for Option<T> {
    type Output = T;

    open spec fn has_value(&self) -> bool {
        self is Some
    }

    open spec fn value(&self) -> T {
        self->Some_0
    }

    fn X(self) -> (r: T) {
        self.expect("impossible `None` option")
    }
}

/// The message that a failure `e` is reported with: a fixed prefix and then
/// the rendering of `e`.
fn failure_message<E: std::fmt::Display>(e: &E) -> (r: String)
    ensures
        exists|t: String| rendering_of(e, t) && r@ == "impossible `Err` result: "@ + t@,
{
    let text = e.to_string();
    let mut r = "impossible `Err` result: ".to_owned();
    r.append(text.as_str());
    assert(rendering_of(e, text) && r@ == "impossible `Err` result: "@ + text@);
    r
}

impl<T, E: std::fmt::Display> PowerExpect for Result<T, E> {
    type Output = T;

    open spec fn has_value(&self) -> bool {
        self is Ok
    }

    open spec fn value(&self) -> T {
        self->Ok_0
    }

    fn X(self) -> (r: T) {
        match self {
            Ok(v) => v,
            Err(e) => {
                let message = failure_message(&e);
                None.expect(message.as_str())
            },
        }
    }
}

/// Power `expect` for `Result` and `Option`: the value held by `v`.
pub fn X<T: PowerExpect>(v: T) -> (r: T::Output)
    requires
        v.has_value(),
    ensures
        r == v.value(),
{
    v.X()
}

/// The free and the method spelling of `expect` agree: on a value that holds
/// something, both hand back that same thing.
pub proof fn lemma_expect_spellings_agree<T: PowerExpect>(v: T, r1: T::Output, r2: T::Output)
    requires
        v.has_value(),
        call_ensures(X::<T>, (v,), r1),
        call_ensures(<T as PowerExpect>::X, (v,), r2),
    ensures
        r1 == r2,
        r1 == v.value(),
{
}

/// A present optional value is taken out unchanged.
pub proof fn lemma_expect_some<T>(x: T)
    ensures
        Some(x).has_value(),
        Some(x).value() == x,
{
}

/// An absent optional value holds nothing to take.
pub proof fn lemma_expect_none<T>()
    ensures
        !None::<T>.has_value(),
{
}

/// A success is taken out unchanged; a failure holds nothing to take.
pub proof fn lemma_expect_result<T, E: std::fmt::Display>(r: Result<T, E>)
    ensures
        r.has_value() <==> r is Ok,
        r is Ok ==> r.value() == r->Ok_0,
{
}

} // verus!
