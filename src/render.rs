use vstd::prelude::*;

verus! {

/// `r` is the text that the `Display` rendering of `v` produces.
pub open spec fn rendering_of<T: std::fmt::Display + ?Sized>(v: &T, r: String) -> bool {
    vstd::string::to_string_from_display_ensures::<T>(v, r)
}

/// Power `ToString`, spelled as a method.
pub trait PowerToString: std::fmt::Display {
    fn S(&self) -> (r: String)
        ensures
            rendering_of(self, r),
    ;
}

impl<T: std::fmt::Display + ?Sized> PowerToString for T {
    fn S(&self) -> (r: String) {
        self.to_string()
    }
}

/// Power `ToString`: the textual rendering of `s` as an owned string.
pub fn S<T: std::fmt::Display + ?Sized>(s: &T) -> (r: String)
    ensures
        rendering_of(s, r),
{
    s.to_string()
}

/// The free and the method spelling of rendering promise the same thing:
/// whatever either hands back is the rendering of `s`.
pub proof fn lemma_render_spellings_agree<T: std::fmt::Display + ?Sized>(
    s: &T,
    r1: String,
    r2: String,
)
    requires
        call_ensures(S::<T>, (s,), r1),
        call_ensures(<T as PowerToString>::S, (s,), r2),
    ensures
        rendering_of(s, r1),
        rendering_of(s, r2),
{
}

/// Rendering a string slice yields exactly its characters.
pub proof fn lemma_rendering_of_str(s: &str, r: String)
    requires
        rendering_of(s, r),
    ensures
        r@ == s@,
{
    broadcast use vstd::string::to_string_from_display_ensures_for_str;

}

} // verus!
