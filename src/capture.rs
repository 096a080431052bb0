use vstd::prelude::*;
use winit::keyboard::KeyCode;

verus! {

/// A binding from a physical key to a callback.
///
/// The callback is a type parameter so that a binding can carry a plain `fn()`
/// or a closure that captures application state.
#[derive(Clone, Copy)]
pub struct CaptureInput<F> {
    pub key: KeyCode,
    pub function: F,
}

/// A fixed, ordered list of key bindings, built once and never changed.
pub struct CaptureList<F> {
    pub inputs: Box<[CaptureInput<F>]>,
}

/// Relies on `Vec::into_boxed_slice`: the boxed slice holds the vector's
/// elements in the same order.
#[verifier::external_body]
fn boxed<F>(v: Vec<CaptureInput<F>>) -> (r: Box<[CaptureInput<F>]>)
    ensures
        r@ == v@,
{
    v.into_boxed_slice()
}

/// A boxed copy of `src`, element for element.
fn copied<F: Copy>(src: &[CaptureInput<F>]) -> (r: Box<[CaptureInput<F>]>)
    ensures
        r@ == src@,
{
    let mut v: Vec<CaptureInput<F>> = Vec::with_capacity(src.len());
    let mut i: usize = 0;
    while i < src.len()
        invariant
            i <= src@.len(),
            v@ == src@.subrange(0, i as int),
        decreases src@.len() - i,
    {
        v.push(src[i]);
        i = i + 1;
    }
    assert(v@ == src@);
    boxed(v)
}

impl<F: Copy> Clone for CaptureList<F> {
    /// A list that owns a copy of the same bindings, in the same order.
    fn clone(&self) -> (r: Self)
        ensures
            r.inputs@ == self.inputs@,
    {
        CaptureList { inputs: copied(&self.inputs) }
    }
}

/// Conversion of an ordered sequence of bindings into a `CaptureList`.
pub trait ToCaptureList<F>: Sized {
    /// The bindings that the conversion starts from, in order.
    spec fn entries(&self) -> Seq<CaptureInput<F>>;

    /// Builds a list that owns a copy of exactly these bindings, in order.
    fn to_list(self) -> (r: CaptureList<F>)
        ensures
            r.inputs@ == self.entries(),
    ;
}

impl<'a, F: Copy> ToCaptureList<F> for &'a [CaptureInput<F>] {
    open spec fn entries(&self) -> Seq<CaptureInput<F>> {
        (*self)@
    }

    fn to_list(self) -> (r: CaptureList<F>) {
        CaptureList { inputs: copied(self) }
    }
}

} // verus!
