//! Shape of a signal: its dimensions and its signedness.

use vstd::prelude::*;

verus! {

/// The product of the dimensions.
pub open spec fn product(dims: Seq<usize>) -> nat
    decreases dims.len(),
{
    if dims.len() == 0 {
        1
    } else {
        product(dims.drop_last()) * dims.last() as nat
    }
}

/// Shape of a signal. A signal of one dimension is a vector of bits; one of
/// two dimensions is an array of such vectors, the number of vectors first.
#[derive(Debug, PartialEq, Eq)]
pub struct Shape {
    /// Dimensions, the outermost first.
    pub inner: Vec<usize>,
    /// The signal holds signed numbers.
    pub signed: bool,
}

impl Clone for Shape {
    fn clone(&self) -> (r: Self)
        ensures
            r.inner@ == self.inner@,
            r.signed == self.signed,
    {
        let mut inner: Vec<usize> = Vec::new();
        let mut i: usize = 0;
        while i < self.inner.len()
            invariant
                0 <= i <= self.inner.len(),
                inner@ == self.inner@.take(i as int),
            decreases self.inner.len() - i,
        {
            inner.push(self.inner[i]);
            assert(inner@ =~= self.inner@.take(i + 1));
            i += 1;
        }
        assert(self.inner@.take(self.inner.len() as int) =~= self.inner@);
        Shape { inner, signed: self.signed }
    }
}

impl Shape {
    /// The number of bits of the signal: the product of its dimensions.
    pub open spec fn spec_width(&self) -> nat {
        product(self.inner@)
    }

    /// The number of bits of the signal can be computed dimension by dimension
    /// without leaving the range of `usize`.
    pub open spec fn width_fits(&self) -> bool {
        forall|k: int| 0 <= k <= self.inner@.len() ==> #[trigger] product(self.inner@.take(k)) <= usize::MAX
    }

    /// Creates a new shape.
    pub fn new(inner: Vec<usize>, signed: bool) -> (r: Self)
        ensures
            r.inner == inner,
            r.signed == signed,
    {
        Shape { inner, signed }
    }

    /// Returns the number of dimensions.
    pub fn dim(&self) -> (r: usize)
        ensures
            r == self.inner@.len(),
    {
        self.inner.len()
    }

    /// Returns the dimension at `index`, the outermost being at 0.
    pub fn get(&self, index: usize) -> (r: usize)
        requires
            index < self.inner@.len(),
        ensures
            r == self.inner@[index as int],
    {
        self.inner[index]
    }

    /// Returns `true` if the signal holds signed numbers.
    pub fn is_signed(&self) -> (r: bool)
        ensures
            r == self.signed,
    {
        self.signed
    }

    /// Returns the number of bits of the signal, or `None` where computing
    /// it dimension by dimension leaves the range of `usize`.
    pub fn checked_width(&self) -> (r: Option<usize>)
        ensures
            r is Some <==> self.width_fits(),
            r is Some ==> r->0 == self.spec_width(),
    {
        let mut width: usize = 1;
        let mut i: usize = 0;
        assert(self.inner@.take(0) =~= Seq::<usize>::empty());
        while i < self.inner.len()
            invariant
                0 <= i <= self.inner.len(),
                width == product(self.inner@.take(i as int)),
                forall|k: int| 0 <= k <= i ==> #[trigger] product(self.inner@.take(k)) <= usize::MAX,
            decreases self.inner.len() - i,
        {
            assert(self.inner@.take(i + 1).drop_last() =~= self.inner@.take(i as int));
            assert(self.inner@.take(i + 1).last() == self.inner@[i as int]);
            match width.checked_mul(self.inner[i]) {
                Some(next) => {
                    width = next;
                },
                None => {
                    assert(product(self.inner@.take(i + 1)) > usize::MAX);
                    return None;
                },
            }
            i += 1;
        }
        assert(self.inner@.take(self.inner.len() as int) =~= self.inner@);
        Some(width)
    }

    /// Returns the number of bits of the signal.
    pub fn width(&self) -> (r: usize)
        requires
            self.width_fits(),
        ensures
            r == self.spec_width(),
    {
        let mut width: usize = 1;
        let mut i: usize = 0;
        assert(self.inner@.take(0) =~= Seq::<usize>::empty());
        while i < self.inner.len()
            invariant
                0 <= i <= self.inner.len(),
                self.width_fits(),
                width == product(self.inner@.take(i as int)),
            decreases self.inner.len() - i,
        {
            assert(self.inner@.take(i + 1).drop_last() =~= self.inner@.take(i as int));
            assert(self.inner@.take(i + 1).last() == self.inner@[i as int]);
            assert(product(self.inner@.take(i + 1)) <= usize::MAX);
            width = width * self.inner[i];
            i += 1;
        }
        assert(self.inner@.take(self.inner.len() as int) =~= self.inner@);
        width
    }
}

/// The width of a signal of one dimension is that dimension, and it fits.
pub proof fn lemma_width_of_vector(shape: Shape)
    requires
        shape.inner@.len() == 1,
    ensures
        shape.spec_width() == shape.inner@[0],
        shape.width_fits(),
{
    let dims = shape.inner@;
    assert(dims.drop_last() =~= Seq::<usize>::empty());
    assert(product(dims.drop_last()) == 1);
    assert(product(dims) == 1 * dims.last() as nat);
    assert forall|k: int| 0 <= k <= dims.len() implies #[trigger] product(dims.take(k))
        <= usize::MAX by {
        if k == 0 {
            assert(dims.take(0) =~= Seq::<usize>::empty());
        } else {
            assert(dims.take(1) =~= dims);
        }
    }
}

} // verus!
