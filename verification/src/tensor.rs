//! The tensor: a shape paired with a shared, reference-counted buffer,
//! mutated copy-on-write so that sibling tensors never observe a write.

use std::rc::Rc;

use vstd::prelude::*;

use crate::Error;
use crate::Prm;
use crate::buffer::Buffer;
use crate::buffer::HostBuffer;
use crate::buffer::Location;
use crate::buffer::copy_vec;

verus! {

/// The product of all entries of a shape: the element count it describes.
/// An empty shape describes a single element.
pub open spec fn product(s: Seq<usize>) -> nat
    decreases s.len(),
{
    if s.len() == 0 {
        1
    } else {
        product(s.drop_last()) * (s.last() as nat)
    }
}

/// A shape with a zero entry describes zero elements.
proof fn lemma_product_zero(s: Seq<usize>, j: int)
    requires
        0 <= j < s.len(),
        s[j] == 0,
    ensures
        product(s) == 0,
    decreases s.len(),
{
    if j == s.len() - 1 {
        assert(s.last() == 0);
    } else {
        assert(s.drop_last()[j] == 0);
        lemma_product_zero(s.drop_last(), j);
        assert(product(s) == product(s.drop_last()) * (s.last() as nat));
        assert(product(s.drop_last()) * (s.last() as nat) == 0) by (nonlinear_arith)
            requires
                product(s.drop_last()) == 0,
        ;
    }
}

/// With every entry at least one, a prefix never describes more elements
/// than the whole shape.
proof fn lemma_product_prefix_le(s: Seq<usize>, i: int)
    requires
        0 <= i <= s.len(),
        forall|k: int| 0 <= k < s.len() ==> s[k] >= 1,
    ensures
        product(s.subrange(0, i)) <= product(s),
    decreases s.len() - i,
{
    if i == s.len() {
        assert(s.subrange(0, i) =~= s);
    } else {
        lemma_product_prefix_le(s, i + 1);
        assert(s.subrange(0, i + 1).drop_last() =~= s.subrange(0, i));
        assert(product(s.subrange(0, i + 1)) == product(s.subrange(0, i)) * (s[i] as nat));
        assert(product(s.subrange(0, i)) <= product(s.subrange(0, i)) * (s[i] as nat))
            by (nonlinear_arith)
            requires
                s[i] >= 1,
        ;
    }
}

/// The element count a shape describes, or `None` when it does not fit in
/// `usize`.
fn checked_product(shape: &Vec<usize>) -> (r: Option<usize>)
    ensures
        match r {
            Some(p) => p == product(shape@),
            None => product(shape@) > usize::MAX,
        },
{
    let mut i: usize = 0;
    while i < shape.len()
        invariant
            i <= shape@.len(),
            forall|k: int| 0 <= k < i ==> shape@[k] >= 1,
        decreases shape@.len() - i,
    {
        if shape[i] == 0 {
            proof {
                lemma_product_zero(shape@, i as int);
            }
            return Some(0);
        }
        i = i + 1;
    }
    let mut acc: usize = 1;
    let mut j: usize = 0;
    while j < shape.len()
        invariant
            j <= shape@.len(),
            forall|k: int| 0 <= k < shape@.len() ==> shape@[k] >= 1,
            acc as nat == product(shape@.subrange(0, j as int)),
        decreases shape@.len() - j,
    {
        let d = shape[j];
        proof {
            assert(shape@.subrange(0, j + 1).drop_last() =~= shape@.subrange(0, j as int));
            assert(product(shape@.subrange(0, j + 1)) == product(shape@.subrange(0, j as int)) * (
            d as nat));
        }
        match acc.checked_mul(d) {
            Some(next) => {
                acc = next;
            },
            None => {
                proof {
                    lemma_product_prefix_le(shape@, j + 1);
                }
                return None;
            },
        }
        j = j + 1;
    }
    proof {
        assert(shape@.subrange(0, shape@.len() as int) =~= shape@);
    }
    Some(acc)
}

/// The element count of a shape that is known to fit in `usize`.
fn product_of(shape: &Vec<usize>) -> (n: usize)
    requires
        product(shape@) <= usize::MAX,
    ensures
        n == product(shape@),
{
    match checked_product(shape) {
        Some(n) => n,
        None => vstd::pervasive::unreached(),
    }
}

/// The mathematical content of a tensor: its shape, and the sequence of
/// elements stored behind it.
#[verifier::ext_equal]
pub ghost struct TensorView<T> {
    pub shape: Seq<usize>,
    pub data: Seq<T>,
}

/// The tensor of shape `shape` whose every element is `value`.
pub open spec fn spec_filled<T>(shape: Seq<usize>, value: T) -> TensorView<T> {
    TensorView { shape: shape, data: Seq::new(product(shape), |i: int| value) }
}

/// What a successful `store` of `src` leaves behind: the shape is kept, the
/// contents are replaced.
pub open spec fn spec_store<T>(t: TensorView<T>, src: Seq<T>) -> TensorView<T> {
    TensorView { shape: t.shape, data: src }
}

/// What `load` observes: the full contents.
pub open spec fn spec_load<T>(t: TensorView<T>) -> Seq<T> {
    t.data
}

/// A shape paired with a shared, reference-counted buffer. Reshaping shares
/// the buffer; `store` writes copy-on-write, so a write through one tensor
/// is never observed by a sibling sharing the same buffer.
pub struct Tensor<T: Prm> {
    shape: Vec<usize>,
    buffer: Rc<Buffer<T>>,
}

impl<T: Prm> View for Tensor<T> {
    type V = TensorView<T>;

    closed spec fn view(&self) -> TensorView<T> {
        TensorView { shape: self.shape@, data: self.buffer@ }
    }
}

impl<T: Prm> Tensor<T> {
    /// The tensor's standing invariant: the shape's element count equals the
    /// length of the buffer behind it.
    pub open spec fn wf(&self) -> bool {
        self@.data.len() == product(self@.shape)
    }

    /// Wrap an already shared buffer under `shape`. The caller owes the
    /// length invariant outright: violating it would be a bug in this
    /// library, not bad external input.
    fn from_shared_buffer(rc_buffer: Rc<Buffer<T>>, shape: &Vec<usize>) -> (t: Tensor<T>)
        requires
            rc_buffer@.len() == product(shape@),
        ensures
            t@.shape == shape@,
            t@.data == rc_buffer@,
            t.wf(),
    {
        Tensor { shape: copy_vec(shape), buffer: rc_buffer }
    }

    /// Wrap a fresh, unshared buffer under `shape`.
    fn from_buffer(buffer: Buffer<T>, shape: &Vec<usize>) -> (t: Tensor<T>)
        requires
            buffer@.len() == product(shape@),
        ensures
            t@.shape == shape@,
            t@.data == buffer@,
            t.wf(),
    {
        Self::from_shared_buffer(Rc::new(buffer), shape)
    }

    /// Allocate a tensor of the given shape with unspecified contents: the
    /// caller must `store` every element before the first `load`. Only the
    /// shape, and with it the element count, is promised.
    pub fn new_uninit(shape: &Vec<usize>) -> (t: Tensor<T>)
        requires
            product(shape@) <= usize::MAX,
        ensures
            t@.shape == shape@,
            t.wf(),
    {
        let n = product_of(shape);
        let buf = match Buffer::new_uninit(&Location::Host, n) {
            Ok(b) => b,
            Err(_) => vstd::pervasive::unreached(),
        };
        Self::from_buffer(buf, shape)
    }

    /// Allocate a tensor of the given shape, every element `value`.
    pub fn new_filled(shape: &Vec<usize>, value: T) -> (t: Tensor<T>)
        requires
            product(shape@) <= usize::MAX,
        ensures
            t@ == spec_filled(shape@, value),
            t.wf(),
    {
        let n = product_of(shape);
        let buf = match Buffer::new_filled(&Location::Host, n, value) {
            Ok(b) => b,
            Err(_) => vstd::pervasive::unreached(),
        };
        Self::from_buffer(buf, shape)
    }

    /// Allocate a tensor of the given shape, every element zero.
    pub fn new_zeroed(shape: &Vec<usize>) -> (t: Tensor<T>)
        requires
            product(shape@) <= usize::MAX,
        ensures
            t@ == spec_filled(shape@, T::zero_spec()),
            t.wf(),
    {
        Self::new_filled(shape, T::zero())
    }

    /// Allocate a tensor of the given shape, every element zero.
    pub fn zeros(shape: &Vec<usize>) -> (t: Tensor<T>)
        requires
            product(shape@) <= usize::MAX,
        ensures
            t@ == spec_filled(shape@, T::zero_spec()),
            t.wf(),
    {
        Self::new_zeroed(shape)
    }

    /// The current shape.
    pub fn shape(&self) -> (s: &Vec<usize>)
        ensures
            s@ == self@.shape,
    {
        &self.shape
    }

    /// The element count, read off the buffer.
    fn numel(&self) -> (n: usize)
        requires
            self.wf(),
        ensures
            n == product(self@.shape),
    {
        self.buffer.len()
    }

    /// A new tensor that shares this buffer under `shape`. Succeeds exactly
    /// when the new shape describes as many elements as the current one;
    /// otherwise nothing is built and the mismatch is reported.
    pub fn reshape(&self, shape: &Vec<usize>) -> (r: Result<Tensor<T>, Error>)
        requires
            self.wf(),
        ensures
            match r {
                Ok(t) => product(shape@) == product(self@.shape) && t@.shape == shape@ && t@.data
                    == self@.data && t.wf(),
                Err(e) => e == Error::SizeMismatch && product(shape@) != product(self@.shape),
            },
    {
        let n = self.numel();
        match checked_product(shape) {
            Some(p) => {
                if p == n {
                    Ok(Self::from_shared_buffer(self.buffer.clone(), shape))
                } else {
                    Err(Error::SizeMismatch)
                }
            },
            None => Err(Error::SizeMismatch),
        }
    }

    /// Copy the full contents into `dst`. Succeeds exactly when `dst` has as
    /// many elements as this tensor; otherwise `dst` is left unchanged and
    /// the mismatch is reported.
    pub fn load(&self, dst: &mut Vec<T>) -> (r: Result<(), Error>)
        requires
            self.wf(),
        ensures
            match r {
                Ok(()) => old(dst)@.len() == product(self@.shape) && final(dst)@ == spec_load(
                    self@,
                ),
                Err(e) => e == Error::SizeMismatch && final(dst)@ == old(dst)@ && old(dst)@.len()
                    != product(self@.shape),
            },
    {
        let n = self.numel();
        if dst.len() == n {
            *dst = self.buffer.to_vec();
            Ok(())
        } else {
            Err(Error::SizeMismatch)
        }
    }

    /// Overwrite the contents from `src`. Succeeds exactly when `src` has as
    /// many elements as this tensor; otherwise this tensor is left unchanged
    /// and the mismatch is reported. Before writing, a buffer still shared
    /// with other tensors is first replaced by a private copy — the
    /// copy-on-write trigger — so siblings never observe the write.
    pub fn store(&mut self, src: &Vec<T>) -> (r: Result<(), Error>)
        requires
            old(self).wf(),
        ensures
            final(self).wf(),
            match r {
                Ok(()) => src@.len() == product(old(self)@.shape) && final(self)@ == spec_store(
                    old(self)@,
                    src@,
                ),
                Err(e) => e == Error::SizeMismatch && final(self)@ == old(self)@ && src@.len()
                    != product(old(self)@.shape),
            },
    {
        let n = self.numel();
        if src.len() != n {
            return Err(Error::SizeMismatch);
        }
        let mut rc: Rc<Buffer<T>> = Rc::new(Buffer::Host(HostBuffer { vec: Vec::new() }));
        core::mem::swap(&mut rc, &mut self.buffer);
        let owned: Buffer<T> = match Rc::try_unwrap(rc) {
            Ok(b) => b,
            Err(shared) => (*shared).duplicate(),
        };
        let written = owned.overwritten(src);
        self.buffer = Rc::new(written);
        Ok(())
    }
}

/// A zero-initialized tensor reads back as `product(shape)` copies of the
/// element type's zero.
pub proof fn lemma_zeroed_reads_zeros<T: Prm>(shape: Seq<usize>)
    ensures
        spec_load(spec_filled(shape, T::zero_spec())) == Seq::new(
            product(shape),
            |i: int| T::zero_spec(),
        ),
        spec_load(spec_filled(shape, T::zero_spec())).len() == product(shape),
{
}

/// A value-initialized tensor reads back as `product(shape)` copies of that
/// value.
pub proof fn lemma_filled_reads_value<T>(shape: Seq<usize>, value: T)
    ensures
        spec_load(spec_filled(shape, value)) == Seq::new(product(shape), |i: int| value),
        spec_load(spec_filled(shape, value)).len() == product(shape),
{
}

/// Round trip: storing contents `c` and then loading yields `c` again.
pub proof fn lemma_store_load_round_trip<T>(t: TensorView<T>, c: Seq<T>)
    ensures
        spec_load(spec_store(t, c)) == c,
        spec_store(t, c).shape == t.shape,
{
}

/// Copy-on-write isolation: a store is a transformation of the one tensor it
/// is applied to. A sibling that shared the same contents — as `reshape`
/// produces — is a distinct value, and what it loads is its own, unchanged
/// data, whatever is stored into the other.
pub proof fn lemma_store_isolated<T>(a: TensorView<T>, b: TensorView<T>, x: Seq<T>)
    requires
        b.data == a.data,
    ensures
        spec_load(spec_store(b, x)) == x,
        spec_load(a) == a.data,
{
}

} // verus!
