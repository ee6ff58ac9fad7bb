use vstd::arithmetic::power2::is_pow2;
use vstd::layout::{align_of, size_of};
use vstd::prelude::*;

verus! {

/// The size and alignment of a type, as the compiler laid it out.
///
/// A value can only be obtained by measuring a real type, so its numbers are
/// never hand-written: the alignment is a power of two and the size is a
/// multiple of it (see [`TypeLayout::wf`]).
#[derive(Clone, Copy, Debug)]
pub struct TypeLayout {
    align: usize,
    size: usize,
}

impl TypeLayout {
    /// Holds of every measured layout.
    #[verifier::type_invariant]
    pub closed spec fn wf(self) -> bool {
        self.align > 0 && is_pow2(self.align as int) && self.size % self.align == 0
    }

    /// The alignment in bytes.
    pub closed spec fn spec_align(self) -> nat {
        self.align as nat
    }

    /// The size in bytes.
    pub closed spec fn spec_size(self) -> nat {
        self.size as nat
    }

    /// Measures `T`.
    pub fn of<T>() -> (r: TypeLayout)
        ensures
            r.spec_align() == align_of::<T>(),
            r.spec_size() == size_of::<T>(),
            r.wf(),
    {
        vstd::layout::layout_for_type_is_valid::<T>();
        let align = core::mem::align_of::<T>();
        let size = core::mem::size_of::<T>();
        TypeLayout { align, size }
    }

    /// The alignment in bytes.
    pub fn align(&self) -> (r: usize)
        ensures
            r as nat == self.spec_align(),
            self.wf(),
    {
        proof {
            use_type_invariant(self);
        }
        self.align
    }

    /// The size in bytes.
    pub fn size(&self) -> (r: usize)
        ensures
            r as nat == self.spec_size(),
            self.wf(),
    {
        proof {
            use_type_invariant(self);
        }
        self.size
    }

    /// The alignment is a power of two and the size is a multiple of it.
    pub proof fn lemma_valid(self)
        requires
            self.wf(),
        ensures
            is_pow2(self.spec_align() as int),
            self.spec_align() > 0,
            self.spec_size() % self.spec_align() == 0,
    {
    }
}

} // verus!
