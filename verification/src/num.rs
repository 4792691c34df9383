use vstd::prelude::*;

verus! {

/// A `usize` that is known to be nonzero.
pub struct NonZeroUsize {
    value: usize,
}

impl NonZeroUsize {
    #[verifier::type_invariant]
    spec fn positive(self) -> bool {
        self.value > 0
    }

    /// The number this holds.
    pub closed spec fn view(&self) -> nat {
        self.value as nat
    }

    /// `Some` exactly when `n` is nonzero.
    pub fn new(n: usize) -> (r: Option<NonZeroUsize>)
        ensures
            n == 0 ==> r is None,
            n > 0 ==> (r matches Some(v) && v@ == n),
    {
        if n == 0 {
            None
        } else {
            Some(NonZeroUsize { value: n })
        }
    }

    /// The number this holds, which is never zero.
    pub fn get(&self) -> (r: usize)
        ensures
            r == self@,
            r > 0,
    {
        proof {
            use_type_invariant(self);
        }
        self.value
    }
}

impl Clone for NonZeroUsize {
    fn clone(&self) -> (r: Self)
        ensures
            r@ == self@,
    {
        proof {
            use_type_invariant(self);
        }
        NonZeroUsize { value: self.value }
    }
}

} // verus!
