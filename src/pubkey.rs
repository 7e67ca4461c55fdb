use vstd::prelude::*;

verus! {

/// A 32-byte account identity.
#[derive(Clone, Copy, Debug, Eq)]
pub struct Pubkey {
    pub bytes: [u8; 32],
}

impl View for Pubkey {
    type V = Seq<u8>;

    open spec fn view(&self) -> Seq<u8> {
        self.bytes@
    }
}

impl PartialEq for Pubkey {
    fn eq(&self, o: &Pubkey) -> (r: bool) {
        let mut i: usize = 0;
        while i < 32
            invariant
                i <= 32,
                forall|j: int| 0 <= j < i ==> self.bytes@[j] == o.bytes@[j],
            decreases 32 - i,
        {
            if self.bytes[i] != o.bytes[i] {
                return false;
            }
            i = i + 1;
        }
        proof {
            assert(self.bytes@ =~= o.bytes@);
        }
        true
    }
}

impl vstd::std_specs::cmp::PartialEqSpecImpl for Pubkey {
    open spec fn obeys_eq_spec() -> bool {
        true
    }

    open spec fn eq_spec(&self, o: &Pubkey) -> bool {
        self@ == o@
    }
}

impl Pubkey {
    /// The all-zero identity, which stands for "nobody" (no referrer).
    pub fn zeroed() -> (r: Pubkey)
        ensures
            r.bytes@ == Seq::new(32, |i: int| 0u8),
    {
        let r = Pubkey { bytes: [0u8; 32] };
        proof {
            assert(r.bytes@ =~= Seq::new(32, |i: int| 0u8));
        }
        r
    }

    /// The 32 bytes of the identity, in order.
    pub fn to_bytes_vec(&self) -> (r: Vec<u8>)
        ensures
            r@ == self@,
    {
        let mut r: Vec<u8> = Vec::new();
        let mut i: usize = 0;
        while i < 32
            invariant
                i <= 32,
                r@ == self@.subrange(0, i as int),
            decreases 32 - i,
        {
            r.push(self.bytes[i]);
            i = i + 1;
            assert(r@ =~= self@.subrange(0, i as int));
        }
        assert(self@.subrange(0, 32) =~= self@);
        r
    }

    pub open spec fn is_zero_spec(&self) -> bool {
        forall|i: int| 0 <= i < 32 ==> self.bytes@[i] == 0u8
    }

    pub fn is_zero(&self) -> (r: bool)
        ensures
            r == self.is_zero_spec(),
    {
        let mut i: usize = 0;
        while i < 32
            invariant
                i <= 32,
                forall|j: int| 0 <= j < i ==> self.bytes@[j] == 0u8,
            decreases 32 - i,
        {
            if self.bytes[i] != 0 {
                return false;
            }
            i = i + 1;
        }
        true
    }
}

} // verus!
