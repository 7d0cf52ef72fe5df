use vstd::prelude::*;

verus! {

/// The little-endian bytes of `n`, `count` bytes long (higher bytes dropped).
pub open spec fn le_bytes(n: nat, count: nat) -> Seq<u8>
    decreases count,
{
    if count == 0 {
        Seq::empty()
    } else {
        seq![(n % 256) as u8] + le_bytes(n / 256, (count - 1) as nat)
    }
}

/// How the length of a byte string is written in front of it.
#[derive(Clone, Copy, Debug, PartialEq, Eq, Structural)]
pub enum PrefixKind {
    LenU64Le,
    LenU64Be,
}

impl PrefixKind {
    /// The eight bytes that encode `len` in this kind's byte order.
    pub open spec fn encode_len(self, len: nat) -> Seq<u8> {
        match self {
            PrefixKind::LenU64Le => le_bytes(len, 8),
            PrefixKind::LenU64Be => le_bytes(len, 8).reverse(),
        }
    }

    /// The length of `slice` as a `u64`, in little- or big-endian order.
    pub fn write(self, slice: &[u8]) -> (bytes: Vec<u8>)
        ensures
            bytes@ == self.encode_len(slice@.len()),
            bytes@.len() == 8,
    {
        let len: u64 = slice.len() as u64;
        let mut le: Vec<u8> = Vec::new();
        let mut rest: u64 = len;
        let mut i: usize = 0;
        while i < 8
            invariant
                i <= 8,
                le@ + le_bytes(rest as nat, (8 - i) as nat) == le_bytes(len as nat, 8),
                le@.len() == i,
            decreases 8 - i,
        {
            proof {
                assert(le_bytes(rest as nat, (8 - i) as nat) == seq![(rest as nat % 256) as u8]
                    + le_bytes(rest as nat / 256, (8 - i - 1) as nat));
            }
            let byte: u8 = (rest % 256) as u8;
            le.push(byte);
            rest = rest / 256;
            proof {
                assert(le@ + le_bytes(rest as nat, (8 - (i + 1)) as nat) =~= le_bytes(
                    len as nat,
                    8,
                ));
            }
            i = i + 1;
        }
        proof {
            assert(le_bytes(rest as nat, 0) =~= Seq::<u8>::empty());
            assert(le@ =~= le_bytes(len as nat, 8));
        }
        match self {
            PrefixKind::LenU64Le => le,
            PrefixKind::LenU64Be => {
                let mut be: Vec<u8> = Vec::new();
                let mut j: usize = 8;
                while j > 0
                    invariant
                        j <= 8,
                        le@.len() == 8,
                        be@ =~= le@.subrange(j as int, 8).reverse(),
                    decreases j,
                {
                    j = j - 1;
                    be.push(le[j]);
                    proof {
                        assert(be@ =~= le@.subrange(j as int, 8).reverse());
                    }
                }
                proof {
                    assert(le@.subrange(0, 8) =~= le@);
                }
                be
            },
        }
    }
}

} // verus!
