use vstd::prelude::*;

verus! {

/// Appends `bytes` to the end of `out`.
pub fn write_bytes(out: &mut Vec<u8>, bytes: &[u8])
    ensures
        final(out)@ == old(out)@ + bytes@,
{
    let mut i: usize = 0;
    while i < bytes.len()
        invariant
            i <= bytes@.len(),
            out@ == old(out)@ + bytes@.subrange(0, i as int),
        decreases bytes@.len() - i,
    {
        out.push(bytes[i]);
        proof {
            assert(out@ =~= old(out)@ + bytes@.subrange(0, i + 1));
        }
        i = i + 1;
    }
    proof {
        assert(bytes@.subrange(0, bytes@.len() as int) =~= bytes@);
    }
}

/// The decimal digits of `n`, most significant first, in ASCII.
pub open spec fn decimal(n: nat) -> Seq<u8>
    decreases n,
{
    if n < 10 {
        seq![(0x30 + n) as u8]
    } else {
        decimal(n / 10) + seq![(0x30 + n % 10) as u8]
    }
}

/// The decimal digits of `n` followed by a newline, as `writeln!` prints a number.
pub open spec fn decimal_line(n: nat) -> Seq<u8> {
    decimal(n) + seq![0x0a]
}

/// The ASCII decimal digits of `n`, followed by a newline.
pub fn decimal_line_bytes(n: u64) -> (bytes: Vec<u8>)
    ensures
        bytes@ == decimal_line(n as nat),
{
    // digits collected least significant first
    let mut rev: Vec<u8> = Vec::new();
    let mut rest: u64 = n;
    while rest >= 10
        invariant
            rest <= n,
            decimal(n as nat) == decimal(rest as nat) + rev@.reverse(),
        decreases rest,
    {
        let digit: u8 = (0x30 + rest % 10) as u8;
        proof {
            assert(decimal(rest as nat) == decimal((rest / 10) as nat) + seq![digit]);
            assert(rev@.push(digit).reverse() =~= seq![digit] + rev@.reverse());
            assert(decimal(rest as nat) + rev@.reverse() =~= decimal((rest / 10) as nat)
                + rev@.push(digit).reverse());
        }
        rev.push(digit);
        rest = rest / 10;
    }
    let mut bytes: Vec<u8> = Vec::new();
    let first: u8 = (0x30 + rest) as u8;
    bytes.push(first);
    let mut j: usize = rev.len();
    while j > 0
        invariant
            j <= rev@.len(),
            rest < 10,
            decimal(n as nat) == decimal(rest as nat) + rev@.reverse(),
            bytes@ =~= decimal(rest as nat) + rev@.subrange(j as int, rev@.len() as int).reverse(),
        decreases j,
    {
        j = j - 1;
        bytes.push(rev[j]);
        proof {
            assert(bytes@ =~= decimal(rest as nat) + rev@.subrange(
                j as int,
                rev@.len() as int,
            ).reverse());
        }
    }
    proof {
        assert(rev@.subrange(0, rev@.len() as int) =~= rev@);
    }
    bytes.push(0x0a);
    bytes
}

} // verus!
