//! The 16-bit checksum that terminates every serial (`Rtu`) frame.
//!
//! The algorithm is the classic bitwise linear-feedback checksum with the
//! reflected polynomial `0xA001` and initial value `0xFFFF`: each input
//! byte is xor-ed into the low byte of the running value, which is then
//! shifted right eight times, xor-ing in the polynomial whenever a one bit
//! falls out.  The result is appended to serial frames low byte first.

use vstd::prelude::*;

verus! {

/// One shift step of the feedback register.
pub open spec fn crc_bit_step(c: u16) -> u16 {
    if c & 1 == 1 {
        (c >> 1) ^ 0xA001
    } else {
        c >> 1
    }
}

/// `n` successive shift steps.
pub open spec fn crc_bits(c: u16, n: nat) -> u16
    decreases n,
{
    if n == 0 {
        c
    } else {
        crc_bit_step(crc_bits(c, (n - 1) as nat))
    }
}

/// Folding one input byte into the running value.
pub open spec fn crc_push_byte(c: u16, b: u8) -> u16 {
    crc_bits(c ^ (b as u16), 8)
}

/// The running value after folding all of `s` into `c`.
pub open spec fn spec_crc_from(c: u16, s: Seq<u8>) -> u16
    decreases s.len(),
{
    if s.len() == 0 {
        c
    } else {
        spec_crc_from(crc_push_byte(c, s[0]), s.drop_first())
    }
}

/// The checksum of a byte sequence.
pub open spec fn spec_crc(s: Seq<u8>) -> u16 {
    spec_crc_from(0xFFFF, s)
}

/// Folding bytes is compatible with appending one byte at the end.
pub proof fn lemma_crc_from_push(c: u16, s: Seq<u8>, b: u8)
    ensures
        spec_crc_from(c, s.push(b)) == crc_push_byte(spec_crc_from(c, s), b),
    decreases s.len(),
{
    if s.len() == 0 {
        assert(s.push(b)[0] == b);
        assert(s.push(b).drop_first() =~= s);
        assert(spec_crc_from(c, s.push(b)) == spec_crc_from(crc_push_byte(c, b), s));
    } else {
        assert(s.push(b)[0] == s[0]);
        assert(s.push(b).drop_first() =~= s.drop_first().push(b));
        lemma_crc_from_push(crc_push_byte(c, s[0]), s.drop_first(), b);
        assert(spec_crc_from(c, s.push(b)) == spec_crc_from(
            crc_push_byte(c, s[0]),
            s.drop_first().push(b),
        ));
        assert(spec_crc_from(c, s) == spec_crc_from(crc_push_byte(c, s[0]), s.drop_first()));
    }
}

/// Computes the serial-frame checksum of `data`.
pub fn compute(data: &Vec<u8>) -> (r: u16)
    ensures
        r == spec_crc(data@),
{
    let mut crc: u16 = 0xFFFF;
    let mut i: usize = 0;
    while i < data.len()
        invariant
            i <= data.len(),
            crc == spec_crc_from(0xFFFF, data@.take(i as int)),
        decreases data.len() - i,
    {
        let b: u8 = data[i];
        let mut c: u16 = crc ^ (b as u16);
        let mut k: usize = 0;
        while k < 8
            invariant
                k <= 8,
                c == crc_bits(crc ^ (b as u16), k as nat),
            decreases 8 - k,
        {
            if c & 1 == 1 {
                c = (c >> 1) ^ 0xA001;
            } else {
                c = c >> 1;
            }
            k = k + 1;
        }
        proof {
            lemma_crc_from_push(0xFFFF, data@.take(i as int), b);
            assert(data@.take(i as int).push(b) =~= data@.take(i + 1));
        }
        crc = c;
        i = i + 1;
    }
    proof {
        assert(data@.take(data@.len() as int) =~= data@);
    }
    crc
}

} // verus!
