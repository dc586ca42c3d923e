//! Building the messages that a console sends.

use vstd::prelude::*;

verus! {

/// The decimal digits of `n`, most significant first.
pub open spec fn digits_of(n: nat) -> Seq<u8>
    decreases n,
{
    if n < 10 {
        seq![(0x30 + n) as u8]
    } else {
        digits_of(n / 10).push((0x30 + n % 10) as u8)
    }
}

/// `n` written in decimal, with a leading `-` where it is negative.
pub open spec fn decimal(n: int) -> Seq<u8> {
    if n < 0 {
        seq![0x2du8] + digits_of((-n) as nat)
    } else {
        digits_of(n as nat)
    }
}

/// Appends `bytes` to `out`.
pub fn push_bytes(out: &mut Vec<u8>, bytes: &[u8])
    ensures
        final(out)@ == old(out)@ + bytes@,
{
    let mut i: usize = 0;
    assert(bytes@.take(0) == Seq::<u8>::empty());
    while i < bytes.len()
        invariant
            i <= bytes.len(),
            out@ == old(out)@ + bytes@.take(i as int),
        decreases bytes.len() - i,
    {
        out.push(bytes[i]);
        assert(bytes@.take(i as int + 1) == bytes@.take(i as int).push(bytes@[i as int]));
        i += 1;
    }
    assert(bytes@.take(bytes.len() as int) == bytes@);
}

/// Appends `n`, written in decimal, to `out`.
pub fn push_decimal(out: &mut Vec<u8>, n: i32)
    ensures
        final(out)@ == old(out)@ + decimal(n as int),
{
    let mut v: i64 = n as i64;
    if v < 0 {
        out.push(0x2d);
        v = -v;
    }
    let ghost whole = v as nat;
    let ghost head = out@;
    let mut tail: Vec<u8> = Vec::new();
    tail.push(0x30 + (v % 10) as u8);
    v = v / 10;
    while v > 0
        invariant
            0 <= v,
            v > 0 ==> digits_of(whole) == digits_of(v as nat) + tail@,
            v == 0 ==> digits_of(whole) == tail@,
        decreases v,
    {
        let ghost before = tail@;
        tail.insert(0, 0x30 + (v % 10) as u8);
        proof {
            let d = (0x30 + v % 10) as u8;
            assert(tail@ == seq![d] + before);
            if v >= 10 {
                assert(digits_of(v as nat) == digits_of((v / 10) as nat).push(d));
                assert(digits_of((v / 10) as nat).push(d) + before == digits_of((v / 10) as nat)
                    + (seq![d] + before));
            } else {
                assert(digits_of(v as nat) == seq![d]);
            }
        }
        v = v / 10;
    }
    out.append(&mut tail);
    proof {
        if n < 0 {
            assert(head == old(out)@.push(0x2du8));
            assert(head + digits_of(whole) == old(out)@ + (seq![0x2du8] + digits_of(whole)));
        }
    }
}

} // verus!
