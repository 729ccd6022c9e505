use vstd::prelude::*;

verus! {

/// The character for one decimal digit.
pub open spec fn dec_digit(d: nat) -> char {
    if d == 0 {
        '0'
    } else if d == 1 {
        '1'
    } else if d == 2 {
        '2'
    } else if d == 3 {
        '3'
    } else if d == 4 {
        '4'
    } else if d == 5 {
        '5'
    } else if d == 6 {
        '6'
    } else if d == 7 {
        '7'
    } else if d == 8 {
        '8'
    } else {
        '9'
    }
}

/// The decimal representation of a number, most significant digit first,
/// without leading zeros (a single '0' for zero).
pub open spec fn dec_str(n: nat) -> Seq<char>
    decreases n,
{
    if n < 10 {
        seq![dec_digit(n)]
    } else {
        dec_str(n / 10) + seq![dec_digit(n % 10)]
    }
}

/// The characters for a sequence of digits read back to front: the digits
/// are collected least significant first, so reading them in reverse yields
/// the usual order.
spec fn rev_digits(s: Seq<u8>) -> Seq<char>
    decreases s.len(),
{
    if s.len() == 0 {
        Seq::empty()
    } else {
        rev_digits(s.skip(1)) + seq![dec_digit(s[0] as nat)]
    }
}

proof fn lemma_rev_digits_push(s: Seq<u8>, x: u8)
    ensures
        rev_digits(s.push(x)) == seq![dec_digit(x as nat)] + rev_digits(s),
    decreases s.len(),
{
    if s.len() == 0 {
        assert(s.push(x).skip(1) =~= Seq::<u8>::empty());
        assert(rev_digits(s.push(x).skip(1)) == Seq::<char>::empty());
        assert(s.push(x)[0] == x);
        assert(rev_digits(s.push(x)) == Seq::<char>::empty() + seq![dec_digit(x as nat)]);
        assert(rev_digits(s.push(x)) =~= seq![dec_digit(x as nat)] + rev_digits(s));
    } else {
        assert(s.push(x).skip(1) =~= s.skip(1).push(x));
        lemma_rev_digits_push(s.skip(1), x);
        assert(s.push(x)[0] == s[0]);
        assert(rev_digits(s.push(x)) =~= seq![dec_digit(x as nat)] + rev_digits(s));
    }
}

/// Appends one decimal digit character.
fn append_digit(out: &mut String, d: u8)
    requires
        d < 10,
    ensures
        final(out)@ == old(out)@ + seq![dec_digit(d as nat)],
{
    proof {
        reveal_strlit("0");
        reveal_strlit("1");
        reveal_strlit("2");
        reveal_strlit("3");
        reveal_strlit("4");
        reveal_strlit("5");
        reveal_strlit("6");
        reveal_strlit("7");
        reveal_strlit("8");
        reveal_strlit("9");
    }
    if d == 0 {
        out.append("0");
        proof { assert(out@ =~= old(out)@ + seq![dec_digit(d as nat)]); }
    } else if d == 1 {
        out.append("1");
        proof { assert(out@ =~= old(out)@ + seq![dec_digit(d as nat)]); }
    } else if d == 2 {
        out.append("2");
        proof { assert(out@ =~= old(out)@ + seq![dec_digit(d as nat)]); }
    } else if d == 3 {
        out.append("3");
        proof { assert(out@ =~= old(out)@ + seq![dec_digit(d as nat)]); }
    } else if d == 4 {
        out.append("4");
        proof { assert(out@ =~= old(out)@ + seq![dec_digit(d as nat)]); }
    } else if d == 5 {
        out.append("5");
        proof { assert(out@ =~= old(out)@ + seq![dec_digit(d as nat)]); }
    } else if d == 6 {
        out.append("6");
        proof { assert(out@ =~= old(out)@ + seq![dec_digit(d as nat)]); }
    } else if d == 7 {
        out.append("7");
        proof { assert(out@ =~= old(out)@ + seq![dec_digit(d as nat)]); }
    } else if d == 8 {
        out.append("8");
        proof { assert(out@ =~= old(out)@ + seq![dec_digit(d as nat)]); }
    } else {
        out.append("9");
        proof { assert(out@ =~= old(out)@ + seq![dec_digit(d as nat)]); }
    }
}

/// The decimal rendering of a 32-bit number, proved equal to [`dec_str`].
pub fn u32_to_dec(n: u32) -> (r: String)
    ensures
        r@ == dec_str(n as nat),
{
    let mut out = String::new();
    if n == 0 {
        append_digit(&mut out, 0);
        proof { assert(out@ =~= dec_str(n as nat)); }
        return out;
    }
    let mut m: u32 = n;
    let mut ds: Vec<u8> = Vec::new();
    while m > 0
        invariant
            forall|k: int| 0 <= k < ds@.len() ==> #[trigger] ds@[k] < 10,
            m > 0 ==> dec_str(n as nat) == dec_str(m as nat) + rev_digits(ds@),
            m == 0 ==> ds@.len() > 0 && dec_str(n as nat) == rev_digits(ds@),
            n > 0,
        decreases m,
    {
        let d: u8 = (m % 10) as u8;
        proof {
            lemma_rev_digits_push(ds@, d);
            if m >= 10 {
                assert(dec_str(m as nat) == dec_str((m as nat) / 10) + seq![dec_digit((m as nat) % 10)]);
                assert(dec_str(m as nat) + rev_digits(ds@)
                    =~= dec_str((m as nat) / 10) + rev_digits(ds@.push(d)));
            } else {
                assert(dec_str(m as nat) + rev_digits(ds@) =~= rev_digits(ds@.push(d)));
            }
        }
        ds.push(d);
        m = m / 10;
    }
    let ghost total = ds@;
    let mut i: usize = ds.len();
    while i > 0
        invariant
            i <= ds@.len(),
            ds@ == total,
            forall|k: int| 0 <= k < ds@.len() ==> #[trigger] ds@[k] < 10,
            dec_str(n as nat) == rev_digits(ds@),
            out@ == rev_digits(ds@.skip(i as int)),
        decreases i,
    {
        i = i - 1;
        proof {
            assert(ds@.skip(i as int).skip(1) =~= ds@.skip(i as int + 1));
            assert(rev_digits(ds@.skip(i as int))
                == rev_digits(ds@.skip(i as int + 1)) + seq![dec_digit(ds@[i as int] as nat)]);
        }
        let d = ds[i];
        append_digit(&mut out, d);
    }
    proof {
        assert(ds@.skip(0) =~= ds@);
    }
    out
}


/// The decimal representation of a signed number: a leading minus sign for
/// a negative one.
pub open spec fn dec_str_int(i: int) -> Seq<char> {
    if i < 0 {
        seq!['-'] + dec_str((-i) as nat)
    } else {
        dec_str(i as nat)
    }
}

/// The decimal rendering of a signed 32-bit number, proved equal to
/// [`dec_str_int`].
pub fn i32_to_dec(n: i32) -> (r: String)
    ensures
        r@ == dec_str_int(n as int),
{
    if n >= 0 {
        u32_to_dec(n as u32)
    } else {
        let mut out = String::from_str("-");
        proof {
            reveal_strlit("-");
            assert(out@ =~= seq!['-']);
        }
        let mag64: i64 = -(n as i64);
        let mag: u32 = mag64 as u32;
        let d = u32_to_dec(mag);
        out.append(d.as_str());
        proof {
            assert(out@ =~= dec_str_int(n as int));
        }
        out
    }
}

} // verus!

