//! Splitting text into lines the way `str::lines` does.
use vstd::prelude::*;
use vstd::string::*;
use vstd::utf8::*;

verus! {

broadcast use {
    is_char_boundary_iff_not_is_continuation_byte,
    is_char_boundary_start_end_of_seq,
    encode_utf8_valid_utf8,
    valid_utf8_split,
};

/// Index of the first newline byte at or after `i`, or the length of `b`
/// when there is none.
pub open spec fn newline_from(b: Seq<u8>, i: nat) -> nat
    decreases b.len() - i,
{
    if i >= b.len() {
        b.len()
    } else if b[i as int] == 10u8 {
        i
    } else {
        newline_from(b, i + 1)
    }
}

/// `b` less one carriage return at its end.
pub open spec fn strip_cr(b: Seq<u8>) -> Seq<u8> {
    if b.len() > 0 && b.last() == 13u8 {
        b.drop_last()
    } else {
        b
    }
}

/// The lines of `b`: split at each newline, a carriage return just before a
/// newline dropped, and no empty line after a final newline.
pub open spec fn lines_of(b: Seq<u8>) -> Seq<Seq<u8>>
    decreases b.len(),
{
    if b.len() == 0 {
        seq![]
    } else {
        let e = newline_from(b, 0);
        if e < b.len() {
            seq![strip_cr(b.subrange(0, e as int))] + lines_of(b.subrange((e + 1) as int, b.len() as int))
        } else {
            seq![b]
        }
    }
}

proof fn lemma_newline_from(b: Seq<u8>, i: nat)
    ensures
        i <= b.len() ==> i <= newline_from(b, i) <= b.len(),
        newline_from(b, i) < b.len() ==> b[newline_from(b, i) as int] == 10u8,
        forall|k: int| i <= k < newline_from(b, i) ==> b[k] != 10u8,
    decreases b.len() - i,
{
    if i < b.len() && b[i as int] != 10u8 {
        lemma_newline_from(b, i + 1);
    }
}

/// Splits `s` into its lines, each line copied out.
pub fn split_lines(s: &str) -> (r: Vec<String>)
    ensures
        r@.len() == lines_of(s.spec_bytes()).len(),
        forall|i: int|
            0 <= i < r@.len() ==> encode_utf8(#[trigger] r@[i]@) == lines_of(s.spec_bytes())[i],
{
    let ghost b = s.spec_bytes();
    let mut out: Vec<String> = Vec::new();
    let mut rest: &str = s;
    while rest.as_bytes().len() > 0
        invariant
            b == s.spec_bytes(),
            out@.len() + lines_of(rest.spec_bytes()).len() == lines_of(b).len(),
            forall|k: int|
                0 <= k < out@.len() ==> encode_utf8(#[trigger] out@[k]@) == lines_of(b)[k],
            forall|k: int|
                0 <= k < lines_of(rest.spec_bytes()).len() ==> lines_of(b)[out@.len() + k]
                    == #[trigger] lines_of(rest.spec_bytes())[k],
        decreases rest.spec_bytes().len(),
    {
        let ghost rb = rest.spec_bytes();
        let bytes = rest.as_bytes();
        let n = bytes.len();
        let mut e: usize = 0;
        while e < n && bytes[e] != 10u8
            invariant
                bytes@ == rb,
                n == rb.len(),
                e <= n,
                newline_from(rb, 0) == newline_from(rb, e as nat),
            decreases n - e,
        {
            e = e + 1;
        }
        proof {
            lemma_newline_from(rb, 0);
        }
        let line: &str;
        if e < n {
            proof {
                assert(valid_utf8(rb));
                assert(!is_continuation_byte(rb[e as int]));
            }
            let (head, tail) = rest.split_at(e);
            if e > 0 && bytes[e - 1] == 13u8 {
                proof {
                    assert(head.spec_bytes()[e - 1] == 13u8);
                    assert(!is_continuation_byte(head.spec_bytes()[e - 1]));
                }
                let (trimmed, _) = head.split_at(e - 1);
                line = trimmed;
            } else {
                line = head;
            }
            proof {
                assert(tail.spec_bytes()[0] == 10u8);
                assert(is_char_boundary(tail.spec_bytes(), 1)) by {
                    reveal_with_fuel(is_char_boundary, 2);
                }
            }
            let (_, next) = tail.split_at(1);
            proof {
                assert(line.spec_bytes() =~= strip_cr(rb.subrange(0, e as int)));
                assert(next.spec_bytes() =~= rb.subrange((e + 1) as int, n as int));
            }
            rest = next;
        } else {
            line = rest;
            let (_, next) = rest.split_at(n);
            rest = next;
        }
        let owned = line.to_owned();
        out.push(owned);
        proof {
            assert(lines_of(rb) == seq![line.spec_bytes()] + lines_of(rest.spec_bytes()));
            assert(lines_of(rb)[0] == line.spec_bytes());
            assert forall|k: int| 0 <= k < lines_of(rest.spec_bytes()).len() implies lines_of(
                b,
            )[out@.len() + k] == #[trigger] lines_of(rest.spec_bytes())[k] by {
                assert(lines_of(rb)[k + 1] == lines_of(rest.spec_bytes())[k]);
            }
        }
    }
    assert(rest.spec_bytes().len() == 0);
    assert(lines_of(rest.spec_bytes()) =~= Seq::<Seq<u8>>::empty());
    out
}

} // verus!
