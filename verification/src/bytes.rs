//! Byte-level conventions of the device memory image.
//!
//! Unwritten device memory reads back as `0xFF`, so every variable-length
//! sub-field (card UID, PIN, free text) is stored right-padded with `0xFF`
//! bytes and recovered by trimming that padding off again.

use vstd::prelude::*;

verus! {

/// Every byte of `s` is the `0xFF` fill value.
pub open spec fn all_ff(s: Seq<u8>) -> bool {
    forall|i: int| 0 <= i < s.len() ==> s[i] == 0xFF
}

/// `s` with its maximal suffix of `0xFF` bytes removed.
pub open spec fn trim_ff(s: Seq<u8>) -> Seq<u8>
    decreases s.len(),
{
    if s.len() == 0 {
        s
    } else if s[s.len() - 1] == 0xFF {
        trim_ff(s.drop_last())
    } else {
        s
    }
}

/// `s` right-padded with `0xFF` bytes up to length `n`.
pub open spec fn pad_ff_seq(s: Seq<u8>, n: int) -> Seq<u8> {
    s + Seq::new((n - s.len()) as nat, |i: int| 0xFFu8)
}

/// Trimming never changes a sequence that does not end in `0xFF`,
/// and always yields such a sequence: a prefix of `s` whose last
/// byte (if any) is not `0xFF`, with only `0xFF` bytes dropped.
pub proof fn lemma_trim_ff_prefix(s: Seq<u8>)
    ensures
        trim_ff(s).len() <= s.len(),
        trim_ff(s) == s.take(trim_ff(s).len() as int),
        trim_ff(s).len() > 0 ==> trim_ff(s)[trim_ff(s).len() - 1] != 0xFF,
        all_ff(s.skip(trim_ff(s).len() as int)),
    decreases s.len(),
{
    if s.len() == 0 {
        assert(s.take(0) =~= s);
        assert(all_ff(s.skip(0)));
    } else if s[s.len() - 1] == 0xFF {
        lemma_trim_ff_prefix(s.drop_last());
        let t = trim_ff(s);
        assert(s.drop_last() =~= s.take(s.len() - 1));
        assert(t == trim_ff(s.drop_last()));
        assert(s.drop_last().take(t.len() as int) =~= s.take(t.len() as int));
        assert(all_ff(s.skip(t.len() as int))) by {
            let sk = s.skip(t.len() as int);
            assert forall|i: int| 0 <= i < sk.len() implies sk[i] == 0xFF by {
                if i < sk.len() - 1 {
                    assert(sk[i] == s.drop_last().skip(t.len() as int)[i]);
                }
            }
        }
    } else {
        assert(s.take(s.len() as int) =~= s);
        assert(all_ff(s.skip(s.len() as int)));
    }
}

/// A sequence is all `0xFF` exactly when trimming leaves nothing.
pub proof fn lemma_trim_ff_empty(s: Seq<u8>)
    ensures
        trim_ff(s).len() == 0 <==> all_ff(s),
    decreases s.len(),
{
    if s.len() > 0 {
        if s[s.len() - 1] == 0xFF {
            lemma_trim_ff_empty(s.drop_last());
            if all_ff(s.drop_last()) {
                assert forall|i: int| 0 <= i < s.len() implies s[i] == 0xFF by {
                    if i < s.len() - 1 {
                        assert(s.drop_last()[i] == 0xFF);
                    }
                }
            }
            if all_ff(s) {
                assert forall|i: int| 0 <= i < s.drop_last().len() implies s.drop_last()[i]
                    == 0xFF by {
                    assert(s[i] == 0xFF);
                }
            }
        }
    }
}

/// Trimming undoes padding, for data that does not itself end in the
/// fill byte.
pub proof fn lemma_trim_pad_ff(s: Seq<u8>, n: int)
    requires
        s.len() <= n,
        s.len() > 0 ==> s[s.len() - 1] != 0xFF,
    ensures
        trim_ff(pad_ff_seq(s, n)) == s,
    decreases n - s.len(),
{
    let p = pad_ff_seq(s, n);
    if s.len() == n {
        assert(p =~= s);
        if s.len() > 0 {
            assert(trim_ff(s) == s);
        }
    } else {
        assert(p[p.len() - 1] == 0xFF);
        assert(p.drop_last() =~= pad_ff_seq(s, n - 1));
        lemma_trim_pad_ff(s, n - 1);
    }
}

/// Every byte of `data` is the `0xFF` fill value.
pub fn is_all_ff(data: &[u8]) -> (r: bool)
    ensures
        r == all_ff(data@),
{
    let mut i: usize = 0;
    while i < data.len()
        invariant
            i <= data@.len(),
            forall|j: int| 0 <= j < i ==> data@[j] == 0xFF,
        decreases data@.len() - i,
    {
        if data[i] != 0xFF {
            return false;
        }
        i = i + 1;
    }
    true
}

/// Drop the trailing `0xFF` padding bytes of `data`.
pub fn trim_empty(data: Vec<u8>) -> (r: Vec<u8>)
    ensures
        r@ == trim_ff(data@),
{
    let mut data = data;
    let mut end: usize = data.len();
    proof {
        assert(data@.take(end as int) =~= data@);
    }
    while end > 0 && data[end - 1] == 0xFF
        invariant
            end <= data@.len(),
            trim_ff(data@) == trim_ff(data@.take(end as int)),
        decreases end,
    {
        assert(data@.take(end as int).drop_last() =~= data@.take(end as int - 1));
        end = end - 1;
    }
    proof {
        if end > 0 {
            assert(data@.take(end as int)[end - 1] != 0xFF);
        }
        assert(trim_ff(data@.take(end as int)) == data@.take(end as int));
    }
    data.truncate(end);
    data
}

/// Right-pad `data` with `0xFF` bytes up to length `len`.
pub fn pad_ff(data: &mut Vec<u8>, len: usize)
    requires
        old(data)@.len() <= len,
    ensures
        final(data)@ == pad_ff_seq(old(data)@, len as int),
{
    while data.len() < len
        invariant
            old(data)@.len() <= data@.len() <= len,
            data@ == pad_ff_seq(old(data)@, data@.len() as int),
        decreases len - data@.len(),
    {
        data.push(0xFF);
        assert(data@ =~= pad_ff_seq(old(data)@, data@.len() as int));
    }
    assert(data@ =~= pad_ff_seq(old(data)@, len as int));
}

} // verus!
