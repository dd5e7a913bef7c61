//! QNAME encoding: a dotted domain name becomes a sequence of
//! length-prefixed labels terminated by a zero-length label.
//!
//! The name is split on `.`; every non-empty label is emitted as one
//! length byte (at most 63) followed by the label bytes; a final zero
//! byte closes the name. An empty name therefore encodes to the single
//! zero byte of the root domain, while a label longer than 63 bytes is
//! a validation error, never a silent truncation.

use vstd::prelude::*;

use crate::err::DnsError;

verus! {

/// The label separator of a dotted domain name: the byte `.`.
pub const LABEL_SEP: u8 = 46;

/// The largest length in bytes a DNS label may have.
pub const MAX_LABEL_LEN: usize = 63;

/// The parts of `s` from position `i` on, split on the separator and
/// keeping empty parts, with `cur` the piece of the current part read
/// so far.
pub open spec fn split_acc(s: Seq<u8>, i: int, cur: Seq<u8>) -> Seq<Seq<u8>>
    decreases s.len() - i,
{
    if i < 0 || i >= s.len() {
        seq![cur]
    } else if s[i] == LABEL_SEP {
        seq![cur] + split_acc(s, i + 1, Seq::empty())
    } else {
        split_acc(s, i + 1, cur.push(s[i]))
    }
}

/// The labels of a domain name: its bytes split on `.`, empty labels
/// included. An empty name has the single empty label.
pub open spec fn labels(s: Seq<u8>) -> Seq<Seq<u8>> {
    split_acc(s, 0, Seq::empty())
}

/// The wire encoding of a list of labels: for each non-empty label one
/// length byte followed by the label bytes; empty labels vanish.
pub open spec fn enc_labels(ls: Seq<Seq<u8>>) -> Seq<u8>
    decreases ls.len(),
{
    if ls.len() == 0 {
        Seq::empty()
    } else {
        (if ls[0].len() == 0 {
            Seq::<u8>::empty()
        } else {
            seq![ls[0].len() as u8] + ls[0]
        }) + enc_labels(ls.drop_first())
    }
}

/// Whether every label of the list fits in one length byte of at
/// most 63.
pub open spec fn labels_valid(ls: Seq<Seq<u8>>) -> bool {
    forall|k: int| 0 <= k < ls.len() ==> (#[trigger] ls[k]).len() <= MAX_LABEL_LEN
}

/// The complete QNAME encoding of a domain name: its non-empty labels,
/// each length-prefixed, terminated by the zero byte of the root label.
pub open spec fn qname_encoding(s: Seq<u8>) -> Seq<u8> {
    enc_labels(labels(s)) + seq![0u8]
}

/// Whether every label of the domain name is at most 63 bytes long.
pub open spec fn qname_valid(s: Seq<u8>) -> bool {
    labels_valid(labels(s))
}

/// Splitting never yields an empty list: there is always at least the
/// current part.
pub proof fn lemma_split_acc_len(s: Seq<u8>, i: int, cur: Seq<u8>)
    ensures
        split_acc(s, i, cur).len() >= 1,
    decreases s.len() - i,
{
    if i < 0 || i >= s.len() {
    } else if s[i] == LABEL_SEP {
    } else {
        lemma_split_acc_len(s, i + 1, cur.push(s[i]));
    }
}

/// Unfolds the split across one whole part: if the bytes from `i` up to
/// `e` hold no separator and `e` sits on a separator or at the end,
/// then the split at `i` starts with that part and continues after the
/// separator.
pub proof fn lemma_split_acc_label(s: Seq<u8>, i: int, e: int, cur: Seq<u8>)
    requires
        0 <= i <= e <= s.len(),
        forall|j: int| i <= j < e ==> s[j] != LABEL_SEP,
        e < s.len() ==> s[e] == LABEL_SEP,
    ensures
        e < s.len() ==> split_acc(s, i, cur) == seq![cur + s.subrange(i, e)] + split_acc(
            s,
            e + 1,
            Seq::empty(),
        ),
        e == s.len() ==> split_acc(s, i, cur) == seq![cur + s.subrange(i, e)],
    decreases e - i,
{
    if i == e {
        assert(cur + s.subrange(i, e) =~= cur);
    } else {
        lemma_split_acc_label(s, i + 1, e, cur.push(s[i]));
        assert(cur.push(s[i]) + s.subrange(i + 1, e) =~= cur + s.subrange(i, e));
    }
}

/// The encoding of a list that starts with label `l`: the encoding of
/// `l` followed by the encoding of the rest.
pub proof fn lemma_enc_labels_cons(l: Seq<u8>, rest: Seq<Seq<u8>>)
    ensures
        enc_labels(seq![l] + rest) == (if l.len() == 0 {
            Seq::<u8>::empty()
        } else {
            seq![l.len() as u8] + l
        }) + enc_labels(rest),
{
    let ls = seq![l] + rest;
    assert(ls[0] == l);
    assert(ls.drop_first() =~= rest);
}

/// A list that starts with label `l` is valid exactly when `l` fits in
/// a length byte and the rest is valid.
pub proof fn lemma_labels_valid_cons(l: Seq<u8>, rest: Seq<Seq<u8>>)
    ensures
        labels_valid(seq![l] + rest) <==> (l.len() <= MAX_LABEL_LEN && labels_valid(rest)),
{
    let ls = seq![l] + rest;
    if labels_valid(ls) {
        assert(ls[0] == l);
        assert forall|k: int| 0 <= k < rest.len() implies (#[trigger] rest[k]).len()
            <= MAX_LABEL_LEN by {
            assert(ls[k + 1] == rest[k]);
        }
    }
    if l.len() <= MAX_LABEL_LEN && labels_valid(rest) {
        assert forall|k: int| 0 <= k < ls.len() implies (#[trigger] ls[k]).len()
            <= MAX_LABEL_LEN by {
            if k == 0 {
                assert(ls[0] == l);
            } else {
                assert(ls[k] == rest[k - 1]);
            }
        }
    }
}

/// The encoding and validity of the one-label list.
pub proof fn lemma_enc_labels_single(l: Seq<u8>)
    ensures
        enc_labels(seq![l]) == (if l.len() == 0 {
            Seq::<u8>::empty()
        } else {
            seq![l.len() as u8] + l
        }),
        labels_valid(seq![l]) <==> l.len() <= MAX_LABEL_LEN,
{
    lemma_enc_labels_cons(l, Seq::empty());
    lemma_labels_valid_cons(l, Seq::empty());
    assert(seq![l] + Seq::<Seq<u8>>::empty() =~= seq![l]);
    assert(enc_labels(Seq::<Seq<u8>>::empty()) == Seq::<u8>::empty());
    assert((if l.len() == 0 {
        Seq::<u8>::empty()
    } else {
        seq![l.len() as u8] + l
    }) + Seq::<u8>::empty() =~= (if l.len() == 0 {
        Seq::<u8>::empty()
    } else {
        seq![l.len() as u8] + l
    }));
}

/// The chosen policy for the empty name: it is not an error of the
/// encoder but the root domain, whose QNAME is the single zero byte.
pub proof fn lemma_empty_name_root()
    ensures
        qname_encoding(Seq::<u8>::empty()) == seq![0u8],
        qname_valid(Seq::<u8>::empty()),
{
    assert(labels(Seq::<u8>::empty()) =~= seq![Seq::<u8>::empty()]);
    lemma_enc_labels_single(Seq::<u8>::empty());
    assert(enc_labels(labels(Seq::<u8>::empty())) == Seq::<u8>::empty());
    assert(Seq::<u8>::empty() + seq![0u8] =~= seq![0u8]);
}

/// Scans from `from` to the end of the current label: returns the index
/// of the next separator, or the length of `s` if none remains.
pub fn find_sep(s: &[u8], from: usize) -> (e: usize)
    requires
        from <= s@.len(),
    ensures
        from <= e <= s@.len(),
        forall|j: int| from <= j < e ==> s@[j] != LABEL_SEP,
        e < s@.len() ==> s@[e as int] == LABEL_SEP,
{
    let mut e: usize = from;
    while e < s.len() && s[e] != LABEL_SEP
        invariant
            from <= e <= s@.len(),
            forall|j: int| from <= j < e ==> s@[j] != LABEL_SEP,
        decreases s@.len() - e,
    {
        e = e + 1;
    }
    e
}

/// Appends the QNAME encoding of `name` to `buf`: each non-empty label
/// length-prefixed, closed by the zero byte. Exactly the names whose
/// labels all fit in 63 bytes encode; a longer label is rejected and
/// `buf` stays untouched. The empty name encodes to the root label,
/// the single zero byte.
pub fn encode_qname(name: &[u8], buf: &mut Vec<u8>) -> (r: Result<(), DnsError>)
    ensures
        r is Ok <==> qname_valid(name@),
        r is Ok ==> final(buf)@ == old(buf)@ + qname_encoding(name@),
        r is Err ==> final(buf)@ == old(buf)@ && r == Err::<(), DnsError>(DnsError::LabelTooLong),
{
    let n: usize = name.len();
    let mut out: Vec<u8> = Vec::new();
    let mut i: usize = 0;
    proof {
        assert(Seq::<u8>::empty() + enc_labels(labels(name@)) =~= enc_labels(labels(name@)));
    }
    while i < n
        invariant
            n == name@.len(),
            i <= n,
            out@ + enc_labels(split_acc(name@, i as int, Seq::empty())) == enc_labels(
                labels(name@),
            ),
            labels_valid(labels(name@)) <==> labels_valid(
                split_acc(name@, i as int, Seq::empty()),
            ),
        decreases n - i,
    {
        let e: usize = find_sep(name, i);
        let ll: usize = e - i;
        let ghost lab = name@.subrange(i as int, e as int);
        proof {
            lemma_split_acc_label(name@, i as int, e as int, Seq::empty());
            assert(Seq::<u8>::empty() + lab =~= lab);
            if e < n {
                lemma_enc_labels_cons(lab, split_acc(name@, e as int + 1, Seq::empty()));
                lemma_labels_valid_cons(lab, split_acc(name@, e as int + 1, Seq::empty()));
            } else {
                lemma_enc_labels_single(lab);
            }
        }
        if ll > MAX_LABEL_LEN {
            proof {
                assert(split_acc(name@, i as int, Seq::empty())[0] == lab);
                assert(!labels_valid(split_acc(name@, i as int, Seq::empty())));
            }
            return Err(DnsError::LabelTooLong);
        }
        let ghost out_before = out@;
        if ll > 0 {
            out.push(ll as u8);
            let mut j: usize = i;
            while j < e
                invariant
                    i <= j <= e <= n,
                    n == name@.len(),
                    ll == e - i,
                    out@ == out_before + seq![ll as u8] + name@.subrange(i as int, j as int),
                decreases e - j,
            {
                out.push(name[j]);
                j = j + 1;
                proof {
                    assert(name@.subrange(i as int, j as int) =~= name@.subrange(
                        i as int,
                        j as int - 1,
                    ).push(name@[j as int - 1]));
                    assert(out@ =~= out_before + seq![ll as u8] + name@.subrange(
                        i as int,
                        j as int,
                    ));
                }
            }
            proof {
                assert(out@ =~= out_before + (seq![lab.len() as u8] + lab));
            }
        } else {
            proof {
                assert(out@ =~= out_before + Seq::<u8>::empty());
            }
        }
        proof {
            let enc_lab: Seq<u8> = if lab.len() == 0 {
                Seq::<u8>::empty()
            } else {
                seq![lab.len() as u8] + lab
            };
            assert(out@ == out_before + enc_lab);
            if e < n {
                let rest = split_acc(name@, e as int + 1, Seq::empty());
                assert(out_before + enc_lab + enc_labels(rest) =~= out_before + (enc_lab
                    + enc_labels(rest)));
                assert(out@ + enc_labels(rest) == enc_labels(labels(name@)));
            } else {
                assert(split_acc(name@, n as int, Seq::empty()) =~= seq![Seq::<u8>::empty()]);
                lemma_enc_labels_single(Seq::<u8>::empty());
                assert(out@ + enc_labels(seq![Seq::<u8>::empty()]) =~= out_before + enc_lab);
            }
        }
        i = if e == n {
            n
        } else {
            e + 1
        };
    }
    proof {
        assert(split_acc(name@, i as int, Seq::empty()) =~= seq![Seq::<u8>::empty()]);
        lemma_enc_labels_single(Seq::<u8>::empty());
        assert(out@ + Seq::<u8>::empty() =~= out@);
        assert(out@ == enc_labels(labels(name@)));
        assert(labels_valid(labels(name@)));
    }
    out.push(0);
    proof {
        assert(out@ =~= enc_labels(labels(name@)) + seq![0u8]);
    }
    buf.append(&mut out);
    Ok(())
}

} // verus!
