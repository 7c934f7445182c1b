//! Canonical byte encoding of the composition data.
//!
//! The cross-statement constraints travel between prover and verifier, so
//! they get a canonical, deterministic encoding: every count and index as
//! eight little-endian bytes, constraints in order, references in order.
//! Decoding is proven to invert encoding exactly, so re-serialization and
//! re-deserialization round-trip.

use vstd::prelude::*;
use crate::meta_statement::{EqualWitnesses, MetaStatement, MetaStatements};

verus! {

/// The eight little-endian bytes of a count or index.
pub open spec fn u64_le_bytes(x: u64) -> Seq<u8> {
    seq![
        x as u8,
        (x >> 8) as u8,
        (x >> 16) as u8,
        (x >> 24) as u8,
        (x >> 32) as u8,
        (x >> 40) as u8,
        (x >> 48) as u8,
        (x >> 56) as u8,
    ]
}

/// The value eight little-endian bytes denote.
pub open spec fn u64_from_le(s: Seq<u8>) -> u64 {
    (s[0] as u64) | ((s[1] as u64) << 8) | ((s[2] as u64) << 16) | ((s[3] as u64) << 24) | ((
    s[4] as u64) << 32) | ((s[5] as u64) << 40) | ((s[6] as u64) << 48) | ((s[7] as u64) << 56)
}

proof fn lemma_u64_le_round_trip(x: u64)
    ensures
        u64_from_le(u64_le_bytes(x)) == x,
{
    assert(((x as u8) as u64) | ((((x >> 8) as u8) as u64) << 8) | ((((x >> 16) as u8) as u64)
        << 16) | ((((x >> 24) as u8) as u64) << 24) | ((((x >> 32) as u8) as u64) << 32) | ((((x
        >> 40) as u8) as u64) << 40) | ((((x >> 48) as u8) as u64) << 48) | ((((x >> 56) as u8)
        as u64) << 56) == x) by (bit_vector);
}

/// The references of each constraint, as plain index pairs: the view the
/// codec speaks about.
pub open spec fn meta_views(m: MetaStatements) -> Seq<Seq<(usize, usize)>> {
    m.0@.map_values(
        |ms: MetaStatement|
            match ms {
                MetaStatement::WitnessEquality(e) => e.0@,
            },
    )
}

/// The encoding of one constraint's references, in order.
pub open spec fn refs_bytes(refs: Seq<(usize, usize)>) -> Seq<u8>
    decreases refs.len(),
{
    if refs.len() == 0 {
        seq![]
    } else {
        u64_le_bytes(refs[0].0 as u64) + u64_le_bytes(refs[0].1 as u64) + refs_bytes(
            refs.drop_first(),
        )
    }
}

/// The encoding of the constraints, each its reference count then its
/// references.
pub open spec fn constraints_bytes(vs: Seq<Seq<(usize, usize)>>) -> Seq<u8>
    decreases vs.len(),
{
    if vs.len() == 0 {
        seq![]
    } else {
        u64_le_bytes(vs[0].len() as u64) + refs_bytes(vs[0]) + constraints_bytes(vs.drop_first())
    }
}

/// The canonical encoding: the constraint count, then the constraints.
pub open spec fn meta_bytes(vs: Seq<Seq<(usize, usize)>>) -> Seq<u8> {
    u64_le_bytes(vs.len() as u64) + constraints_bytes(vs)
}

/// Decodes `n` references, returning them with the remaining bytes.
pub open spec fn decode_refs(s: Seq<u8>, n: nat) -> Option<(Seq<(usize, usize)>, Seq<u8>)>
    decreases n,
{
    if n == 0 {
        Some((seq![], s))
    } else if s.len() < 16 {
        None
    } else {
        let sv = u64_from_le(s.subrange(0, 8));
        let wv = u64_from_le(s.subrange(8, 16));
        if sv as int > usize::MAX as int || wv as int > usize::MAX as int {
            None
        } else {
            match decode_refs(s.skip(16), (n - 1) as nat) {
                Some((tail, rest)) => Some((seq![(sv as usize, wv as usize)] + tail, rest)),
                None => None,
            }
        }
    }
}

/// Decodes `n` constraints, returning their views with the remaining bytes.
pub open spec fn decode_constraints(s: Seq<u8>, n: nat) -> Option<
    (Seq<Seq<(usize, usize)>>, Seq<u8>),
>
    decreases n,
{
    if n == 0 {
        Some((seq![], s))
    } else if s.len() < 8 {
        None
    } else {
        let cnt = u64_from_le(s.subrange(0, 8));
        if cnt as int > usize::MAX as int {
            None
        } else {
            match decode_refs(s.skip(8), cnt as nat) {
                Some((refs, rest)) => match decode_constraints(rest, (n - 1) as nat) {
                    Some((tail, rest2)) => Some((seq![refs] + tail, rest2)),
                    None => None,
                },
                None => None,
            }
        }
    }
}

/// Decodes a whole buffer; trailing bytes are an error.
pub open spec fn decode_meta(s: Seq<u8>) -> Option<Seq<Seq<(usize, usize)>>> {
    if s.len() < 8 {
        None
    } else {
        let cnt = u64_from_le(s.subrange(0, 8));
        if cnt as int > usize::MAX as int {
            None
        } else {
            match decode_constraints(s.skip(8), cnt as nat) {
                Some((vs, rest)) => if rest.len() == 0 {
                    Some(vs)
                } else {
                    None
                },
                None => None,
            }
        }
    }
}

proof fn lemma_decode_refs_inverts(refs: Seq<(usize, usize)>, rest: Seq<u8>)
    ensures
        decode_refs(refs_bytes(refs) + rest, refs.len() as nat) == Some((refs, rest)),
    decreases refs.len(),
{
    if refs.len() == 0 {
        assert(refs_bytes(refs) + rest =~= rest);
        assert(decode_refs(rest, 0) == Some((Seq::<(usize, usize)>::empty(), rest)));
        assert(refs =~= Seq::<(usize, usize)>::empty());
    } else {
        let s = refs_bytes(refs) + rest;
        let a = refs[0].0 as u64;
        let b = refs[0].1 as u64;
        assert(s =~= u64_le_bytes(a) + u64_le_bytes(b) + refs_bytes(refs.drop_first()) + rest);
        assert(s.subrange(0, 8) =~= u64_le_bytes(a));
        assert(s.subrange(8, 16) =~= u64_le_bytes(b));
        lemma_u64_le_round_trip(a);
        lemma_u64_le_round_trip(b);
        assert(s.skip(16) =~= refs_bytes(refs.drop_first()) + rest);
        lemma_decode_refs_inverts(refs.drop_first(), rest);
        assert(seq![(refs[0].0, refs[0].1)] + refs.drop_first() =~= refs);
    }
}

proof fn lemma_decode_constraints_inverts(vs: Seq<Seq<(usize, usize)>>, rest: Seq<u8>)
    requires
        forall|k: int| 0 <= k < vs.len() ==> (#[trigger] vs[k]).len() <= usize::MAX,
    ensures
        decode_constraints(constraints_bytes(vs) + rest, vs.len() as nat) == Some((vs, rest)),
    decreases vs.len(),
{
    if vs.len() == 0 {
        assert(constraints_bytes(vs) + rest =~= rest);
        assert(vs =~= Seq::<Seq<(usize, usize)>>::empty());
    } else {
        let s = constraints_bytes(vs) + rest;
        let cnt = vs[0].len() as u64;
        assert(s =~= u64_le_bytes(cnt) + (refs_bytes(vs[0]) + (constraints_bytes(vs.drop_first())
            + rest)));
        assert(s.subrange(0, 8) =~= u64_le_bytes(cnt));
        lemma_u64_le_round_trip(cnt);
        assert(s.skip(8) =~= refs_bytes(vs[0]) + (constraints_bytes(vs.drop_first()) + rest));
        lemma_decode_refs_inverts(vs[0], constraints_bytes(vs.drop_first()) + rest);
        assert(forall|k: int|
            0 <= k < vs.drop_first().len() ==> (#[trigger] vs.drop_first()[k]).len()
                <= usize::MAX);
        lemma_decode_constraints_inverts(vs.drop_first(), rest);
        assert(seq![vs[0]] + vs.drop_first() =~= vs);
    }
}

/// Decoding inverts encoding: the canonical bytes of any constraint views
/// decode back to exactly those views, with nothing left over. With the
/// contracts of [`serialize_meta_statements`] and
/// [`deserialize_meta_statements`], deserializing a serialized value yields
/// a value with the same constraints in the same order.
pub proof fn lemma_meta_codec_round_trip(vs: Seq<Seq<(usize, usize)>>)
    requires
        vs.len() <= usize::MAX,
        forall|k: int| 0 <= k < vs.len() ==> (#[trigger] vs[k]).len() <= usize::MAX,
    ensures
        decode_meta(meta_bytes(vs)) == Some(vs),
{
    let s = meta_bytes(vs);
    let cnt = vs.len() as u64;
    assert(s.subrange(0, 8) =~= u64_le_bytes(cnt));
    lemma_u64_le_round_trip(cnt);
    assert(s.skip(8) =~= constraints_bytes(vs) + Seq::<u8>::empty());
    lemma_decode_constraints_inverts(vs, Seq::<u8>::empty());
}

/// Appends the eight little-endian bytes of `x`.
fn push_u64(w: &mut Vec<u8>, x: u64)
    ensures
        final(w)@ == old(w)@ + u64_le_bytes(x),
{
    w.push(x as u8);
    w.push((x >> 8) as u8);
    w.push((x >> 16) as u8);
    w.push((x >> 24) as u8);
    w.push((x >> 32) as u8);
    w.push((x >> 40) as u8);
    w.push((x >> 48) as u8);
    w.push((x >> 56) as u8);
    assert(w@ =~= old(w)@ + u64_le_bytes(x));
}

/// Reads the eight little-endian bytes at `pos`.
fn read_u64(bytes: &Vec<u8>, pos: usize) -> (r: u64)
    requires
        pos + 8 <= bytes@.len(),
    ensures
        r == u64_from_le(bytes@.subrange(pos as int, pos as int + 8)),
{
    let len = bytes.len();
    assert(pos + 8 <= len);
    let r = (bytes[pos] as u64) | ((bytes[pos + 1] as u64) << 8) | ((bytes[pos + 2] as u64) << 16)
        | ((bytes[pos + 3] as u64) << 24) | ((bytes[pos + 4] as u64) << 32) | ((bytes[pos
        + 5] as u64) << 40) | ((bytes[pos + 6] as u64) << 48) | ((bytes[pos + 7] as u64) << 56);
    assert(bytes@.subrange(pos as int, pos as int + 8)[0] == bytes@[pos as int]);
    r
}

/// Serializes the constraints into their canonical bytes.
pub fn serialize_meta_statements(m: &MetaStatements) -> (r: Vec<u8>)
    ensures
        r@ == meta_bytes(meta_views(*m)),
{
    let ghost views = meta_views(*m);
    let mut out: Vec<u8> = Vec::new();
    push_u64(&mut out, m.0.len() as u64);
    proof {
        assert(views.skip(0) =~= views);
        assert(out@ =~= u64_le_bytes(views.len() as u64));
        assert(out@ + constraints_bytes(views) =~= meta_bytes(views));
    }
    let mut c: usize = 0;
    while c < m.0.len()
        invariant
            0 <= c <= m.0@.len(),
            views == meta_views(*m),
            views.len() == m.0@.len(),
            out@ + constraints_bytes(views.skip(c as int)) == meta_bytes(views),
        decreases m.0@.len() - c,
    {
        let ghost pre = out@;
        let refs: &Vec<(usize, usize)> = match &m.0[c] {
            MetaStatement::WitnessEquality(e) => &e.0,
        };
        assert(refs@ == views[c as int]);
        push_u64(&mut out, refs.len() as u64);
        proof {
            assert(refs@.skip(0) =~= refs@);
            assert(out@ + refs_bytes(refs@) =~= pre + u64_le_bytes(refs@.len() as u64)
                + refs_bytes(refs@));
        }
        let mut k: usize = 0;
        while k < refs.len()
            invariant
                0 <= k <= refs@.len(),
                out@ + refs_bytes(refs@.skip(k as int)) == pre + u64_le_bytes(refs@.len() as u64)
                    + refs_bytes(refs@),
            decreases refs@.len() - k,
        {
            let ghost mid = out@;
            let (a, b) = refs[k];
            push_u64(&mut out, a as u64);
            push_u64(&mut out, b as u64);
            proof {
                assert(refs@.skip(k as int)[0] == refs@[k as int]);
                assert(refs@.skip(k as int).drop_first() =~= refs@.skip(k as int + 1));
                assert(refs_bytes(refs@.skip(k as int)) == u64_le_bytes(a as u64) + u64_le_bytes(
                    b as u64,
                ) + refs_bytes(refs@.skip(k as int + 1)));
                assert(out@ + refs_bytes(refs@.skip(k as int + 1)) =~= mid + refs_bytes(
                    refs@.skip(k as int),
                ));
            }
            k = k + 1;
        }
        proof {
            assert(refs@.skip(refs@.len() as int) =~= Seq::<(usize, usize)>::empty());
            assert(out@ =~= pre + u64_le_bytes(refs@.len() as u64) + refs_bytes(refs@));
            assert(views.skip(c as int)[0] == views[c as int]);
            assert(views.skip(c as int).drop_first() =~= views.skip(c as int + 1));
            assert(constraints_bytes(views.skip(c as int)) == u64_le_bytes(
                views[c as int].len() as u64,
            ) + refs_bytes(views[c as int]) + constraints_bytes(views.skip(c as int + 1)));
            assert(out@ + constraints_bytes(views.skip(c as int + 1)) =~= pre + constraints_bytes(
                views.skip(c as int),
            ));
        }
        c = c + 1;
    }
    proof {
        assert(views.skip(views.len() as int) =~= Seq::<Seq<(usize, usize)>>::empty());
        assert(out@ =~= meta_bytes(views));
    }
    out
}

/// Deserializes canonical bytes back into constraints; exactly the buffers
/// that are a canonical encoding are accepted.
pub fn deserialize_meta_statements(bytes: &Vec<u8>) -> (r: Option<MetaStatements>)
    ensures
        r matches Some(m) ==> decode_meta(bytes@) == Some(meta_views(m)),
        r is None ==> decode_meta(bytes@) is None,
{
    if bytes.len() < 8 {
        return None;
    }
    let cnt64 = read_u64(bytes, 0);
    if cnt64 > usize::MAX as u64 {
        return None;
    }
    let cnt = cnt64 as usize;
    let ghost top = bytes@.skip(8);
    let mut pos: usize = 8;
    let mut out: Vec<MetaStatement> = Vec::new();
    let mut c: usize = 0;
    while c < cnt
        invariant
            0 <= c <= cnt,
            8 <= pos <= bytes@.len(),
            top == bytes@.skip(8),
            cnt64 == u64_from_le(bytes@.subrange(0, 8)),
            cnt64 <= usize::MAX,
            cnt == cnt64 as usize,
            bytes@.len() >= 8,
            out@.len() == c,
            decode_constraints(top, cnt as nat) == (match decode_constraints(
                bytes@.skip(pos as int),
                (cnt - c) as nat,
            ) {
                Some((tail, rest)) => Some((meta_views(MetaStatements(out)) + tail, rest)),
                None => None,
            }),
        decreases cnt - c,
    {
        let ghost pos0 = pos as int;
        let ghost views0 = meta_views(MetaStatements(out));
        if bytes.len() - pos < 8 {
            proof {
                assert(bytes@.skip(pos0).len() < 8);
                assert(decode_constraints(bytes@.skip(pos0), (cnt - c) as nat) is None);
                assert(decode_constraints(top, cnt as nat) is None);
                assert(decode_meta(bytes@) is None);
            }
            return None;
        }
        let rcnt64 = read_u64(bytes, pos);
        proof {
            assert(bytes@.skip(pos0).subrange(0, 8) =~= bytes@.subrange(pos0, pos0 + 8));
        }
        if rcnt64 > usize::MAX as u64 {
            proof {
                assert(decode_constraints(bytes@.skip(pos0), (cnt - c) as nat) is None);
                assert(decode_constraints(top, cnt as nat) is None);
                assert(decode_meta(bytes@) is None);
            }
            return None;
        }
        let rcnt = rcnt64 as usize;
        pos = pos + 8;
        proof {
            assert(bytes@.skip(pos0).skip(8) =~= bytes@.skip(pos0 + 8));
        }
        let mut refs: Vec<(usize, usize)> = Vec::new();
        let mut k: usize = 0;
        while k < rcnt
            invariant
                0 <= k <= rcnt,
                8 <= pos0 + 8 <= pos <= bytes@.len(),
                0 <= c < cnt,
                refs@.len() == k,
                rcnt64 <= usize::MAX,
                rcnt == rcnt64 as usize,
                top == bytes@.skip(8),
                cnt64 == u64_from_le(bytes@.subrange(0, 8)),
                cnt64 <= usize::MAX,
                cnt == cnt64 as usize,
                bytes@.len() >= 8,
                out@.len() == c,
                views0 == meta_views(MetaStatements(out)),
                bytes@.skip(pos0).len() >= 8,
                rcnt64 == u64_from_le(bytes@.skip(pos0).subrange(0, 8)),
                bytes@.skip(pos0).skip(8) == bytes@.skip(pos0 + 8),
                decode_constraints(top, cnt as nat) == (match decode_constraints(
                    bytes@.skip(pos0),
                    (cnt - c) as nat,
                ) {
                    Some((tail, rest)) => Some((views0 + tail, rest)),
                    None => None,
                }),
                decode_refs(bytes@.skip(pos0 + 8), rcnt as nat) == (match decode_refs(
                    bytes@.skip(pos as int),
                    (rcnt - k) as nat,
                ) {
                    Some((tail, rest)) => Some((refs@ + tail, rest)),
                    None => None,
                }),
            decreases rcnt - k,
        {
            if bytes.len() - pos < 16 {
                proof {
                    assert(bytes@.skip(pos as int).len() < 16);
                    assert(decode_refs(bytes@.skip(pos as int), (rcnt - k) as nat) is None);
                    assert(decode_refs(bytes@.skip(pos0 + 8), rcnt as nat) is None);
                    assert(decode_constraints(bytes@.skip(pos0), (cnt - c) as nat) is None);
                    assert(decode_constraints(top, cnt as nat) is None);
                    assert(decode_meta(bytes@) is None);
                }
                return None;
            }
            let sv = read_u64(bytes, pos);
            let wv = read_u64(bytes, pos + 8);
            proof {
                assert(bytes@.skip(pos as int).subrange(0, 8) =~= bytes@.subrange(
                    pos as int,
                    pos as int + 8,
                ));
                assert(bytes@.skip(pos as int).subrange(8, 16) =~= bytes@.subrange(
                    pos as int + 8,
                    pos as int + 16,
                ));
                assert(bytes@.skip(pos as int).skip(16) =~= bytes@.skip(pos as int + 16));
            }
            if sv > usize::MAX as u64 || wv > usize::MAX as u64 {
                proof {
                    assert(decode_refs(bytes@.skip(pos as int), (rcnt - k) as nat) is None);
                    assert(decode_refs(bytes@.skip(pos0 + 8), rcnt as nat) is None);
                    assert(decode_constraints(bytes@.skip(pos0), (cnt - c) as nat) is None);
                    assert(decode_constraints(top, cnt as nat) is None);
                    assert(decode_meta(bytes@) is None);
                }
                return None;
            }
            let ghost refs_pre = refs@;
            let ghost pos_pre = pos as int;
            refs.push((sv as usize, wv as usize));
            pos = pos + 16;
            proof {
                assert forall|t: Seq<(usize, usize)>|
                    refs_pre + (seq![(sv as usize, wv as usize)] + t) =~= refs@ + t by {
                    assert(refs@ =~= refs_pre + seq![(sv as usize, wv as usize)]);
                }
                assert(decode_refs(bytes@.skip(pos_pre), (rcnt - k) as nat) == (
                match decode_refs(bytes@.skip(pos as int), (rcnt - k - 1) as nat) {
                    Some((tail, rest)) => Some((seq![(sv as usize, wv as usize)] + tail, rest)),
                    None => None,
                }));
            }
            k = k + 1;
        }
        proof {
            assert(decode_refs(bytes@.skip(pos as int), 0) == Some(
                (Seq::<(usize, usize)>::empty(), bytes@.skip(pos as int)),
            ));
            assert(refs@ + Seq::<(usize, usize)>::empty() =~= refs@);
            assert(decode_refs(bytes@.skip(pos0 + 8), rcnt as nat) == Some(
                (refs@, bytes@.skip(pos as int)),
            ));
        }
        let ghost refs_view = refs@;
        out.push(MetaStatement::WitnessEquality(EqualWitnesses(refs)));
        proof {
            assert(meta_views(MetaStatements(out)) =~= views0 + seq![refs_view]);
            assert(decode_constraints(bytes@.skip(pos0), (cnt - c) as nat) == (
            match decode_constraints(bytes@.skip(pos as int), (cnt - c - 1) as nat) {
                Some((tail, rest)) => Some((seq![refs_view] + tail, rest)),
                None => None,
            }));
            assert forall|t: Seq<Seq<(usize, usize)>>|
                views0 + (seq![refs_view] + t) =~= meta_views(MetaStatements(out)) + t by {}
        }
        c = c + 1;
    }
    proof {
        assert(decode_constraints(bytes@.skip(pos as int), 0) == Some(
            (Seq::<Seq<(usize, usize)>>::empty(), bytes@.skip(pos as int)),
        ));
        assert(meta_views(MetaStatements(out)) + Seq::<Seq<(usize, usize)>>::empty()
            =~= meta_views(MetaStatements(out)));
        assert(decode_constraints(top, cnt as nat) == Some(
            (meta_views(MetaStatements(out)), bytes@.skip(pos as int)),
        ));
    }
    if pos != bytes.len() {
        proof {
            assert(bytes@.skip(pos as int).len() != 0);
            assert(decode_meta(bytes@) is None);
        }
        return None;
    }
    proof {
        assert(bytes@.skip(pos as int).len() == 0);
        assert(decode_meta(bytes@) == Some(meta_views(MetaStatements(out))));
    }
    Some(MetaStatements(out))
}

} // verus!
