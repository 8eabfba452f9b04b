use vstd::prelude::*;
use vstd::utf8::encode_utf8;
use vstd::string::StringExecFns;
use hmac::{Hmac, Mac};
use sha2::Sha256;

verus! {

/// The pieces of `s` between the separators, as `str::split(sep)` yields them: one more
/// piece than there are separators, empty pieces included.
pub open spec fn split_on(s: Seq<char>, sep: char) -> Seq<Seq<char>>
    decreases s.len(),
{
    if s.len() == 0 {
        seq![Seq::<char>::empty()]
    } else {
        let init = split_on(s.drop_last(), sep);
        if s.last() == sep {
            init.push(Seq::<char>::empty())
        } else {
            init.update(init.len() - 1, init.last().push(s.last()))
        }
    }
}

pub open spec fn starts_with(s: Seq<char>, prefix: Seq<char>) -> bool {
    prefix.len() <= s.len() && s.take(prefix.len() as int) == prefix
}

pub open spec fn has_no(s: Seq<char>, c: char) -> bool {
    forall|i: int| 0 <= i < s.len() ==> s[i] != c
}

/// The text after `prefix` in the last piece that starts with it; empty if none does.
pub open spec fn last_value(pieces: Seq<Seq<char>>, prefix: Seq<char>) -> Seq<char>
    decreases pieces.len(),
{
    if pieces.len() == 0 {
        Seq::<char>::empty()
    } else if starts_with(pieces.last(), prefix) {
        pieces.last().skip(prefix.len() as int)
    } else {
        last_value(pieces.drop_last(), prefix)
    }
}

pub open spec fn timestamp_key() -> Seq<char> {
    seq!['t', '=']
}

pub open spec fn signature_key() -> Seq<char> {
    seq!['t', 'e', '=']
}

/// The timestamp and the `te` signature of a PayMongo signature header
/// ("t=<timestamp>,te=<signature>,li=<signature>"): the values of the last `t=` and the
/// last `te=` entries among its comma-separated entries, when both are non-empty.
pub open spec fn header_fields(header: Seq<char>) -> Option<(Seq<char>, Seq<char>)> {
    let pieces = split_on(header, ',');
    let t = last_value(pieces, timestamp_key());
    let te = last_value(pieces, signature_key());
    if t.len() == 0 || te.len() == 0 {
        None
    } else {
        Some((t, te))
    }
}

proof fn lemma_split_nonempty(s: Seq<char>, sep: char)
    ensures
        split_on(s, sep).len() >= 1,
    decreases s.len(),
{
    if s.len() > 0 {
        lemma_split_nonempty(s.drop_last(), sep);
    }
}

/// Text without the separator is a single piece.
proof fn lemma_split_single(s: Seq<char>, sep: char)
    requires
        has_no(s, sep),
    ensures
        split_on(s, sep) == seq![s],
    decreases s.len(),
{
    if s.len() > 0 {
        lemma_split_single(s.drop_last(), sep);
        assert(s.drop_last().push(s.last()) =~= s);
        assert(split_on(s, sep) =~= seq![s]);
    } else {
        assert(s =~= Seq::<char>::empty());
    }
}

/// Splitting text joined by a separator splits each side.
proof fn lemma_split_join(a: Seq<char>, b: Seq<char>, sep: char)
    ensures
        split_on(a + seq![sep] + b, sep) == split_on(a, sep) + split_on(b, sep),
    decreases b.len(),
{
    lemma_split_nonempty(a, sep);
    if b.len() == 0 {
        assert((a + seq![sep] + b).drop_last() =~= a);
        assert(split_on(a + seq![sep] + b, sep) =~= split_on(a, sep) + split_on(b, sep));
    } else {
        let c = b.last();
        assert((a + seq![sep] + b).drop_last() =~= a + seq![sep] + b.drop_last());
        lemma_split_join(a, b.drop_last(), sep);
        lemma_split_nonempty(b.drop_last(), sep);
        assert(split_on(a + seq![sep] + b, sep) =~= split_on(a, sep) + split_on(b, sep));
    }
}

proof fn lemma_starts_with_key(v: Seq<char>, key: Seq<char>)
    ensures
        starts_with(key + v, key),
        (key + v).skip(key.len() as int) == v,
{
    assert((key + v).take(key.len() as int) =~= key);
    assert((key + v).skip(key.len() as int) =~= v);
}

/// A signature header laid out as PayMongo sends it.
pub open spec fn signature_header(t: Seq<char>, te: Seq<char>, li: Seq<char>) -> Seq<char> {
    timestamp_key() + t + seq![','] + signature_key() + te + seq![','] + seq!['l', 'i', '='] + li
}

/// A header laid out as PayMongo sends it gives back its timestamp and `te` signature.
pub proof fn law_header_fields_roundtrip(t: Seq<char>, te: Seq<char>, li: Seq<char>)
    requires
        t.len() > 0,
        te.len() > 0,
        has_no(t, ','),
        has_no(te, ','),
        has_no(li, ','),
    ensures
        header_fields(signature_header(t, te, li)) == Some((t, te)),
{
    let a = timestamp_key() + t;
    let b = signature_key() + te;
    let c = seq!['l', 'i', '='] + li;
    assert(has_no(a, ',')) by {
        assert forall|i: int| 0 <= i < a.len() implies a[i] != ',' by {
            if i >= 2 {
                assert(a[i] == t[i - 2]);
            }
        }
    }
    assert(has_no(b, ',')) by {
        assert forall|i: int| 0 <= i < b.len() implies b[i] != ',' by {
            if i >= 3 {
                assert(b[i] == te[i - 3]);
            }
        }
    }
    assert(has_no(c, ',')) by {
        assert forall|i: int| 0 <= i < c.len() implies c[i] != ',' by {
            if i >= 3 {
                assert(c[i] == li[i - 3]);
            }
        }
    }
    lemma_split_single(a, ',');
    lemma_split_single(b, ',');
    lemma_split_single(c, ',');
    lemma_split_join(a, b, ',');
    lemma_split_join(a + seq![','] + b, c, ',');
    let header = signature_header(t, te, li);
    assert(header =~= (a + seq![','] + b) + seq![','] + c);
    let pieces = split_on(header, ',');
    assert(pieces =~= seq![a, b, c]);
    lemma_starts_with_key(t, timestamp_key());
    lemma_starts_with_key(te, signature_key());
    assert(!starts_with(c, timestamp_key())) by {
        assert(c[0] == 'l');
        assert(c.take(2)[0] == 'l');
    }
    assert(!starts_with(c, signature_key())) by {
        assert(c.take(3)[0] == 'l');
    }
    assert(!starts_with(b, timestamp_key())) by {
        assert(b.take(2)[1] == 'e');
    }
    assert(pieces.drop_last() =~= seq![a, b]);
    assert(pieces.drop_last().drop_last() =~= seq![a]);
    let p1 = pieces.drop_last();
    let p2 = p1.drop_last();
    assert(pieces.last() == c);
    assert(p1.last() == b);
    assert(p2.last() == a);
    assert(last_value(p2, timestamp_key()) == t);
    assert(last_value(p1, timestamp_key()) == t);
    assert(last_value(pieces, timestamp_key()) == t);
    assert(last_value(p1, signature_key()) == te);
    assert(last_value(pieces, signature_key()) == te);
}

/// Either no entry starts with the key and the value is empty, or the value is the rest of
/// some entry that starts with the key.
proof fn lemma_last_value_source(ps: Seq<Seq<char>>, key: Seq<char>)
    ensures
        (forall|i: int| 0 <= i < ps.len() ==> !starts_with(#[trigger] ps[i], key))
            ==> last_value(ps, key) == Seq::<char>::empty(),
        (exists|i: int| 0 <= i < ps.len() && starts_with(#[trigger] ps[i], key)) ==> (exists|
            i: int,
        |
            0 <= i < ps.len() && starts_with(#[trigger] ps[i], key) && last_value(ps, key)
                == ps[i].skip(key.len() as int)),
    decreases ps.len(),
{
    if ps.len() > 0 {
        let init = ps.drop_last();
        lemma_last_value_source(init, key);
        let n = ps.len() - 1;
        assert(ps[n] == ps.last());
        if !starts_with(ps.last(), key) {
            assert(forall|i: int| 0 <= i < init.len() ==> init[i] == ps[i]);
            if exists|i: int| 0 <= i < ps.len() && starts_with(#[trigger] ps[i], key) {
                let i = choose|i: int| 0 <= i < ps.len() && starts_with(#[trigger] ps[i], key);
                assert(i < n);
                assert(starts_with(init[i], key));
                let j = choose|j: int|
                    0 <= j < init.len() && starts_with(#[trigger] init[j], key) && last_value(
                        init,
                        key,
                    ) == init[j].skip(key.len() as int);
                assert(starts_with(ps[j], key));
            } else {
                assert forall|i: int| 0 <= i < init.len() implies !starts_with(#[trigger] init[i], key) by {
                    assert(init[i] == ps[i]);
                }
            }
        }
    }
}

/// Every entry of `ps` that starts with `key` is the same entry.
pub open spec fn entries_agree(ps: Seq<Seq<char>>, key: Seq<char>) -> bool {
    forall|i: int, j: int|
        0 <= i < ps.len() && 0 <= j < ps.len() && starts_with(#[trigger] ps[i], key) && starts_with(
            #[trigger] ps[j],
            key,
        ) ==> ps[i] == ps[j]
}

/// The two sequences hold the same entries, in any order and any number of times.
pub open spec fn same_entries(a: Seq<Seq<char>>, b: Seq<Seq<char>>) -> bool {
    forall|e: Seq<char>| a.contains(e) <==> b.contains(e)
}

proof fn lemma_last_value_same_entries(p: Seq<Seq<char>>, q: Seq<Seq<char>>, key: Seq<char>)
    requires
        same_entries(p, q),
        entries_agree(p, key),
    ensures
        last_value(p, key) == last_value(q, key),
{
    lemma_last_value_source(p, key);
    lemma_last_value_source(q, key);
    if exists|j: int| 0 <= j < q.len() && starts_with(#[trigger] q[j], key) {
        let j = choose|j: int|
            0 <= j < q.len() && starts_with(#[trigger] q[j], key) && last_value(q, key) == q[j].skip(
                key.len() as int,
            );
        assert(q.contains(q[j]));
        assert(p.contains(q[j]));
        let k = choose|k: int| 0 <= k < p.len() && p[k] == q[j];
        assert(starts_with(p[k], key));
        let i = choose|i: int|
            0 <= i < p.len() && starts_with(#[trigger] p[i], key) && last_value(p, key) == p[i].skip(
                key.len() as int,
            );
        assert(p[i] == p[k]);
    } else {
        assert forall|i: int| 0 <= i < p.len() implies !starts_with(#[trigger] p[i], key) by {
            if starts_with(p[i], key) {
                assert(p.contains(p[i]));
                assert(q.contains(p[i]));
                let j = choose|j: int| 0 <= j < q.len() && q[j] == p[i];
                assert(starts_with(q[j], key));
            }
        }
    }
}

/// The order of a header's entries does not matter, nor does repeating one: two headers
/// made of the same entries, in which all `t=` entries are one entry and all `te=` entries
/// are one entry, give the same timestamp and signature.
pub proof fn law_header_entry_order_is_irrelevant(h1: Seq<char>, h2: Seq<char>)
    requires
        same_entries(split_on(h1, ','), split_on(h2, ',')),
        entries_agree(split_on(h1, ','), timestamp_key()),
        entries_agree(split_on(h1, ','), signature_key()),
    ensures
        header_fields(h1) == header_fields(h2),
{
    lemma_last_value_same_entries(split_on(h1, ','), split_on(h2, ','), timestamp_key());
    lemma_last_value_same_entries(split_on(h1, ','), split_on(h2, ','), signature_key());
}

/// An extra entry that is neither a timestamp nor a `te` signature, appended to a header,
/// changes neither.
pub proof fn law_header_extra_entry_is_ignored(h: Seq<char>, extra: Seq<char>)
    requires
        has_no(extra, ','),
        !starts_with(extra, timestamp_key()),
        !starts_with(extra, signature_key()),
    ensures
        header_fields(h + seq![','] + extra) == header_fields(h),
{
    lemma_split_join(h, extra, ',');
    lemma_split_single(extra, ',');
    let ps = split_on(h, ',');
    let qs = split_on(h + seq![','] + extra, ',');
    assert(qs == ps + seq![extra]);
    assert(qs.drop_last() =~= ps);
    assert(qs.last() == extra);
}

/// Whether the piece `s[start..end]` begins with the entry key `key`.
fn piece_starts_with(s: &str, start: usize, end: usize, key: &str) -> (b: bool)
    requires
        start <= end <= s@.len(),
        key@.len() <= 3,
    ensures
        b == starts_with(s@.subrange(start as int, end as int), key@),
{
    let ghost piece = s@.subrange(start as int, end as int);
    let k = key.unicode_len();
    if end - start < k {
        return false;
    }
    let mut j: usize = 0;
    while j < k
        invariant
            j <= k,
            k == key@.len(),
            k <= end - start,
            start <= end <= s@.len(),
            piece == s@.subrange(start as int, end as int),
            forall|m: int| 0 <= m < j ==> piece[m] == key@[m],
        decreases k - j,
    {
        if s.get_char(start + j) != key.get_char(j) {
            proof {
                assert(piece.take(k as int)[j as int] != key@[j as int]);
            }
            return false;
        }
        j = j + 1;
    }
    proof {
        assert(piece.take(k as int) =~= key@);
    }
    true
}

/// Splits a PayMongo signature header ("t=<timestamp>,te=<signature>,li=<signature>")
/// into its timestamp and its `te` signature. `None` when either is missing or empty.
pub fn extract_timestamp_and_sig(sig_header: &str) -> (r: Option<(String, String)>)
    ensures
        match r {
            Some((t, te)) => header_fields(sig_header@) == Some((t@, te@)),
            None => header_fields(sig_header@) is None,
        },
{
    let ghost s = sig_header@;
    let n = sig_header.unicode_len();
    let mut seg_start: usize = 0;
    let mut t_start: usize = 0;
    let mut t_end: usize = 0;
    let mut te_start: usize = 0;
    let mut te_end: usize = 0;
    let mut i: usize = 0;
    proof {
        assert(s.take(0) =~= Seq::<char>::empty());
        assert(s.subrange(0, 0) =~= Seq::<char>::empty());
    }
    while i < n
        invariant
            n == s.len(),
            s == sig_header@,
            seg_start <= i <= n,
            t_start <= t_end <= n,
            te_start <= te_end <= n,
            split_on(s.take(i as int), ',').len() >= 1,
            split_on(s.take(i as int), ',').last() == s.subrange(seg_start as int, i as int),
            s.subrange(t_start as int, t_end as int) == last_value(
                split_on(s.take(i as int), ',').drop_last(),
                timestamp_key(),
            ),
            s.subrange(te_start as int, te_end as int) == last_value(
                split_on(s.take(i as int), ',').drop_last(),
                signature_key(),
            ),
        decreases n - i,
    {
        let ghost segs = split_on(s.take(i as int), ',');
        let c = sig_header.get_char(i);
        proof {
            assert(s.take(i + 1).drop_last() =~= s.take(i as int));
            assert(s.take(i + 1).last() == c);
        }
        if c == ',' {
            proof {
                reveal_strlit("t=");
                reveal_strlit("te=");
            }
            if piece_starts_with(sig_header, seg_start, i, "t=") {
                proof {
                    assert(s.subrange(seg_start + 2, i as int) =~= s.subrange(
                        seg_start as int,
                        i as int,
                    ).skip(2));
                    assert("t="@ =~= timestamp_key());
                }
                t_start = seg_start + 2;
                t_end = i;
            } else if piece_starts_with(sig_header, seg_start, i, "te=") {
                proof {
                    assert(s.subrange(seg_start + 3, i as int) =~= s.subrange(
                        seg_start as int,
                        i as int,
                    ).skip(3));
                    assert("te="@ =~= signature_key());
                }
                te_start = seg_start + 3;
                te_end = i;
            }
            proof {
                assert("t="@ =~= timestamp_key());
                assert("te="@ =~= signature_key());
                assert(split_on(s.take(i + 1), ',') == segs.push(Seq::<char>::empty()));
                assert(segs.push(Seq::<char>::empty()).drop_last() =~= segs);
                assert(s.subrange(i + 1, i + 1) =~= Seq::<char>::empty());
            }
            seg_start = i + 1;
        } else {
            proof {
                let next = segs.update(segs.len() - 1, segs.last().push(c));
                assert(split_on(s.take(i + 1), ',') == next);
                assert(next.drop_last() =~= segs.drop_last());
                assert(s.subrange(seg_start as int, i + 1) =~= s.subrange(
                    seg_start as int,
                    i as int,
                ).push(c));
            }
        }
        i = i + 1;
    }
    proof {
        assert(s.take(n as int) =~= s);
        reveal_strlit("t=");
        reveal_strlit("te=");
        assert("t="@ =~= timestamp_key());
        assert("te="@ =~= signature_key());
    }
    if piece_starts_with(sig_header, seg_start, n, "t=") {
        proof {
            assert(s.subrange(seg_start + 2, n as int) =~= s.subrange(seg_start as int, n as int).skip(2));
        }
        t_start = seg_start + 2;
        t_end = n;
    } else if piece_starts_with(sig_header, seg_start, n, "te=") {
        proof {
            assert(s.subrange(seg_start + 3, n as int) =~= s.subrange(seg_start as int, n as int).skip(3));
        }
        te_start = seg_start + 3;
        te_end = n;
    }
    if t_end == t_start || te_end == te_start {
        return None;
    }
    let timestamp = sig_header.substring_char(t_start, t_end).to_owned();
    let te_signature = sig_header.substring_char(te_start, te_end).to_owned();
    Some((timestamp, te_signature))
}

/// The lowercase hexadecimal digit for a value below 16.
pub open spec fn hex_digit(n: int) -> char {
    seq!['0', '1', '2', '3', '4', '5', '6', '7', '8', '9', 'a', 'b', 'c', 'd', 'e', 'f'][n]
}

/// Bytes written as lowercase hexadecimal, two digits per byte, high digit first.
pub open spec fn hex_lower(bytes: Seq<u8>) -> Seq<char>
    decreases bytes.len(),
{
    if bytes.len() == 0 {
        Seq::<char>::empty()
    } else {
        hex_lower(bytes.drop_last()) + seq![
            hex_digit(bytes.last() as int / 16),
            hex_digit(bytes.last() as int % 16),
        ]
    }
}

/// The HMAC-SHA256 tag of `message` under `key`, as the `hmac` and `sha2` crates compute it.
pub uninterp spec fn hmac_sha256(key: Seq<u8>, message: Seq<u8>) -> Seq<u8>;

/// Calls `hex::encode`, which writes each byte as two lowercase hexadecimal digits, high
/// digit first.
#[verifier::external_body]
fn hex_encode(bytes: &[u8]) -> (s: String)
    ensures
        s@ == hex_lower(bytes@),
{
    hex::encode(bytes)
}

/// Computes HMAC-SHA256 with the `hmac` crate (`Hmac::<Sha256>::new_from_slice`, `update`,
/// `finalize`). Claimed of it: the tag is named by `hmac_sha256`, is 32 bytes long, and
/// keying never fails (HMAC accepts keys of every length).
#[verifier::external_body]
fn hmac_sha256_tag(key: &[u8], message: &[u8]) -> (tag: Option<Vec<u8>>)
    ensures
        tag is Some,
        tag matches Some(t) ==> t@ == hmac_sha256(key@, message@) && t@.len() == 32,
{
    let mut mac = match <Hmac<Sha256> as Mac>::new_from_slice(key) {
        Ok(m) => m,
        Err(_) => return None,
    };
    mac.update(message);
    Some(mac.finalize().into_bytes().to_vec())
}

/// What PayMongo signs: the timestamp, a dot, and the raw request body.
pub open spec fn signed_payload(timestamp: Seq<char>, body: Seq<u8>) -> Seq<u8> {
    encode_utf8(timestamp) + seq![46u8] + body
}

/// The `te` signature that a body sent at `timestamp` carries under `secret`.
pub open spec fn expected_signature(body: Seq<u8>, timestamp: Seq<char>, secret: Seq<char>) -> Seq<
    char,
> {
    hex_lower(hmac_sha256(encode_utf8(secret), signed_payload(timestamp, body)))
}

/// The header is well formed and its `te` signature is the one the body carries.
pub open spec fn webhook_signature_valid(body: Seq<u8>, header: Seq<char>, secret: Seq<char>) -> bool {
    match header_fields(header) {
        None => false,
        Some((t, te)) => expected_signature(body, t, secret) == te,
    }
}

fn append_bytes(v: &mut Vec<u8>, bytes: &[u8])
    ensures
        final(v)@ == old(v)@ + bytes@,
{
    let mut j: usize = 0;
    while j < bytes.len()
        invariant
            j <= bytes@.len(),
            v@ == old(v)@ + bytes@.take(j as int),
        decreases bytes@.len() - j,
    {
        v.push(bytes[j]);
        proof {
            assert(bytes@.take(j + 1) =~= bytes@.take(j as int).push(bytes@[j as int]));
        }
        j = j + 1;
    }
    proof {
        assert(bytes@.take(j as int) =~= bytes@);
    }
}

/// Checks the HMAC-SHA256 signature that PayMongo attaches to every webhook request:
/// true exactly when the header holds a timestamp and a `te` signature and the latter is
/// the lowercase hex HMAC of "<timestamp>.<raw body>" under the webhook secret.
pub fn verify_webhook_signature(raw_body: &[u8], sig_header: &str, secret: &str) -> (valid: bool)
    ensures
        valid == webhook_signature_valid(raw_body@, sig_header@, secret@),
{
    let (timestamp, te_signature) = match extract_timestamp_and_sig(sig_header) {
        Some(pair) => pair,
        None => return false,
    };
    let mut signed: Vec<u8> = Vec::new();
    append_bytes(&mut signed, timestamp.as_str().as_bytes());
    signed.push(46u8);
    append_bytes(&mut signed, raw_body);
    proof {
        assert(signed@ =~= signed_payload(timestamp@, raw_body@));
    }
    let tag = match hmac_sha256_tag(secret.as_bytes(), signed.as_slice()) {
        Some(t) => t,
        None => return false,
    };
    signature_matches(tag.as_slice(), &te_signature)
}

/// Whether a header's `te` signature is the lowercase hex writing of the computed tag.
pub fn signature_matches(tag: &[u8], te_signature: &String) -> (matches: bool)
    ensures
        matches == (hex_lower(tag@) == te_signature@),
{
    let computed = hex_encode(tag);
    computed == *te_signature
}

/// Signs a webhook body as PayMongo does, the header's `li` entry left empty:
/// "t=<timestamp>,te=<lowercase hex HMAC-SHA256 of "<timestamp>.<body>" under the
/// secret>,li=". The header it gives passes `verify_webhook_signature` for the same body
/// and secret.
pub fn sign_webhook_request(raw_body: &[u8], timestamp: &str, secret: &str) -> (header: String)
    requires
        timestamp@.len() > 0,
        has_no(timestamp@, ','),
    ensures
        header@ == signature_header(
            timestamp@,
            expected_signature(raw_body@, timestamp@, secret@),
            Seq::<char>::empty(),
        ),
        webhook_signature_valid(raw_body@, header@, secret@),
{
    let mut signed: Vec<u8> = Vec::new();
    append_bytes(&mut signed, timestamp.as_bytes());
    signed.push(46u8);
    append_bytes(&mut signed, raw_body);
    proof {
        assert(signed@ =~= signed_payload(timestamp@, raw_body@));
    }
    let tag = match hmac_sha256_tag(secret.as_bytes(), signed.as_slice()) {
        Some(t) => t,
        None => Vec::new(),
    };
    let te = hex_encode(tag.as_slice());
    let mut header = String::from_str("t=");
    header.append(timestamp);
    header.append(",te=");
    header.append(te.as_str());
    header.append(",li=");
    proof {
        reveal_strlit("t=");
        reveal_strlit(",te=");
        reveal_strlit(",li=");
        assert(header@ =~= signature_header(
            timestamp@,
            expected_signature(raw_body@, timestamp@, secret@),
            Seq::<char>::empty(),
        ));
        assert(has_no(Seq::<char>::empty(), ','));
        law_signed_request_verifies(raw_body@, secret@, timestamp@, Seq::<char>::empty());
    }
    header
}

proof fn lemma_hex_lower_shape(bytes: Seq<u8>)
    ensures
        hex_lower(bytes).len() == 2 * bytes.len(),
        has_no(hex_lower(bytes), ','),
    decreases bytes.len(),
{
    if bytes.len() > 0 {
        lemma_hex_lower_shape(bytes.drop_last());
        let h = hex_lower(bytes);
        let digits = seq!['0', '1', '2', '3', '4', '5', '6', '7', '8', '9', 'a', 'b', 'c', 'd', 'e', 'f'];
        assert forall|i: int| 0 <= i < h.len() implies h[i] != ',' by {
            if i >= h.len() - 2 {
                let v = if i == h.len() - 2 { bytes.last() as int / 16 } else { bytes.last() as int % 16 };
                assert(0 <= v < 16);
                assert(h[i] == digits[v]);
            } else {
                assert(h[i] == hex_lower(bytes.drop_last())[i]);
            }
        }
    }
}

/// A request signed as PayMongo signs it verifies: the header carrying the body's own
/// signature passes `verify_webhook_signature`.
pub proof fn law_signed_request_verifies(
    body: Seq<u8>,
    secret: Seq<char>,
    t: Seq<char>,
    li: Seq<char>,
)
    requires
        t.len() > 0,
        has_no(t, ','),
        has_no(li, ','),
        hmac_sha256(encode_utf8(secret), signed_payload(t, body)).len() > 0,
    ensures
        webhook_signature_valid(
            body,
            signature_header(t, expected_signature(body, t, secret), li),
            secret,
        ),
{
    let te = expected_signature(body, t, secret);
    lemma_hex_lower_shape(hmac_sha256(encode_utf8(secret), signed_payload(t, body)));
    law_header_fields_roundtrip(t, te, li);
}

} // verus!
