//! The part of a request path that access rights are granted on.
use vstd::prelude::*;
use vstd::utf8::encode_utf8;
use vstd::utf8::encode_scalar;
use crate::text::{
    chars_of, char_pred, push_char, push_chars, split_char, split_chars, string_from_chars,
    trim_by, trim_char, lemma_split_nonempty, lacks,
};

verus! {

/// The key of a request path: a path of one byte stays as it is; otherwise the
/// path is stripped of `/` at both ends, cut at `/`, and only its first two
/// segments are kept (a third one, such as a page number, is dropped).
pub open spec fn full_path_key(p: Seq<char>) -> Seq<char> {
    if encode_utf8(p).len() == 1 {
        p
    } else {
        let segs = split_char(trim_by(p, char_pred('/')), '/');
        if segs.len() < 2 {
            segs[0]
        } else {
            segs[0] + seq!['/'] + segs[1]
        }
    }
}

/// Reduces a request path to the key that rights are looked up by
/// (see `full_path_key`).
pub fn check_full_path(full_path: String) -> (r: String)
    ensures
        r@ == full_path_key(full_path@),
{
    if full_path.as_str().as_bytes().len() == 1 {
        return full_path;
    }
    let cs = chars_of(full_path.as_str());
    let trimmed = trim_char(cs.as_slice(), '/');
    let segs = split_chars(trimmed.as_slice(), '/');
    proof {
        lemma_split_nonempty(trimmed@, '/');
    }
    if segs.len() < 2 {
        return string_from_chars(segs[0].as_slice());
    }
    let mut r = string_from_chars(segs[0].as_slice());
    push_char(&mut r, '/');
    push_chars(&mut r, segs[1].as_slice());
    r
}


proof fn lemma_utf8_len_at_least(s: Seq<char>)
    ensures
        encode_utf8(s).len() >= s.len(),
    decreases s.len(),
{
    if s.len() > 0 {
        lemma_utf8_len_at_least(s.drop_first());
        assert(encode_scalar(s[0] as u32).len() >= 1);
    }
}

proof fn lemma_split_pieces_lack_sep(s: Seq<char>, sep: char)
    ensures
        forall|k: int| 0 <= k < split_char(s, sep).len() ==> lacks(#[trigger] split_char(s, sep)[k], sep),
    decreases s.len(),
{
    lemma_split_nonempty(s, sep);
    if s.len() > 0 {
        let t = s.drop_first();
        lemma_split_pieces_lack_sep(t, sep);
        lemma_split_nonempty(t, sep);
        let rest = split_char(t, sep);
        if s[0] == sep {
            assert forall|k: int| 0 <= k < split_char(s, sep).len() implies lacks(#[trigger] split_char(s, sep)[k], sep) by {
                if k > 0 {
                    assert(split_char(s, sep)[k] == rest[k - 1]);
                }
            }
        } else {
            assert forall|k: int| 0 <= k < split_char(s, sep).len() implies lacks(#[trigger] split_char(s, sep)[k], sep) by {
                if k == 0 {
                    let piece = seq![s[0]] + rest[0];
                    assert(lacks(rest[0], sep));
                    assert forall|i: int| 0 <= i < piece.len() implies piece[i] != sep by {
                        if i > 0 {
                            assert(piece[i] == rest[0][i - 1]);
                        }
                    }
                } else {
                    assert(split_char(s, sep)[k] == rest[k]);
                }
            }
        }
    }
}

/// A key never holds two `/`: it names at most two segments.
pub proof fn lemma_key_at_most_one_slash(p: Seq<char>)
    ensures
        forall|i: int, j: int|
            0 <= i < j < full_path_key(p).len() ==> !(full_path_key(p)[i] == '/' && full_path_key(p)[j]
                == '/'),
{
    let key = full_path_key(p);
    if encode_utf8(p).len() == 1 {
        lemma_utf8_len_at_least(p);
        assert(key.len() <= 1);
    } else {
        let t = trim_by(p, char_pred('/'));
        lemma_split_nonempty(t, '/');
        lemma_split_pieces_lack_sep(t, '/');
        let segs = split_char(t, '/');
        assert(lacks(segs[0], '/'));
        if segs.len() >= 2 {
            assert(lacks(segs[1], '/'));
            let n0 = segs[0].len() as int;
            assert forall|i: int, j: int| 0 <= i < j < key.len() implies !(key[i] == '/' && key[j] == '/') by {
                if i < n0 {
                    assert(key[i] == segs[0][i]);
                } else if i > n0 {
                    assert(key[i] == segs[1][i - n0 - 1]);
                } else {
                    assert(j > n0);
                    assert(key[j] == segs[1][j - n0 - 1]);
                }
            }
        }
    }
}

proof fn lemma_trim_end_append(m: Seq<char>, tail: Seq<char>, pr: spec_fn(char) -> bool)
    requires
        m.len() > 0,
        !pr(m.last()),
    ensures
        crate::text::trim_end_by(m + tail, pr) == m + crate::text::trim_end_by(tail, pr),
    decreases tail.len(),
{
    if tail.len() == 0 {
        assert(m + tail =~= m);
        assert(m + Seq::<char>::empty() =~= m);
    } else if pr(tail.last()) {
        assert((m + tail).drop_last() =~= m + tail.drop_last());
        lemma_trim_end_append(m, tail.drop_last(), pr);
    } else {
        assert((m + tail).last() == tail.last());
    }
}

proof fn lemma_trim_end_prefix(s: Seq<char>, pr: spec_fn(char) -> bool)
    ensures
        crate::text::trim_end_by(s, pr).len() <= s.len(),
        forall|i: int| 0 <= i < crate::text::trim_end_by(s, pr).len() ==> crate::text::trim_end_by(s, pr)[i] == s[i],
    decreases s.len(),
{
    if s.len() > 0 && pr(s.last()) {
        let t = s.drop_last();
        lemma_trim_end_prefix(t, pr);
        assert forall|i: int| 0 <= i < crate::text::trim_end_by(s, pr).len() implies crate::text::trim_end_by(s, pr)[i] == s[i] by {
            assert(crate::text::trim_end_by(s, pr)[i] == t[i]);
        }
    }
}

/// Whatever follows the second segment (a page number, say) does not change
/// the key: `/a/b/...` and `/a/b` give `a/b` for segments without `/`.
pub proof fn lemma_key_drops_suffix(a: Seq<char>, b: Seq<char>, tail: Seq<char>)
    requires
        a.len() > 0,
        b.len() > 0,
        lacks(a, '/'),
        lacks(b, '/'),
        tail.len() == 0 || tail[0] == '/',
    ensures
        full_path_key(seq!['/'] + a + seq!['/'] + b + tail) == a + seq!['/'] + b,
{
    let pr = char_pred('/');
    let p = seq!['/'] + a + seq!['/'] + b + tail;
    let m = a + seq!['/'] + b;
    lemma_utf8_len_at_least(p);
    assert(p.drop_first() =~= m + tail);
    assert(pr(p[0]));
    assert((m + tail)[0] == a[0]);
    assert(!pr((m + tail)[0]));
    assert(crate::text::trim_start_by(m + tail, pr) == m + tail);
    assert(crate::text::trim_start_by(p, pr) == crate::text::trim_start_by(p.drop_first(), pr));
    assert(crate::text::trim_start_by(p, pr) == m + tail);
    assert(m.last() == b.last());
    assert(!pr(m.last()));
    lemma_trim_end_append(m, tail, pr);
    let te = crate::text::trim_end_by(tail, pr);
    lemma_trim_end_prefix(tail, pr);
    assert(trim_by(p, pr) == m + te);
    assert(m + te =~= a + (seq!['/'] + (b + te)));
    crate::text::lemma_split_after_plain(a, seq!['/'] + (b + te), '/');
    let z = seq!['/'] + (b + te);
    assert(z.drop_first() =~= b + te);
    lemma_split_nonempty(b + te, '/');
    assert(split_char(z, '/') =~= seq![Seq::<char>::empty()] + split_char(b + te, '/'));
    crate::text::lemma_split_after_plain(b, te, '/');
    lemma_split_nonempty(te, '/');
    if te.len() == 0 {
        assert(split_char(te, '/')[0] =~= Seq::<char>::empty());
    } else {
        assert(te[0] == '/');
        assert(split_char(te, '/')[0] =~= Seq::<char>::empty());
    }
    let segs = split_char(trim_by(p, pr), '/');
    assert(segs[0] =~= a) by {
        assert(a + Seq::<char>::empty() =~= a);
    }
    assert(segs[1] =~= b) by {
        assert(b + Seq::<char>::empty() =~= b);
    }
}


/// No two `/` follow each other.
pub open spec fn no_double_slash(s: Seq<char>) -> bool {
    forall|i: int| 0 <= i < s.len() - 1 ==> !(#[trigger] s[i] == '/' && s[i + 1] == '/')
}

proof fn lemma_no_double_slash_sub(s: Seq<char>, a: int, b: int)
    requires
        no_double_slash(s),
        0 <= a <= b <= s.len(),
    ensures
        no_double_slash(s.subrange(a, b)),
{
    let t = s.subrange(a, b);
    assert forall|i: int| 0 <= i < t.len() - 1 implies !(#[trigger] t[i] == '/' && t[i + 1] == '/') by {
        assert(t[i] == s[i + a]);
        assert(t[i + 1] == s[i + 1 + a]);
    }
}

proof fn lemma_trim_start_shape(s: Seq<char>, pr: spec_fn(char) -> bool)
    ensures
        crate::text::trim_start_by(s, pr).len() == 0 || !pr(crate::text::trim_start_by(s, pr)[0]),
        exists|a: int| 0 <= a <= s.len() && crate::text::trim_start_by(s, pr) == s.subrange(a, s.len() as int),
    decreases s.len(),
{
    if s.len() > 0 && pr(s[0]) {
        let t = s.drop_first();
        lemma_trim_start_shape(t, pr);
        let a = choose|a: int| 0 <= a <= t.len() && crate::text::trim_start_by(t, pr) == t.subrange(a, t.len() as int);
        assert(t.subrange(a, t.len() as int) =~= s.subrange(a + 1, s.len() as int));
    } else {
        assert(s.subrange(0, s.len() as int) =~= s);
    }
}

proof fn lemma_trim_end_shape(s: Seq<char>, pr: spec_fn(char) -> bool)
    ensures
        crate::text::trim_end_by(s, pr).len() == 0 || !pr(crate::text::trim_end_by(s, pr).last()),
        crate::text::trim_end_by(s, pr) == s.subrange(0, crate::text::trim_end_by(s, pr).len() as int),
    decreases s.len(),
{
    lemma_trim_end_prefix(s, pr);
    assert(crate::text::trim_end_by(s, pr) =~= s.subrange(0, crate::text::trim_end_by(s, pr).len() as int));
    if s.len() > 0 && pr(s.last()) {
        lemma_trim_end_shape(s.drop_last(), pr);
    }
}

proof fn lemma_trim_unchanged(s: Seq<char>, pr: spec_fn(char) -> bool)
    requires
        s.len() == 0 || (!pr(s[0]) && !pr(s.last())),
    ensures
        trim_by(s, pr) == s,
{
}

proof fn lemma_split_pieces_nonempty(s: Seq<char>)
    requires
        no_double_slash(s),
        s.len() == 0 || s.last() != '/',
    ensures
        forall|k: int| 1 <= k < split_char(s, '/').len() ==> (#[trigger] split_char(s, '/')[k]).len() > 0,
        s.len() > 0 && s[0] != '/' ==> split_char(s, '/')[0].len() > 0,
    decreases s.len(),
{
    lemma_split_nonempty(s, '/');
    if s.len() > 0 {
        let t = s.drop_first();
        lemma_no_double_slash_sub(s, 1, s.len() as int);
        assert(s.subrange(1, s.len() as int) =~= t);
        lemma_split_pieces_nonempty(t);
        lemma_split_nonempty(t, '/');
        let rest = split_char(t, '/');
        if s[0] == '/' {
            assert(t.len() > 0);
            assert(t[0] == s[1]);
            assert(!(s[0] == '/' && s[1] == '/'));
            assert forall|k: int| 1 <= k < split_char(s, '/').len() implies (#[trigger] split_char(s, '/')[k]).len() > 0 by {
                assert(split_char(s, '/')[k] == rest[k - 1]);
            }
        } else {
            assert forall|k: int| 1 <= k < split_char(s, '/').len() implies (#[trigger] split_char(s, '/')[k]).len() > 0 by {
                assert(split_char(s, '/')[k] == rest[k]);
            }
        }
    }
}

proof fn lemma_trimmed_shape(p: Seq<char>)
    requires
        no_double_slash(p),
    ensures
        no_double_slash(trim_by(p, char_pred('/'))),
        trim_by(p, char_pred('/')).len() == 0 || (trim_by(p, char_pred('/'))[0] != '/'
            && trim_by(p, char_pred('/')).last() != '/'),
{
    let pr = char_pred('/');
    let u = crate::text::trim_start_by(p, pr);
    lemma_trim_start_shape(p, pr);
    let a = choose|a: int| 0 <= a <= p.len() && u == p.subrange(a, p.len() as int);
    lemma_no_double_slash_sub(p, a, p.len() as int);
    let t = crate::text::trim_end_by(u, pr);
    lemma_trim_end_shape(u, pr);
    lemma_trim_end_prefix(u, pr);
    lemma_no_double_slash_sub(u, 0, t.len() as int);
    if t.len() > 0 {
        assert(t[0] == u[0]);
        assert(!pr(t.last()));
    }
}

proof fn lemma_single_piece(s0: Seq<char>)
    requires
        lacks(s0, '/'),
    ensures
        split_char(s0, '/') == seq![s0],
{
    crate::text::lemma_split_after_plain(s0, Seq::<char>::empty(), '/');
    assert(s0 + Seq::<char>::empty() =~= s0);
    assert(s0 + split_char(Seq::<char>::empty(), '/')[0] =~= s0);
    assert(split_char(s0, '/') =~= seq![s0]);
}

proof fn lemma_two_pieces(s0: Seq<char>, s1: Seq<char>)
    requires
        lacks(s0, '/'),
        lacks(s1, '/'),
    ensures
        split_char(s0 + seq!['/'] + s1, '/') == seq![s0, s1],
{
    let z = seq!['/'] + s1;
    assert(s0 + seq!['/'] + s1 =~= s0 + z);
    crate::text::lemma_split_after_plain(s0, z, '/');
    assert(z.drop_first() =~= s1);
    lemma_single_piece(s1);
    assert(split_char(z, '/') =~= seq![Seq::<char>::empty(), s1]);
    assert(s0 + Seq::<char>::empty() =~= s0);
    assert(split_char(s0 + seq!['/'] + s1, '/') =~= seq![s0, s1]);
}

/// A key is its own key when the path has no `//`: reducing twice gives the
/// same key as reducing once.
pub proof fn lemma_key_fixed_point(p: Seq<char>)
    requires
        no_double_slash(p),
    ensures
        full_path_key(full_path_key(p)) == full_path_key(p),
{
    let key = full_path_key(p);
    let pr = char_pred('/');
    if encode_utf8(p).len() == 1 || encode_utf8(key).len() == 1 {
        return;
    }
    let t = trim_by(p, pr);
    lemma_trimmed_shape(p);
    let segs = split_char(t, '/');
    lemma_split_nonempty(t, '/');
    lemma_split_pieces_lack_sep(t, '/');
    lemma_split_pieces_nonempty(t);
    let s0 = segs[0];
    assert(lacks(s0, '/'));
    if segs.len() < 2 {
        assert(key == s0);
        lemma_trim_unchanged(s0, pr);
        lemma_single_piece(s0);
    } else {
        let s1 = segs[1];
        assert(lacks(s1, '/'));
        assert(t.len() > 0) by {
            if t.len() == 0 {
                assert(segs.len() == 1);
            }
        }
        assert(s0.len() > 0);
        assert(s1.len() > 0);
        assert(key == s0 + seq!['/'] + s1);
        assert(key[0] == s0[0]);
        assert(key.last() == s1.last());
        lemma_trim_unchanged(key, pr);
        lemma_two_pieces(s0, s1);
    }
}

} // verus!
