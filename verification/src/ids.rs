//! Lists of record ids sent as comma-separated form fields.
use vstd::prelude::*;
use crate::text::{
    chars_of, decimal_int, lacks, lemma_parse_decimal_i32, lemma_split_after_plain,
    lemma_split_nonempty, parse_i32, parse_i32_spec, split_char, split_chars,
};

verus! {

/// Every piece read as an `i32`, or `None` as soon as one is not a number.
pub open spec fn parse_all_i32(pieces: Seq<Seq<char>>) -> Option<Seq<i32>>
    decreases pieces.len(),
{
    if pieces.len() == 0 {
        Some(Seq::empty())
    } else {
        match (parse_all_i32(pieces.drop_last()), parse_i32_spec(pieces.last())) {
            (Some(v), Some(x)) => Some(v.push(x)),
            _ => None,
        }
    }
}

/// The ids of a text such as `13,12,11`: each piece between commas must be an
/// `i32`.
pub open spec fn id_list_spec(s: Seq<char>) -> Option<Seq<i32>> {
    parse_all_i32(split_char(s, ','))
}

proof fn lemma_parse_all_prefix(pieces: Seq<Seq<char>>, k: int)
    requires
        0 <= k <= pieces.len(),
        parse_all_i32(pieces.take(k)) is None,
    ensures
        parse_all_i32(pieces) is None,
    decreases pieces.len(),
{
    if k == pieces.len() {
        assert(pieces.take(k) =~= pieces);
    } else if k < pieces.len() - 1 {
        assert(pieces.drop_last().take(k) =~= pieces.take(k));
        lemma_parse_all_prefix(pieces.drop_last(), k);
    } else {
        assert(pieces.drop_last() =~= pieces.take(k));
    }
}

/// Reads a comma-separated list of ids; `None` where a piece is not an `i32`
/// (the text is then refused as a whole).
pub fn parse_id_list(s: &str) -> (r: Option<Vec<i32>>)
    ensures
        match r {
            Some(v) => id_list_spec(s@) == Some(v@),
            None => id_list_spec(s@) is None,
        },
{
    let cs = chars_of(s);
    let pieces = split_chars(cs.as_slice(), ',');
    let ghost ps = split_char(s@, ',');
    let mut ids: Vec<i32> = Vec::new();
    let mut k: usize = 0;
    while k < pieces.len()
        invariant
            cs@ == s@,
            ps == split_char(s@, ','),
            pieces@.len() == ps.len(),
            forall|j: int| 0 <= j < pieces@.len() ==> (#[trigger] pieces@[j])@ == ps[j],
            k <= pieces@.len(),
            parse_all_i32(ps.take(k as int)) == Some(ids@),
        decreases pieces@.len() - k,
    {
        assert(ps.take(k + 1).drop_last() =~= ps.take(k as int));
        assert(ps.take(k + 1).last() == ps[k as int]);
        match parse_i32(pieces[k].as_slice()) {
            Some(x) => {
                ids.push(x);
            },
            None => {
                proof {
                    lemma_parse_all_prefix(ps, k + 1);
                }
                return None;
            },
        }
        k += 1;
    }
    assert(ps.take(pieces@.len() as int) =~= ps);
    Some(ids)
}

/// The ids picked for a batch delete: no field means nothing to delete.
pub fn delete_ids(del_ids: Option<&str>) -> (r: Option<Vec<i32>>)
    ensures
        match del_ids {
            None => r matches Some(v) && v@.len() == 0,
            Some(s) => match r {
                Some(v) => id_list_spec(s@) == Some(v@),
                None => id_list_spec(s@) is None,
            },
        },
{
    match del_ids {
        None => Some(Vec::new()),
        Some(s) => parse_id_list(s),
    }
}


/// The ids written in decimal and joined with commas, as the list pages post
/// them.
pub open spec fn joined_ids(ids: Seq<i32>) -> Seq<char>
    decreases ids.len(),
{
    if ids.len() <= 1 {
        if ids.len() == 1 {
            decimal_int(ids[0] as int)
        } else {
            Seq::empty()
        }
    } else {
        decimal_int(ids[0] as int) + seq![','] + joined_ids(ids.drop_first())
    }
}

proof fn lemma_parse_all_pointwise(pieces: Seq<Seq<char>>, ids: Seq<i32>)
    requires
        pieces.len() == ids.len(),
        forall|k: int| 0 <= k < pieces.len() ==> parse_i32_spec(#[trigger] pieces[k]) == Some(ids[k]),
    ensures
        parse_all_i32(pieces) == Some(ids),
    decreases pieces.len(),
{
    if pieces.len() > 0 {
        let p = pieces.drop_last();
        let v = ids.drop_last();
        assert forall|k: int| 0 <= k < p.len() implies parse_i32_spec(#[trigger] p[k]) == Some(v[k]) by {
            assert(p[k] == pieces[k]);
        }
        lemma_parse_all_pointwise(p, v);
        assert(parse_i32_spec(pieces.last()) == Some(ids.last()));
        assert(v.push(ids.last()) =~= ids);
    } else {
        assert(ids =~= Seq::<i32>::empty());
    }
}

proof fn lemma_decimal_lacks_comma(n: i32)
    ensures
        lacks(decimal_int(n as int), ','),
{
    let s = decimal_int(n as int);
    if n < 0 {
        let m = (-(n as int)) as nat;
        crate::text::lemma_decimal_nat(m);
        assert forall|i: int| 0 <= i < s.len() implies s[i] != ',' by {
            if i > 0 {
                assert(s[i] == crate::text::decimal_nat(m)[i - 1]);
                assert(crate::text::is_digit(crate::text::decimal_nat(m)[i - 1]));
            }
        }
    } else {
        crate::text::lemma_decimal_nat(n as nat);
        assert forall|i: int| 0 <= i < s.len() implies s[i] != ',' by {
            assert(crate::text::is_digit(s[i]));
        }
    }
}

proof fn lemma_split_joined(ids: Seq<i32>)
    requires
        ids.len() >= 1,
    ensures
        split_char(joined_ids(ids), ',') == ids.map_values(|n: i32| decimal_int(n as int)),
    decreases ids.len(),
{
    let f = |n: i32| decimal_int(n as int);
    let d = decimal_int(ids[0] as int);
    lemma_decimal_lacks_comma(ids[0]);
    if ids.len() == 1 {
        lemma_split_after_plain(d, Seq::<char>::empty(), ',');
        assert(d + Seq::<char>::empty() =~= d);
        assert(split_char(d, ',') =~= ids.map_values(f));
    } else {
        let rest = ids.drop_first();
        lemma_split_joined(rest);
        let z = seq![','] + joined_ids(rest);
        assert(joined_ids(ids) =~= d + z);
        lemma_split_after_plain(d, z, ',');
        assert(z.drop_first() =~= joined_ids(rest));
        lemma_split_nonempty(joined_ids(rest), ',');
        assert(split_char(z, ',') =~= seq![Seq::<char>::empty()] + split_char(joined_ids(rest), ','));
        assert(d + Seq::<char>::empty() =~= d);
        assert(split_char(joined_ids(ids), ',') =~= ids.map_values(f));
    }
}

/// Reading back a non-empty list of ids joined with commas gives the same
/// ids, in the same order.
pub proof fn lemma_joined_ids_parse_back(ids: Seq<i32>)
    requires
        ids.len() >= 1,
    ensures
        id_list_spec(joined_ids(ids)) == Some(ids),
{
    lemma_split_joined(ids);
    let pieces = split_char(joined_ids(ids), ',');
    assert forall|k: int| 0 <= k < pieces.len() implies parse_i32_spec(#[trigger] pieces[k]) == Some(ids[k]) by {
        lemma_parse_decimal_i32(ids[k]);
    }
    lemma_parse_all_pointwise(pieces, ids);
}

} // verus!
