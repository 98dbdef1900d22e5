//! Verified text utilities: character-level string equality, splitting an
//! annotation on `:` separators, decimal rendering of counts, and joining
//! parameter lists with commas. These back the grammar and the exact error
//! messages of the resolver.

use vstd::prelude::*;

verus! {

/// The views of a sequence of strings.
pub open spec fn strings_view(v: Seq<String>) -> Seq<Seq<char>> {
    Seq::new(v.len(), |i: int| v[i]@)
}

/// Compares two string slices character by character.
pub fn str_eq(a: &str, b: &str) -> (r: bool)
    ensures
        r == (a@ == b@),
{
    let alen = a.unicode_len();
    let blen = b.unicode_len();
    if alen != blen {
        return false;
    }
    let mut i: usize = 0;
    while i < alen
        invariant
            alen == a@.len(),
            blen == b@.len(),
            alen == blen,
            i <= alen,
            forall|j: int| 0 <= j < i ==> a@[j] == b@[j],
        decreases alen - i,
    {
        if a.get_char(i) != b.get_char(i) {
            return false;
        }
        i = i + 1;
    }
    proof {
        assert(a@ =~= b@);
    }
    true
}

/// The segments of `s` between `:` separators, in order. A string without
/// a separator is one segment; every separator ends a segment, so the
/// result always holds at least one segment.
pub open spec fn split_colon_spec(s: Seq<char>) -> Seq<Seq<char>>
    decreases s.len(),
{
    if s.len() == 0 {
        seq![Seq::<char>::empty()]
    } else if s[0] == ':' {
        seq![Seq::<char>::empty()] + split_colon_spec(s.drop_first())
    } else {
        let rest = split_colon_spec(s.drop_first());
        seq![seq![s[0]] + rest[0]] + rest.drop_first()
    }
}

pub proof fn lemma_split_colon_len(s: Seq<char>)
    ensures
        split_colon_spec(s).len() >= 1,
    decreases s.len(),
{
    if s.len() == 0 {
    } else {
        lemma_split_colon_len(s.drop_first());
    }
}

/// A segment without separators splits into itself alone.
pub proof fn lemma_split_no_colon(u: Seq<char>)
    requires
        forall|j: int| 0 <= j < u.len() ==> u[j] != ':',
    ensures
        split_colon_spec(u) == seq![u],
    decreases u.len(),
{
    if u.len() == 0 {
        assert(u =~= Seq::<char>::empty());
        assert(split_colon_spec(u) =~~= seq![u]);
    } else {
        lemma_split_no_colon(u.drop_first());
        let rest = split_colon_spec(u.drop_first());
        assert(rest == seq![u.drop_first()]);
        assert(seq![u[0]] + rest[0] =~= u);
        assert(split_colon_spec(u) =~~= seq![u]);
    }
}

/// Splitting `w : v` where `w` has no separator yields `w` followed by the
/// segments of `v`.
pub proof fn lemma_split_around_colon(w: Seq<char>, v: Seq<char>)
    requires
        forall|j: int| 0 <= j < w.len() ==> w[j] != ':',
    ensures
        split_colon_spec(w + seq![':'] + v) == seq![w] + split_colon_spec(v),
    decreases w.len(),
{
    let s = w + seq![':'] + v;
    if w.len() == 0 {
        assert(s[0] == ':');
        assert(s.drop_first() =~= v);
        assert(w =~= Seq::<char>::empty());
        assert(split_colon_spec(s) =~~= seq![w] + split_colon_spec(v));
    } else {
        assert(s[0] == w[0]);
        assert(s[0] != ':');
        assert(s.drop_first() =~= w.drop_first() + seq![':'] + v);
        lemma_split_around_colon(w.drop_first(), v);
        let rest = split_colon_spec(s.drop_first());
        assert(rest == seq![w.drop_first()] + split_colon_spec(v));
        assert(rest[0] == w.drop_first());
        assert(seq![s[0]] + rest[0] =~= w);
        assert(rest.drop_first() =~= split_colon_spec(v));
        assert(split_colon_spec(s) =~~= seq![w] + split_colon_spec(v));
    }
}

/// Splits a string on `:` separators.
pub fn split_colon(s: &str) -> (r: Vec<String>)
    ensures
        strings_view(r@) == split_colon_spec(s@),
{
    let len = s.unicode_len();
    let mut parts: Vec<String> = Vec::new();
    let mut start: usize = 0;
    let mut i: usize = 0;
    proof {
        assert(s@.skip(0) =~= s@);
    }
    while i < len
        invariant
            len == s@.len(),
            start <= i <= len,
            forall|j: int| start <= j < i ==> s@[j] != ':',
            split_colon_spec(s@) == strings_view(parts@) + split_colon_spec(s@.skip(start as int)),
        decreases len - i,
    {
        if s.get_char(i) == ':' {
            let seg = s.substring_char(start, i);
            let seg_string = seg.to_owned();
            proof {
                let w = s@.subrange(start as int, i as int);
                assert(s@.skip(start as int) =~= w + seq![':'] + s@.skip(i as int + 1));
                lemma_split_around_colon(w, s@.skip(i as int + 1));
                assert(strings_view(parts@.push(seg_string)) =~~= strings_view(parts@) + seq![w]);
                assert((strings_view(parts@) + seq![w]) + split_colon_spec(s@.skip(i as int + 1))
                    =~~= strings_view(parts@) + (seq![w] + split_colon_spec(s@.skip(i as int + 1))));
            }
            parts.push(seg_string);
            start = i + 1;
        }
        i = i + 1;
    }
    let seg = s.substring_char(start, len);
    let seg_string = seg.to_owned();
    proof {
        let w = s@.subrange(start as int, len as int);
        assert(s@.skip(start as int) =~= w);
        lemma_split_no_colon(w);
        assert(strings_view(parts@.push(seg_string)) =~~= strings_view(parts@) + seq![w]);
    }
    parts.push(seg_string);
    proof {
        assert(strings_view(parts@) =~~= split_colon_spec(s@));
    }
    parts
}

/// The character of a single decimal digit.
pub open spec fn dec_digit(d: nat) -> char {
    if d == 0 {
        '0'
    } else if d == 1 {
        '1'
    } else if d == 2 {
        '2'
    } else if d == 3 {
        '3'
    } else if d == 4 {
        '4'
    } else if d == 5 {
        '5'
    } else if d == 6 {
        '6'
    } else if d == 7 {
        '7'
    } else if d == 8 {
        '8'
    } else {
        '9'
    }
}

/// The decimal rendering of a count, most significant digit first.
pub open spec fn dec_of(n: nat) -> Seq<char>
    decreases n,
{
    if n < 10 {
        seq![dec_digit(n)]
    } else {
        dec_of(n / 10) + seq![dec_digit(n % 10)]
    }
}

fn append_digit(out: &mut String, d: usize)
    requires
        d < 10,
    ensures
        final(out)@ == old(out)@ + seq![dec_digit(d as nat)],
{
    if d == 0 {
        proof {
            reveal_strlit("0");
        }
        out.append("0");
    } else if d == 1 {
        proof {
            reveal_strlit("1");
        }
        out.append("1");
    } else if d == 2 {
        proof {
            reveal_strlit("2");
        }
        out.append("2");
    } else if d == 3 {
        proof {
            reveal_strlit("3");
        }
        out.append("3");
    } else if d == 4 {
        proof {
            reveal_strlit("4");
        }
        out.append("4");
    } else if d == 5 {
        proof {
            reveal_strlit("5");
        }
        out.append("5");
    } else if d == 6 {
        proof {
            reveal_strlit("6");
        }
        out.append("6");
    } else if d == 7 {
        proof {
            reveal_strlit("7");
        }
        out.append("7");
    } else if d == 8 {
        proof {
            reveal_strlit("8");
        }
        out.append("8");
    } else {
        proof {
            reveal_strlit("9");
        }
        out.append("9");
    }
    proof {
        assert(final(out)@ =~= old(out)@ + seq![dec_digit(d as nat)]);
    }
}

/// Appends the decimal rendering of `n` to `out`.
pub fn append_decimal(out: &mut String, n: usize)
    ensures
        final(out)@ == old(out)@ + dec_of(n as nat),
    decreases n,
{
    if n >= 10 {
        append_decimal(out, n / 10);
    }
    append_digit(out, n % 10);
    proof {
        if n >= 10 {
            assert(old(out)@ + dec_of((n / 10) as nat) + seq![dec_digit((n % 10) as nat)] =~= old(
                out,
            )@ + dec_of(n as nat));
        } else {
            assert(old(out)@ + seq![dec_digit((n % 10) as nat)] =~= old(out)@ + dec_of(n as nat));
        }
    }
}

/// The segments joined with `,` between neighbours; empty when there is
/// no segment.
pub open spec fn join_comma_spec(parts: Seq<Seq<char>>) -> Seq<char>
    decreases parts.len(),
{
    if parts.len() == 0 {
        Seq::<char>::empty()
    } else if parts.len() == 1 {
        parts[0]
    } else {
        parts[0] + seq![','] + join_comma_spec(parts.drop_first())
    }
}

pub proof fn lemma_join_comma_push(parts: Seq<Seq<char>>, x: Seq<char>)
    ensures
        join_comma_spec(parts.push(x)) == if parts.len() == 0 {
            x
        } else {
            join_comma_spec(parts) + seq![','] + x
        },
    decreases parts.len(),
{
    let whole = parts.push(x);
    if parts.len() == 0 {
        assert(whole[0] == x);
    } else if parts.len() == 1 {
        assert(whole.drop_first() =~~= seq![x]);
        assert(join_comma_spec(whole.drop_first()) == x);
    } else {
        assert(whole.drop_first() =~~= parts.drop_first().push(x));
        lemma_join_comma_push(parts.drop_first(), x);
        assert(parts[0] + seq![','] + (join_comma_spec(parts.drop_first()) + seq![','] + x) =~= (
        parts[0] + seq![','] + join_comma_spec(parts.drop_first())) + seq![','] + x);
    }
}

/// Joins the strings with `,` between neighbours.
pub fn join_comma(parts: &Vec<String>) -> (r: String)
    ensures
        r@ == join_comma_spec(strings_view(parts@)),
{
    let mut out = String::new();
    let mut i: usize = 0;
    let ghost views = strings_view(parts@);
    proof {
        assert(views.take(0) =~~= Seq::<Seq<char>>::empty());
    }
    while i < parts.len()
        invariant
            views == strings_view(parts@),
            i <= parts.len(),
            views.len() == parts.len(),
            out@ == join_comma_spec(views.take(i as int)),
        decreases parts.len() - i,
    {
        if i > 0 {
            proof {
                reveal_strlit(",");
            }
            out.append(",");
        }
        out.append(parts[i].as_str());
        proof {
            lemma_join_comma_push(views.take(i as int), views[i as int]);
            assert(views.take(i as int).push(views[i as int]) =~~= views.take(i as int + 1));
            assert(out@ =~= join_comma_spec(views.take(i as int + 1)));
        }
        i = i + 1;
    }
    proof {
        assert(views.take(parts.len() as int) =~~= views);
    }
    out
}

} // verus!
