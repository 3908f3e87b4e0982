//! Splitting and joining of space-separated wire tokens.
//!
//! `split_on` mirrors `str::split` for a one-character separator: it always
//! yields at least one token and keeps empty tokens. `splitn_on` mirrors
//! `str::splitn`: it stops after a maximum number of tokens, leaving the
//! separator inside the last one. `join_with` is the inverse on token
//! sequences whose tokens are separator-free.

use vstd::prelude::*;

verus! {

/// The tokens of `s` between occurrences of `sep`. Never empty; an input
/// without separators yields exactly one token.
pub open spec fn split_on(s: Seq<char>, sep: char) -> Seq<Seq<char>>
    decreases s.len(),
{
    if s.len() == 0 {
        seq![Seq::<char>::empty()]
    } else if s[0] == sep {
        seq![Seq::<char>::empty()] + split_on(s.skip(1), sep)
    } else {
        let r = split_on(s.skip(1), sep);
        seq![seq![s[0]] + r[0]] + r.skip(1)
    }
}

/// Like `split_on`, but producing at most `n` tokens: once only one token
/// may still be produced, the rest of the input becomes that token,
/// separators included.
pub open spec fn splitn_on(s: Seq<char>, n: nat, sep: char) -> Seq<Seq<char>>
    decreases n, s.len(),
{
    if n <= 1 {
        seq![s]
    } else if s.len() == 0 {
        seq![s]
    } else if s[0] == sep {
        seq![Seq::<char>::empty()] + splitn_on(s.skip(1), (n - 1) as nat, sep)
    } else {
        let r = splitn_on(s.skip(1), n, sep);
        seq![seq![s[0]] + r[0]] + r.skip(1)
    }
}

/// The tokens laid out again with `sep` between consecutive ones.
pub open spec fn join_with(parts: Seq<Seq<char>>, sep: char) -> Seq<char>
    decreases parts.len(),
{
    if parts.len() == 0 {
        Seq::<char>::empty()
    } else if parts.len() == 1 {
        parts[0]
    } else {
        parts[0] + seq![sep] + join_with(parts.skip(1), sep)
    }
}

/// Splitting always yields at least one token, and every token of a full
/// split is separator-free.
pub proof fn lemma_split_on_props(s: Seq<char>, sep: char)
    ensures
        split_on(s, sep).len() >= 1,
        forall|j: int|
            0 <= j < split_on(s, sep).len() ==> !(#[trigger] split_on(s, sep)[j]).contains(sep),
    decreases s.len(),
{
    let r = split_on(s, sep);
    if s.len() == 0 {
        assert forall|j: int| 0 <= j < r.len() implies !(#[trigger] r[j]).contains(sep) by {
            assert(r[j] =~= Seq::<char>::empty());
        }
    } else if s[0] == sep {
        lemma_split_on_props(s.skip(1), sep);
        let r1 = split_on(s.skip(1), sep);
        assert forall|j: int| 0 <= j < r.len() implies !(#[trigger] r[j]).contains(sep) by {
            if j == 0 {
                assert(r[j] =~= Seq::<char>::empty());
            } else {
                assert(r[j] == r1[j - 1]);
            }
        }
    } else {
        lemma_split_on_props(s.skip(1), sep);
        let r1 = split_on(s.skip(1), sep);
        assert forall|j: int| 0 <= j < r.len() implies !(#[trigger] r[j]).contains(sep) by {
            if j == 0 {
                assert(!r1[0].contains(sep));
                let t = seq![s[0]] + r1[0];
                assert forall|k: int| 0 <= k < t.len() implies t[k] != sep by {
                    if k == 0 {
                        assert(t[k] == s[0]);
                    } else {
                        assert(t[k] == r1[0][k - 1]);
                        assert(r1[0].contains(r1[0][k - 1])) by {
                            assert(0 <= k - 1 < r1[0].len());
                        }
                    }
                }
                if t.contains(sep) {
                    let k = choose|k: int| 0 <= k < t.len() && t[k] == sep;
                    assert(t[k] != sep);
                }
            } else {
                assert(r[j] == r1.skip(1)[j - 1]);
                assert(r1.skip(1)[j - 1] == r1[j]);
            }
        }
    }
}

/// A separator-free input splits into exactly one token: itself.
pub proof fn lemma_split_on_whole(s: Seq<char>, sep: char)
    requires
        forall|k: int| 0 <= k < s.len() ==> s[k] != sep,
    ensures
        split_on(s, sep) =~= seq![s],
    decreases s.len(),
{
    if s.len() == 0 {
        assert(s =~= Seq::<char>::empty());
        assert(split_on(s, sep) =~= seq![s]);
    } else {
        assert(s[0] != sep);
        lemma_split_on_whole(s.skip(1), sep);
        assert(seq![s[0]] + s.skip(1) =~= s);
        assert(split_on(s, sep) =~= seq![s]);
    }
}

/// Splitting a separator-free token, a separator, and a remainder yields
/// the token and then the split of the remainder.
pub proof fn lemma_split_on_step(t: Seq<char>, rest: Seq<char>, sep: char)
    requires
        forall|k: int| 0 <= k < t.len() ==> t[k] != sep,
    ensures
        split_on(t + seq![sep] + rest, sep) =~= seq![t] + split_on(rest, sep),
    decreases t.len(),
{
    let s = t + seq![sep] + rest;
    if t.len() == 0 {
        assert(s[0] == sep);
        assert(s.skip(1) =~= rest);
        assert(t =~= Seq::<char>::empty());
        assert(split_on(s, sep) =~= seq![Seq::<char>::empty()] + split_on(rest, sep));
        assert(seq![t] =~= seq![Seq::<char>::empty()]);
    } else {
        assert(s[0] == t[0]);
        assert(s[0] != sep);
        assert(s.skip(1) =~= t.skip(1) + seq![sep] + rest);
        lemma_split_on_step(t.skip(1), rest, sep);
        let r = split_on(s.skip(1), sep);
        assert(r =~= seq![t.skip(1)] + split_on(rest, sep));
        assert(r[0] == t.skip(1));
        assert(seq![s[0]] + r[0] =~= t);
        assert(r.skip(1) =~= split_on(rest, sep));
    }
}

/// A separator-free input never exhausts the token budget.
pub proof fn lemma_splitn_on_whole(s: Seq<char>, n: nat, sep: char)
    requires
        forall|k: int| 0 <= k < s.len() ==> s[k] != sep,
    ensures
        splitn_on(s, n, sep) =~= seq![s],
    decreases s.len(),
{
    if n <= 1 || s.len() == 0 {
    } else {
        assert(s[0] != sep);
        lemma_splitn_on_whole(s.skip(1), n, sep);
        assert(seq![s[0]] + s.skip(1) =~= s);
        assert(splitn_on(s, n, sep) =~= seq![s]);
    }
}

/// With budget left, `splitn_on` peels one separator-free token off the
/// front and recurs on the remainder with one token less to give.
pub proof fn lemma_splitn_on_step(t: Seq<char>, rest: Seq<char>, n: nat, sep: char)
    requires
        n >= 2,
        forall|k: int| 0 <= k < t.len() ==> t[k] != sep,
    ensures
        splitn_on(t + seq![sep] + rest, n, sep) =~= seq![t] + splitn_on(rest, (n - 1) as nat, sep),
    decreases t.len(),
{
    let s = t + seq![sep] + rest;
    if t.len() == 0 {
        assert(s[0] == sep);
        assert(s.skip(1) =~= rest);
        assert(t =~= Seq::<char>::empty());
        assert(seq![t] =~= seq![Seq::<char>::empty()]);
    } else {
        assert(s[0] == t[0]);
        assert(s[0] != sep);
        assert(s.skip(1) =~= t.skip(1) + seq![sep] + rest);
        lemma_splitn_on_step(t.skip(1), rest, n, sep);
        let r = splitn_on(s.skip(1), n, sep);
        assert(r =~= seq![t.skip(1)] + splitn_on(rest, (n - 1) as nat, sep));
        assert(r[0] == t.skip(1));
        assert(seq![s[0]] + r[0] =~= t);
        assert(r.skip(1) =~= splitn_on(rest, (n - 1) as nat, sep));
    }
}

/// Joining separator-free tokens and splitting again restores the tokens.
pub proof fn lemma_split_of_join(parts: Seq<Seq<char>>, sep: char)
    requires
        parts.len() >= 1,
        forall|j: int| 0 <= j < parts.len() ==> !(#[trigger] parts[j]).contains(sep),
    ensures
        split_on(join_with(parts, sep), sep) =~= parts,
    decreases parts.len(),
{
    if parts.len() == 1 {
        assert(join_with(parts, sep) == parts[0]);
        assert forall|k: int| 0 <= k < parts[0].len() implies parts[0][k] != sep by {
            assert(parts[0].contains(parts[0][k])) by {
                assert(0 <= k < parts[0].len());
            }
        }
        lemma_split_on_whole(parts[0], sep);
        assert(split_on(join_with(parts, sep), sep) =~= seq![parts[0]]);
        assert(seq![parts[0]] =~= parts);
    } else {
        let rest = parts.skip(1);
        assert(forall|j: int| 0 <= j < rest.len() ==> !(#[trigger] rest[j]).contains(sep)) by {
            assert(forall|j: int| 0 <= j < rest.len() ==> rest[j] == parts[j + 1]);
        }
        lemma_split_of_join(rest, sep);
        assert forall|k: int| 0 <= k < parts[0].len() implies parts[0][k] != sep by {
            assert(parts[0].contains(parts[0][k])) by {
                assert(0 <= k < parts[0].len());
            }
        }
        lemma_split_on_step(parts[0], join_with(rest, sep), sep);
        assert(join_with(parts, sep) == parts[0] + seq![sep] + join_with(rest, sep));
        assert(split_on(join_with(parts, sep), sep) =~= seq![parts[0]] + rest);
        assert(seq![parts[0]] + rest =~= parts);
    }
}

/// Index of the first `sep` in `s`, or the length of `s` when absent.
fn find_sep(s: &str, sep: char) -> (i: usize)
    ensures
        0 <= i <= s@.len(),
        forall|k: int| 0 <= k < i ==> s@[k] != sep,
        i < s@.len() ==> s@[i as int] == sep,
{
    let n: usize = s.unicode_len();
    let mut i: usize = 0;
    while i < n
        invariant
            0 <= i <= n,
            n == s@.len(),
            forall|k: int| 0 <= k < i ==> s@[k] != sep,
        decreases n - i,
    {
        if s.get_char(i) == sep {
            return i;
        }
        i = i + 1;
    }
    i
}

/// Appends the tokens of `s` to `out`, in order.
fn split_push(s: &str, sep: char, out: &mut Vec<String>)
    ensures
        final(out).deep_view() =~= old(out).deep_view() + split_on(s@, sep),
    decreases s@.len(),
{
    let n: usize = s.unicode_len();
    let i = find_sep(s, sep);
    if i == n {
        proof {
            lemma_split_on_whole(s@, sep);
        }
        out.push(s.to_owned());
    } else {
        let head = s.substring_char(0, i);
        let tail = s.substring_char(i + 1, n);
        proof {
            assert(head@ =~= s@.take(i as int));
            assert(tail@ =~= s@.skip(i + 1 as int));
            assert(s@ =~= head@ + seq![sep] + tail@);
            lemma_split_on_step(head@, tail@, sep);
        }
        out.push(head.to_owned());
        split_push(tail, sep, out);
    }
}

/// The tokens of `s` between occurrences of `sep`, as `str::split` yields
/// them for a one-character pattern.
pub fn split_string(s: &str, sep: char) -> (parts: Vec<String>)
    ensures
        parts.deep_view() =~= split_on(s@, sep),
{
    let mut parts: Vec<String> = Vec::new();
    split_push(s, sep, &mut parts);
    parts
}

/// Appends at most `n` tokens of `s` to `out`; the last one keeps the
/// unsplit remainder.
fn splitn_push(s: &str, n_tokens: usize, sep: char, out: &mut Vec<String>)
    requires
        n_tokens >= 1,
    ensures
        final(out).deep_view() =~= old(out).deep_view() + splitn_on(s@, n_tokens as nat, sep),
    decreases n_tokens,
{
    let n: usize = s.unicode_len();
    if n_tokens == 1 {
        out.push(s.to_owned());
        return;
    }
    let i = find_sep(s, sep);
    if i == n {
        proof {
            lemma_splitn_on_whole(s@, n_tokens as nat, sep);
        }
        out.push(s.to_owned());
    } else {
        let head = s.substring_char(0, i);
        let tail = s.substring_char(i + 1, n);
        proof {
            assert(head@ =~= s@.take(i as int));
            assert(tail@ =~= s@.skip(i + 1 as int));
            assert(s@ =~= head@ + seq![sep] + tail@);
            lemma_splitn_on_step(head@, tail@, n_tokens as nat, sep);
        }
        out.push(head.to_owned());
        splitn_push(tail, n_tokens - 1, sep, out);
    }
}

/// At most `n_tokens` tokens of `s`, as `str::splitn` yields them for a
/// one-character pattern.
pub fn splitn_string(s: &str, n_tokens: usize, sep: char) -> (parts: Vec<String>)
    requires
        n_tokens >= 1,
    ensures
        parts.deep_view() =~= splitn_on(s@, n_tokens as nat, sep),
{
    let mut parts: Vec<String> = Vec::new();
    splitn_push(s, n_tokens, sep, &mut parts);
    parts
}

/// The tokens from `parts[i]` on, joined with single spaces.
fn join_space_from(parts: &Vec<String>, i: usize) -> (r: String)
    requires
        i <= parts@.len(),
    ensures
        r@ == join_with(parts.deep_view().skip(i as int), ' '),
    decreases parts@.len() - i,
{
    let n: usize = parts.len();
    if i == n {
        let r = String::new();
        proof {
            assert(parts.deep_view().skip(i as int) =~= Seq::<Seq<char>>::empty());
        }
        r
    } else if i + 1 == n {
        let r = parts[i].clone();
        proof {
            let tail = parts.deep_view().skip(i as int);
            assert(tail.len() == 1);
            assert(tail[0] == parts@[i as int]@);
        }
        r
    } else {
        let mut r = parts[i].clone();
        r.append(" ");
        let rest = join_space_from(parts, i + 1);
        r.append(rest.as_str());
        proof {
            reveal_strlit(" ");
            assert(" "@ =~= seq![' ']);
            let tail = parts.deep_view().skip(i as int);
            assert(tail.len() >= 2);
            assert(tail[0] == parts@[i as int]@);
            assert(tail.skip(1) =~= parts.deep_view().skip(i + 1 as int));
            assert(r@ == tail[0] + seq![' '] + join_with(tail.skip(1), ' '));
        }
        r
    }
}

/// The tokens joined with single spaces, as the wire layout expects.
pub fn join_space(parts: &Vec<String>) -> (r: String)
    ensures
        r@ == join_with(parts.deep_view(), ' '),
{
    let r = join_space_from(parts, 0);
    proof {
        assert(parts.deep_view().skip(0) =~= parts.deep_view());
    }
    r
}

} // verus!
