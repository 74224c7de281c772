//! Splitting a protocol line into its separator-delimited tokens, and exact
//! character-wise string comparison.

use vstd::prelude::*;

verus! {

/// The index of the first occurrence of `sep` in `s`, or `s.len()` if there
/// is none.
pub open spec fn first_sep(s: Seq<char>, sep: char) -> int
    decreases s.len(),
{
    if s.len() == 0 {
        0
    } else if s[0] == sep {
        0
    } else {
        1 + first_sep(s.skip(1), sep)
    }
}

proof fn lemma_first_sep_bounds(s: Seq<char>, sep: char)
    ensures
        0 <= first_sep(s, sep) <= s.len(),
        first_sep(s, sep) < s.len() ==> s[first_sep(s, sep)] == sep,
        forall|j: int| 0 <= j < first_sep(s, sep) ==> s[j] != sep,
    decreases s.len(),
{
    if s.len() > 0 && s[0] != sep {
        lemma_first_sep_bounds(s.skip(1), sep);
        assert forall|j: int| 0 <= j < first_sep(s, sep) implies s[j] != sep by {
            if j > 0 {
                assert(s.skip(1)[j - 1] == s[j]);
            }
        }
    }
}

/// `first_sep` is determined by where the separators are: if nothing before
/// `k` is a separator and `k` is either the end or a separator, then `k` is
/// the first separator position.
proof fn lemma_first_sep_at(s: Seq<char>, sep: char, k: int)
    requires
        0 <= k <= s.len(),
        forall|j: int| 0 <= j < k ==> s[j] != sep,
        k == s.len() || s[k] == sep,
    ensures
        first_sep(s, sep) == k,
    decreases s.len(),
{
    if s.len() > 0 && s[0] != sep {
        assert(forall|j: int| 0 <= j < k - 1 ==> s.skip(1)[j] == #[trigger] s[j + 1]);
        assert(k - 1 == s.skip(1).len() || s.skip(1)[k - 1] == sep);
        lemma_first_sep_at(s.skip(1), sep, k - 1);
    }
}

/// The tokens of `s` split at every occurrence of `sep`: the separators are
/// dropped, empty tokens are kept, and there is always at least one token.
pub open spec fn split_spec(s: Seq<char>, sep: char) -> Seq<Seq<char>>
    decreases s.len(),
{
    let i = first_sep(s, sep);
    if !(0 <= i < s.len()) {
        seq![s]
    } else {
        seq![s.take(i)] + split_spec(s.skip(i + 1), sep)
    }
}

/// The first token is everything before the first separator.
pub proof fn lemma_split_first(s: Seq<char>, sep: char)
    ensures
        split_spec(s, sep)[0] == s.take(first_sep(s, sep)),
{
    lemma_first_sep_bounds(s, sep);
    if !(first_sep(s, sep) < s.len()) {
        assert(s.take(first_sep(s, sep)) =~= s);
    }
}

/// The views of a sequence of strings.
pub open spec fn views_of(ts: Seq<String>) -> Seq<Seq<char>> {
    ts.map_values(|t: String| t@)
}

/// Compare two strings character by character.
pub fn str_eq_str(a: &str, b: &str) -> (r: bool)
    ensures
        r == (a@ == b@),
{
    let alen = a.unicode_len();
    let blen = b.unicode_len();
    if alen != blen {
        return false;
    }
    let mut i: usize = 0;
    while i < alen
        invariant
            0 <= i <= alen,
            alen as nat == a@.len(),
            alen as nat == b@.len(),
            forall|j: int| 0 <= j < i ==> a@[j] == b@[j],
        decreases alen - i,
    {
        if a.get_char(i) != b.get_char(i) {
            return false;
        }
        i = i + 1;
    }
    proof {
        assert(a@ =~= b@);
    }
    true
}

/// Split `line` at every occurrence of `sep` into owned tokens.
pub fn tokenize(line: &str, sep: char) -> (r: Vec<String>)
    ensures
        views_of(r@) == split_spec(line@, sep),
{
    let n = line.unicode_len();
    let mut result: Vec<String> = Vec::new();
    let mut start: usize = 0;
    let mut i: usize = 0;
    proof {
        assert(line@.skip(0) =~= line@);
        assert(views_of(result@) + split_spec(line@, sep) =~= split_spec(line@, sep));
    }
    while i < n
        invariant
            0 <= start <= i <= n,
            n as nat == line@.len(),
            forall|j: int| start <= j < i ==> line@[j] != sep,
            views_of(result@) + split_spec(line@.skip(start as int), sep) == split_spec(
                line@,
                sep,
            ),
        decreases n - i,
    {
        let c = line.get_char(i);
        if c == sep {
            let token = line.substring_char(start, i);
            proof {
                let tail = line@.skip(start as int);
                assert(forall|j: int|
                    0 <= j < i - start ==> tail[j] == #[trigger] line@[j + start]);
                assert(tail[i - start] == line@[i as int]);
                lemma_first_sep_at(tail, sep, i - start);
                assert(tail.take(i - start) =~= line@.subrange(start as int, i as int));
                assert(tail.skip(i - start + 1) =~= line@.skip(i + 1));
                assert(split_spec(tail, sep) == seq![tail.take(i - start)] + split_spec(
                    line@.skip(i + 1),
                    sep,
                ));
            }
            result.push(String::from_str(token));
            proof {
                assert(views_of(result@) =~= views_of(result@.drop_last()) + seq![
                    line@.subrange(start as int, i as int),
                ]);
                assert(views_of(result@) + split_spec(line@.skip(i + 1), sep) =~= split_spec(
                    line@,
                    sep,
                ));
            }
            start = i + 1;
        }
        i = i + 1;
    }
    let token = line.substring_char(start, n);
    proof {
        let tail = line@.skip(start as int);
        assert(forall|j: int| 0 <= j < n - start ==> tail[j] == #[trigger] line@[j + start]);
        lemma_first_sep_at(tail, sep, n - start);
        assert(split_spec(tail, sep) == seq![tail]);
        assert(tail =~= line@.subrange(start as int, n as int));
    }
    result.push(String::from_str(token));
    proof {
        assert(views_of(result@) =~= views_of(result@.drop_last()) + seq![
            line@.subrange(start as int, n as int),
        ]);
        assert(views_of(result@) =~= split_spec(line@, sep));
    }
    result
}

} // verus!
