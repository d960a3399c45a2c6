//! Splitting the reply text into word fragments on single spaces, and the
//! proof that the fragments rejoin to the original text.

use vstd::prelude::*;
use vstd::string::StrSliceExecFns;

use crate::encode::chars_to_string;

verus! {

/// The index of the first space in `s`, or `s.len()` when there is none.
pub open spec fn first_space(s: Seq<char>) -> int
    decreases s.len(),
{
    if s.len() == 0 {
        0
    } else if s[0] == ' ' {
        0
    } else {
        1 + first_space(s.drop_first())
    }
}

pub proof fn lemma_first_space_bounds(s: Seq<char>)
    ensures
        0 <= first_space(s) <= s.len(),
        first_space(s) < s.len() ==> s[first_space(s)] == ' ',
        forall|j: int| 0 <= j < first_space(s) ==> s[j] != ' ',
    decreases s.len(),
{
    if s.len() == 0 {
    } else if s[0] == ' ' {
    } else {
        lemma_first_space_bounds(s.drop_first());
        assert forall|j: int| 0 <= j < first_space(s) implies s[j] != ' ' by {
            if j > 0 {
                assert(s.drop_first()[j - 1] == s[j]);
            }
        }
    }
}

/// A sequence without any space has no first space before its end.
pub proof fn lemma_first_space_none(a: Seq<char>)
    requires
        forall|j: int| 0 <= j < a.len() ==> a[j] != ' ',
    ensures
        first_space(a) == a.len(),
    decreases a.len(),
{
    if a.len() > 0 {
        assert forall|j: int| 0 <= j < a.drop_first().len() implies a.drop_first()[j] != ' ' by {
            assert(a.drop_first()[j] == a[j + 1]);
        }
        lemma_first_space_none(a.drop_first());
    }
}

/// A space-free prefix followed by a space puts the first space exactly
/// at the prefix's end.
pub proof fn lemma_first_space_at(a: Seq<char>, t: Seq<char>)
    requires
        forall|j: int| 0 <= j < a.len() ==> a[j] != ' ',
    ensures
        first_space(a + seq![' '] + t) == a.len(),
    decreases a.len(),
{
    let u = a + seq![' '] + t;
    if a.len() == 0 {
        assert(u[0] == ' ');
    } else {
        assert(u[0] == a[0]);
        assert forall|j: int| 0 <= j < a.drop_first().len() implies a.drop_first()[j] != ' ' by {
            assert(a.drop_first()[j] == a[j + 1]);
        }
        lemma_first_space_at(a.drop_first(), t);
        assert(u.drop_first() =~= a.drop_first() + seq![' '] + t);
    }
}

/// `s` split on single spaces, exactly as `str::split(' ')` does it:
/// consecutive spaces give empty fragments, and the empty sequence gives
/// one empty fragment.
pub open spec fn split_spaces(s: Seq<char>) -> Seq<Seq<char>>
    decreases s.len(),
{
    let i = first_space(s);
    if 0 <= i < s.len() {
        seq![s.take(i)] + split_spaces(s.skip(i + 1))
    } else {
        seq![s]
    }
}

/// The fragments joined back together with a single space between each
/// neighbouring pair.
pub open spec fn join_spaces(ws: Seq<Seq<char>>) -> Seq<char>
    decreases ws.len(),
{
    if ws.len() == 0 {
        Seq::empty()
    } else if ws.len() == 1 {
        ws[0]
    } else {
        ws[0] + seq![' '] + join_spaces(ws.drop_first())
    }
}

/// Splitting always yields at least one fragment.
pub proof fn lemma_split_nonempty(s: Seq<char>)
    ensures
        split_spaces(s).len() >= 1,
{
}

/// Joining the split fragments with single spaces reconstructs the
/// original text exactly, for every text.
pub proof fn lemma_join_split(s: Seq<char>)
    ensures
        join_spaces(split_spaces(s)) == s,
    decreases s.len(),
{
    lemma_first_space_bounds(s);
    let i = first_space(s);
    if i < s.len() {
        lemma_join_split(s.skip(i + 1));
        lemma_split_nonempty(s.skip(i + 1));
        let ws = split_spaces(s.skip(i + 1));
        assert((seq![s.take(i)] + ws).drop_first() =~= ws);
        assert(s.take(i) + seq![' '] + s.skip(i + 1) =~= s);
    }
}

/// Splits `s` into its fragments between single spaces.
pub fn split_message(s: &str) -> (r: Vec<String>)
    ensures
        r@.map_values(|w: String| w@) == split_spaces(s@),
{
    let n = s.unicode_len();
    let mut out: Vec<String> = Vec::new();
    let mut cur: Vec<char> = Vec::new();
    let mut i: usize = 0;
    proof {
        assert(cur@ + s@.skip(0) =~= s@);
        assert(out@.map_values(|w: String| w@) + split_spaces(s@) =~= split_spaces(s@));
    }
    while i < n
        invariant
            n == s@.len(),
            i <= n,
            forall|j: int| 0 <= j < cur@.len() ==> cur@[j] != ' ',
            split_spaces(s@) == out@.map_values(|w: String| w@) + split_spaces(
                cur@ + s@.skip(i as int),
            ),
        decreases n - i,
    {
        let ghost prev_out = out@;
        let ghost prev_cur = cur@;
        let c = s.get_char(i);
        if c == ' ' {
            let word = chars_to_string(&cur);
            out.push(word);
            cur = Vec::new();
            proof {
                let u = prev_cur + s@.skip(i as int);
                assert(u =~= prev_cur + seq![' '] + s@.skip(i + 1 as int));
                lemma_first_space_at(prev_cur, s@.skip(i + 1 as int));
                assert(u.take(prev_cur.len() as int) =~= prev_cur);
                assert(u.skip(prev_cur.len() as int + 1) =~= s@.skip(i + 1 as int));
                assert(split_spaces(u) == seq![prev_cur] + split_spaces(s@.skip(i + 1 as int)));
                assert(out@.map_values(|w: String| w@) =~= prev_out.map_values(|w: String| w@)
                    + seq![prev_cur]);
                assert(cur@ + s@.skip(i + 1 as int) =~= s@.skip(i + 1 as int));
            }
        } else {
            cur.push(c);
            proof {
                assert(cur@ + s@.skip(i + 1 as int) =~= prev_cur + s@.skip(i as int));
            }
        }
        i += 1;
    }
    let word = chars_to_string(&cur);
    let ghost prev_out = out@;
    out.push(word);
    proof {
        assert(cur@ + s@.skip(n as int) =~= cur@);
        lemma_first_space_none(cur@);
        assert(split_spaces(cur@) == seq![cur@]);
        assert(out@.map_values(|w: String| w@) =~= prev_out.map_values(|w: String| w@)
            + seq![cur@]);
        assert(out@.map_values(|w: String| w@) =~= split_spaces(s@));
    }
    out
}

} // verus!
