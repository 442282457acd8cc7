use vstd::prelude::*;
use vstd::string::*;

verus! {

/// Whether `c` is an ASCII decimal digit.
pub open spec fn is_digit(c: char) -> bool {
    48 <= c as u32 && c as u32 <= 57
}

/// The numeric value of one ASCII digit.
pub open spec fn digit_val(c: char) -> nat {
    (c as u32 - 48) as nat
}

/// Whether every character of `s` is an ASCII decimal digit.
pub open spec fn all_digits(s: Seq<char>) -> bool {
    forall|i: int| 0 <= i < s.len() ==> is_digit(#[trigger] s[i])
}

/// The numeric value of a digit string, most significant digit first.
pub open spec fn digits_val(s: Seq<char>) -> nat
    decreases s.len(),
{
    if s.len() == 0 {
        0
    } else {
        digits_val(s.drop_last()) * 10 + digit_val(s.last())
    }
}

/// A digit string of at most four digits stays under ten thousand.
pub proof fn lemma_digits_val_bound(s: Seq<char>)
    requires
        all_digits(s),
    ensures
        s.len() == 0 ==> digits_val(s) == 0,
        s.len() <= 1 ==> digits_val(s) <= 9,
        s.len() <= 2 ==> digits_val(s) <= 99,
        s.len() <= 3 ==> digits_val(s) <= 999,
        s.len() <= 4 ==> digits_val(s) <= 9999,
    decreases s.len(),
{
    if s.len() > 0 {
        assert(all_digits(s.drop_last())) by {
            assert(forall|i: int|
                0 <= i < s.len() - 1 ==> s.drop_last()[i] == #[trigger] s[i]);
        }
        lemma_digits_val_bound(s.drop_last());
    }
}

/// Parses `s[from..to)` as a decimal number of one to four digits.
pub fn parse_digits(s: &str, from: usize, to: usize) -> (r: Option<u32>)
    requires
        from <= to <= s@.len(),
    ensures
        r is Some <==> (1 <= to - from <= 4 && all_digits(s@.subrange(
            from as int,
            to as int,
        ))),
        r matches Some(v) ==> v == digits_val(s@.subrange(from as int, to as int)) && v
            <= 9999,
{
    let ghost whole = s@.subrange(from as int, to as int);
    if to - from < 1 || to - from > 4 {
        return None;
    }
    let mut val: u32 = 0;
    let mut i: usize = from;
    while i < to
        invariant
            from <= i <= to <= s@.len(),
            to - from <= 4,
            whole == s@.subrange(from as int, to as int),
            all_digits(s@.subrange(from as int, i as int)),
            val == digits_val(s@.subrange(from as int, i as int)),
            val <= 9999,
        decreases to - i,
    {
        let ghost pre = s@.subrange(from as int, i as int);
        let c = s.get_char(i);
        let cv = c as u32;
        if cv < 48 || cv > 57 {
            proof {
                assert(whole[i - from] == s@[i as int]);
                assert(!all_digits(whole));
            }
            return None;
        }
        proof {
            let post = s@.subrange(from as int, i + 1);
            assert(post.drop_last() =~= pre);
            assert(post.last() == s@[i as int]);
            assert(all_digits(post)) by {
                assert(forall|k: int| 0 <= k < pre.len() ==> post[k] == #[trigger] pre[k]);
            }
            lemma_digits_val_bound(pre);
        }
        val = val * 10 + (cv - 48);
        i += 1;
    }
    proof {
        lemma_digits_val_bound(whole);
    }
    Some(val)
}

/// Whether `sub` occurs as a contiguous run of characters inside `hay`.
pub open spec fn contains_seq(hay: Seq<char>, sub: Seq<char>) -> bool {
    exists|i: int|
        0 <= i <= hay.len() - sub.len() && #[trigger] hay.subrange(i, i + sub.len()) == sub
}

/// Whether `sub` stands at position `at` of `hay`.
fn matches_at(hay: &str, sub: &str, at: usize) -> (r: bool)
    requires
        at + sub@.len() <= hay@.len() <= usize::MAX,
    ensures
        r == (hay@.subrange(at as int, at + sub@.len()) == sub@),
{
    let n = sub.unicode_len();
    let mut j: usize = 0;
    while j < n
        invariant
            n == sub@.len(),
            at + n <= hay@.len() <= usize::MAX,
            j <= n,
            forall|k: int| 0 <= k < j ==> hay@[at + k] == sub@[k],
        decreases n - j,
    {
        if hay.get_char(at + j) != sub.get_char(j) {
            proof {
                assert(hay@.subrange(at as int, at + sub@.len())[j as int] == hay@[at + j]);
            }
            return false;
        }
        j += 1;
    }
    proof {
        assert(hay@.subrange(at as int, at + sub@.len()) =~= sub@);
    }
    true
}

/// Substring search; reports whether `sub` occurs anywhere inside `hay`.
pub fn contains_str(hay: &str, sub: &str) -> (r: bool)
    ensures
        r == contains_seq(hay@, sub@),
{
    let hn = hay.unicode_len();
    let sn = sub.unicode_len();
    if sn > hn {
        return false;
    }
    let bound: usize = hn - sn;
    let mut i: usize = 0;
    loop
        invariant_except_break
            sn <= hn,
            hn == hay@.len(),
            sn == sub@.len(),
            bound == hn - sn,
            i <= bound,
            forall|k: int|
                0 <= k < i ==> #[trigger] hay@.subrange(k, k + sub@.len()) != sub@,
        ensures
            sn <= hn,
            hn == hay@.len(),
            sn == sub@.len(),
            forall|k: int|
                0 <= k <= hn - sn ==> #[trigger] hay@.subrange(k, k + sub@.len()) != sub@,
        decreases bound - i,
    {
        if matches_at(hay, sub, i) {
            proof {
                assert(hay@.subrange(i as int, i + sub@.len()) == sub@);
            }
            return true;
        }
        if i == bound {
            break;
        }
        i += 1;
    }
    false
}

/// The last space-delimited token of `s`: the suffix after the last ASCII
/// space, or all of `s` when it holds no space.
pub open spec fn last_token(s: Seq<char>) -> Seq<char>
    decreases s.len(),
{
    if s.len() == 0 {
        s
    } else if s.last() == ' ' {
        Seq::empty()
    } else {
        last_token(s.drop_last()).push(s.last())
    }
}

/// The last token is the suffix that follows the last space.
proof fn lemma_last_token_at(s: Seq<char>, i: int)
    requires
        0 <= i <= s.len(),
        i == 0 || s[i - 1] == ' ',
        forall|k: int| i <= k < s.len() ==> s[k] != ' ',
    ensures
        last_token(s) =~= s.subrange(i, s.len() as int),
    decreases s.len(),
{
    if s.len() == 0 {
    } else if i == s.len() {
    } else {
        assert(s.last() != ' ');
        assert(forall|k: int|
            i <= k < s.len() - 1 ==> s.drop_last()[k] == #[trigger] s[k]);
        lemma_last_token_at(s.drop_last(), i);
        assert(last_token(s) =~= s.subrange(i, s.len() as int));
    }
}

/// Returns the last space-delimited token of `s` as an owned string.
pub fn last_token_str(s: &str) -> (r: String)
    ensures
        r@ == last_token(s@),
{
    let n = s.unicode_len();
    let mut i: usize = n;
    while i > 0
        invariant_except_break
            i <= n,
            n == s@.len(),
            forall|k: int| i <= k < n ==> s@[k] != ' ',
        ensures
            i <= n,
            n == s@.len(),
            i == 0 || s@[i - 1] == ' ',
            forall|k: int| i <= k < n ==> s@[k] != ' ',
        decreases i,
    {
        if s.get_char(i - 1) == ' ' {
            break;
        }
        i -= 1;
    }
    proof {
        lemma_last_token_at(s@, i as int);
    }
    s.substring_char(i, n).to_owned()
}

} // verus!
