//! Verified character-level text utilities: substring search, splitting on a
//! delimiter, line splitting, decimal rendering and joining, together with the
//! trusted bridges to the standard library's string machinery.
use vstd::prelude::*;

verus! {

/// Substring containment: `needle` occurs in `hay` starting at index `i`.
pub open spec fn occurs_at(hay: Seq<char>, needle: Seq<char>, i: int) -> bool {
    0 <= i && i + needle.len() <= hay.len() && hay.subrange(i, i + needle.len() as int)
        == needle
}

/// `hay` holds `needle` as a contiguous run of characters.
pub open spec fn contains_seq(hay: Seq<char>, needle: Seq<char>) -> bool {
    exists|i: int| occurs_at(hay, needle, i)
}

/// Unicode lowercasing as performed by the standard library; the result is a
/// function of the input characters alone.
pub uninterp spec fn lower_of(s: Seq<char>) -> Seq<char>;

/// Relies on `str::to_lowercase`: the lowercase mapping depends on the
/// characters of the input alone, independent of machine or locale.
#[verifier::external_body]
pub fn lowercase(s: &str) -> (r: String)
    ensures
        r@ == lower_of(s@),
{
    s.to_lowercase()
}

/// Relies on `str::chars` (collected): yields exactly the characters of the
/// string, in order, which is what the view of a `str` denotes.
#[verifier::external_body]
pub fn str_chars(s: &str) -> (r: Vec<char>)
    ensures
        r@ == s@,
{
    s.chars().collect()
}

/// Relies on `String`'s `FromIterator<char>`: collecting characters in order
/// builds the string whose characters they are.
#[verifier::external_body]
pub fn chars_to_string(v: &Vec<char>) -> (r: String)
    ensures
        r@ == v@,
{
    v.iter().collect()
}

/// Compares `needle` against the slice of `hay` that starts at `i`.
fn eq_at(hay: &Vec<char>, needle: &Vec<char>, i: usize) -> (r: bool)
    requires
        i + needle@.len() <= hay@.len(),
    ensures
        r == (hay@.subrange(i as int, i + needle@.len() as int) == needle@),
{
    let ghost sub = hay@.subrange(i as int, i + needle@.len() as int);
    let mut j: usize = 0;
    while j < needle.len()
        invariant
            i + needle@.len() <= hay@.len(),
            hay@.len() == hay.len(),
            j <= needle@.len(),
            sub == hay@.subrange(i as int, i + needle@.len() as int),
            forall|k: int| 0 <= k < j ==> hay@[i + k] == needle@[k],
        decreases needle@.len() - j,
    {
        if hay[i + j] != needle[j] {
            proof {
                assert(sub[j as int] == hay@[i + j]);
            }
            return false;
        }
        j += 1;
    }
    proof {
        assert(sub =~= needle@);
    }
    true
}

/// Substring search: decides whether `needle` occurs anywhere in `hay`.
pub fn contains_chars(hay: &Vec<char>, needle: &Vec<char>) -> (r: bool)
    ensures
        r == contains_seq(hay@, needle@),
{
    if needle.len() > hay.len() {
        proof {
            assert(forall|i: int| !occurs_at(hay@, needle@, i));
        }
        return false;
    }
    if needle.len() == 0 {
        proof {
            assert(hay@.subrange(0, 0) =~= needle@);
            assert(occurs_at(hay@, needle@, 0));
        }
        return true;
    }
    let end = hay.len() - needle.len();
    let mut i: usize = 0;
    while i <= end
        invariant
            1 <= needle@.len() <= hay@.len(),
            hay@.len() == hay.len(),
            end == hay@.len() - needle@.len(),
            i <= end + 1,
            forall|k: int| 0 <= k < i ==> !occurs_at(hay@, needle@, k),
        decreases end + 1 - i,
    {
        if eq_at(hay, needle, i) {
            proof {
                assert(occurs_at(hay@, needle@, i as int));
            }
            return true;
        }
        i += 1;
    }
    proof {
        assert(forall|k: int| occurs_at(hay@, needle@, k) ==> 0 <= k <= end);
    }
    false
}

/// Prepends `pre` to the first piece of a non-empty piece list.
pub open spec fn prepend_first(pre: Seq<char>, parts: Seq<Seq<char>>) -> Seq<Seq<char>>
    recommends
        parts.len() >= 1,
{
    seq![pre + parts[0]] + parts.drop_first()
}

/// Splitting on a non-empty separator, greedily from the left: the pieces
/// between consecutive separator occurrences, in order.  A string without the
/// separator is one piece; every separator occurrence opens a new piece.
pub open spec fn split_spec(s: Seq<char>, sep: Seq<char>) -> Seq<Seq<char>>
    recommends
        sep.len() >= 1,
    decreases s.len(),
{
    if s.len() == 0 {
        seq![Seq::<char>::empty()]
    } else if 1 <= sep.len() <= s.len() && s.take(sep.len() as int) == sep {
        seq![Seq::<char>::empty()] + split_spec(s.skip(sep.len() as int), sep)
    } else {
        prepend_first(seq![s[0]], split_spec(s.skip(1), sep))
    }
}

pub proof fn lemma_split_len(s: Seq<char>, sep: Seq<char>)
    ensures
        split_spec(s, sep).len() >= 1,
    decreases s.len(),
{
    if s.len() == 0 {
    } else if 1 <= sep.len() <= s.len() && s.take(sep.len() as int) == sep {
        lemma_split_len(s.skip(sep.len() as int), sep);
    } else {
        lemma_split_len(s.skip(1), sep);
    }
}

/// Splits `s` on the separator `sep`, greedily from the left.
pub fn split_chars(s: &Vec<char>, sep: &Vec<char>) -> (r: Vec<Vec<char>>)
    requires
        sep@.len() >= 1,
    ensures
        r.deep_view() == split_spec(s@, sep@),
{
    let mut result: Vec<Vec<char>> = Vec::new();
    let mut cur: Vec<char> = Vec::new();
    let mut i: usize = 0;
    proof {
        lemma_split_len(s@, sep@);
        assert(s@.skip(0) =~= s@);
        assert(result.deep_view() =~~= Seq::<Seq<char>>::empty());
        assert(prepend_first(cur@, split_spec(s@, sep@)) =~~= split_spec(s@, sep@));
    }
    while i < s.len()
        invariant
            sep@.len() >= 1,
            i <= s@.len(),
            s@.len() == s.len(),
            split_spec(s@, sep@) == result.deep_view() + prepend_first(
                cur@,
                split_spec(s@.skip(i as int), sep@),
            ),
        decreases s@.len() - i,
    {
        proof {
            lemma_split_len(s@.skip(i as int), sep@);
        }
        if sep.len() <= s.len() - i && eq_at(s, sep, i) {
            proof {
                let rest = s@.skip(i as int);
                assert(rest.take(sep@.len() as int) =~= s@.subrange(
                    i as int,
                    i + sep@.len() as int,
                ));
                assert(rest.skip(sep@.len() as int) =~= s@.skip(i + sep@.len()));
                let q = split_spec(s@.skip(i + sep@.len()), sep@);
                lemma_split_len(s@.skip(i + sep@.len()), sep@);
                assert(split_spec(rest, sep@) == seq![Seq::<char>::empty()] + q);
                assert(prepend_first(cur@, seq![Seq::<char>::empty()] + q) =~~= seq![cur@] + q);
                assert(prepend_first(Seq::<char>::empty(), q) =~~= q);
            }
            let done = cur;
            cur = Vec::new();
            result.push(done);
            proof {
                assert(result.deep_view() =~~= result@.subrange(0, result@.len() - 1).map_values(
                    |v: Vec<char>| v.deep_view(),
                ).push(result@.last().deep_view()));
            }
            i += sep.len();
            proof {
                assert(result.deep_view() + prepend_first(
                    cur@,
                    split_spec(s@.skip(i as int), sep@),
                ) =~~= split_spec(s@, sep@));
            }
        } else {
            proof {
                let rest = s@.skip(i as int);
                let q = split_spec(s@.skip(i + 1), sep@);
                lemma_split_len(s@.skip(i + 1), sep@);
                assert(rest.len() >= 1);
                if 1 <= sep@.len() <= rest.len() && rest.take(sep@.len() as int) == sep@ {
                    // impossible: the exec check just failed
                    assert(rest.take(sep@.len() as int) =~= s@.subrange(
                        i as int,
                        i + sep@.len() as int,
                    ));
                    assert(false);
                }
                assert(rest.skip(1) =~= s@.skip(i + 1));
                assert(rest[0] == s@[i as int]);
                assert(split_spec(rest, sep@) == prepend_first(seq![s@[i as int]], q));
                assert(prepend_first(cur@, prepend_first(seq![s@[i as int]], q)) =~~=
                    prepend_first(cur@ + seq![s@[i as int]], q));
            }
            cur.push(s[i]);
            i += 1;
            proof {
                assert(result.deep_view() + prepend_first(
                    cur@,
                    split_spec(s@.skip(i as int), sep@),
                ) =~~= split_spec(s@, sep@));
            }
        }
    }
    proof {
        assert(s@.skip(i as int) =~= Seq::<char>::empty());
        assert(split_spec(s@.skip(i as int), sep@) == seq![Seq::<char>::empty()]);
        assert(prepend_first(cur@, seq![Seq::<char>::empty()]) =~~= seq![cur@]);
    }
    result.push(cur);
    proof {
        assert(result.deep_view() =~~= split_spec(s@, sep@));
    }
    result
}

/// Splits `s` on the separator `sep`, returning owned strings.
pub fn split_str(s: &str, sep: &str) -> (r: Vec<String>)
    requires
        sep@.len() >= 1,
    ensures
        r.deep_view() == split_spec(s@, sep@),
{
    let sc = str_chars(s);
    let pc = str_chars(sep);
    let parts = split_chars(&sc, &pc);
    let mut r: Vec<String> = Vec::new();
    let mut k: usize = 0;
    while k < parts.len()
        invariant
            k <= parts@.len(),
            parts@.len() == parts.len(),
            parts.deep_view() == split_spec(s@, sep@),
            r@.len() == k,
            forall|j: int| 0 <= j < k ==> r@[j]@ == parts@[j]@,
        decreases parts@.len() - k,
    {
        let st = chars_to_string(&parts[k]);
        r.push(st);
        k += 1;
    }
    proof {
        assert forall|j: int| 0 <= j < parts@.len() implies r.deep_view()[j] =~= parts.deep_view()[j] by {
            assert(r@[j]@ == parts@[j]@);
        }
        assert(r.deep_view() =~~= parts.deep_view());
    }
    r
}

/// One trailing carriage return is dropped, as the standard line iterator does.
pub open spec fn strip_cr(l: Seq<char>) -> Seq<char> {
    if l.len() > 0 && l.last() == '\r' {
        l.drop_last()
    } else {
        l
    }
}

/// The lines of a text: pieces between newline characters, without a final
/// empty piece when the text ends in a newline, each line shorn of one
/// trailing carriage return.
pub open spec fn lines_spec(text: Seq<char>) -> Seq<Seq<char>> {
    let raw = split_spec(text, seq!['\n']);
    let trimmed = if raw.len() > 0 && raw.last().len() == 0 {
        raw.drop_last()
    } else {
        raw
    };
    trimmed.map_values(|l: Seq<char>| strip_cr(l))
}

/// Splits a text into its lines.
pub fn split_lines(text: &str) -> (r: Vec<String>)
    ensures
        r.deep_view() == lines_spec(text@),
{
    let tc = str_chars(text);
    let mut nl: Vec<char> = Vec::new();
    nl.push('\n');
    proof {
        assert(nl@ =~= seq!['\n']);
    }
    let mut parts = split_chars(&tc, &nl);
    let ghost raw = split_spec(text@, seq!['\n']);
    if parts.len() > 0 && parts[parts.len() - 1].len() == 0 {
        parts.pop();
        proof {
            assert(parts.deep_view() =~~= raw.drop_last());
        }
    }
    let ghost trimmed = parts.deep_view();
    let mut r: Vec<String> = Vec::new();
    let mut k: usize = 0;
    while k < parts.len()
        invariant
            k <= parts@.len(),
            parts@.len() == parts.len(),
            parts.deep_view() == trimmed,
            r@.len() == k,
            forall|j: int| 0 <= j < k ==> r@[j]@ == strip_cr(trimmed[j]),
        decreases parts@.len() - k,
    {
        let n = parts[k].len();
        let keep: usize = if n > 0 && parts[k][n - 1] == '\r' {
            n - 1
        } else {
            n
        };
        let mut buf: Vec<char> = Vec::new();
        let mut j: usize = 0;
        while j < keep
            invariant
                j <= keep,
                k < parts@.len(),
                parts@.len() == parts.len(),
                keep <= parts@[k as int]@.len(),
                buf@ =~= parts@[k as int]@.take(j as int),
            decreases keep - j,
        {
            buf.push(parts[k][j]);
            j += 1;
        }
        proof {
            assert(trimmed[k as int] =~= parts@[k as int]@);
            assert(buf@ =~= strip_cr(trimmed[k as int]));
        }
        let st = chars_to_string(&buf);
        r.push(st);
        k += 1;
    }
    proof {
        let mapped = trimmed.map_values(|l: Seq<char>| strip_cr(l));
        assert forall|j: int| 0 <= j < trimmed.len() implies r.deep_view()[j] =~= mapped[j] by {
            assert(r@[j]@ == strip_cr(trimmed[j]));
        }
        assert(r.deep_view() =~~= mapped);
    }
    r
}

/// The decimal digit characters.
pub open spec fn digit_char(d: nat) -> char
    recommends
        d < 10,
{
    if d == 0 {
        '0'
    } else if d == 1 {
        '1'
    } else if d == 2 {
        '2'
    } else if d == 3 {
        '3'
    } else if d == 4 {
        '4'
    } else if d == 5 {
        '5'
    } else if d == 6 {
        '6'
    } else if d == 7 {
        '7'
    } else if d == 8 {
        '8'
    } else {
        '9'
    }
}

/// A number written in decimal, most significant digit first, no leading zero
/// except for the number zero itself.
pub open spec fn dec_str(n: nat) -> Seq<char>
    decreases n,
{
    if n < 10 {
        seq![digit_char(n)]
    } else {
        dec_str(n / 10) + seq![digit_char(n % 10)]
    }
}

fn digit_exec(d: usize) -> (c: char)
    requires
        d < 10,
    ensures
        c == digit_char(d as nat),
{
    if d == 0 {
        '0'
    } else if d == 1 {
        '1'
    } else if d == 2 {
        '2'
    } else if d == 3 {
        '3'
    } else if d == 4 {
        '4'
    } else if d == 5 {
        '5'
    } else if d == 6 {
        '6'
    } else if d == 7 {
        '7'
    } else if d == 8 {
        '8'
    } else {
        '9'
    }
}

/// Renders a number in decimal.
pub fn dec_chars(n: usize) -> (r: Vec<char>)
    ensures
        r@ == dec_str(n as nat),
    decreases n,
{
    if n < 10 {
        let mut r: Vec<char> = Vec::new();
        r.push(digit_exec(n));
        proof {
            assert(r@ =~= dec_str(n as nat));
        }
        r
    } else {
        let mut r = dec_chars(n / 10);
        r.push(digit_exec(n % 10));
        proof {
            assert(r@ =~= dec_str(n as nat));
        }
        r
    }
}

/// Lines joined with single newline separators, nothing at either end.
pub open spec fn join_nl(xs: Seq<Seq<char>>) -> Seq<char>
    decreases xs.len(),
{
    if xs.len() == 0 {
        Seq::empty()
    } else if xs.len() == 1 {
        xs[0]
    } else {
        join_nl(xs.drop_last()) + seq!['\n'] + xs.last()
    }
}

/// Joins the given lines with newline separators.
pub fn join_lines(xs: &Vec<String>) -> (r: String)
    ensures
        r@ == join_nl(xs.deep_view()),
{
    let ghost all = xs.deep_view();
    let mut r = String::new();
    let mut k: usize = 0;
    while k < xs.len()
        invariant
            k <= xs@.len(),
            xs@.len() == xs.len(),
            all == xs.deep_view(),
            r@ == join_nl(all.take(k as int)),
        decreases xs@.len() - k,
    {
        if k > 0 {
            r.append("\n");
            proof {
                reveal_strlit("\n");
                assert("\n"@ =~= seq!['\n']);
            }
        }
        r.append(xs[k].as_str());
        proof {
            assert(all.take(k + 1).drop_last() =~= all.take(k as int));
            assert(all.take(k + 1).last() == all[k as int]);
        }
        k += 1;
    }
    proof {
        assert(all.take(xs@.len() as int) =~= all);
    }
    r
}

} // verus!
