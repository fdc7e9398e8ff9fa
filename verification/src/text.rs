//! Character-level string handling shared by the request gate, the token
//! module and the address book: prefixes, whitespace trimming, and splitting
//! and joining on a separator character, each specified over `Seq<char>`.

use vstd::prelude::*;

verus! {

/// `p` is a prefix of `s`.
pub open spec fn is_prefix_of(p: Seq<char>, s: Seq<char>) -> bool {
    p.len() <= s.len() && s.subrange(0, p.len() as int) == p
}

/// The Unicode `White_Space` property, which `char::is_whitespace` and
/// `str::trim` use.
pub open spec fn is_whitespace(c: char) -> bool {
    ||| '\u{9}' <= c <= '\u{d}'
    ||| c == ' '
    ||| c == '\u{85}'
    ||| c == '\u{a0}'
    ||| c == '\u{1680}'
    ||| '\u{2000}' <= c <= '\u{200a}'
    ||| c == '\u{2028}'
    ||| c == '\u{2029}'
    ||| c == '\u{202f}'
    ||| c == '\u{205f}'
    ||| c == '\u{3000}'
}

/// `s` without its leading whitespace.
pub open spec fn trim_start(s: Seq<char>) -> Seq<char>
    decreases s.len(),
{
    if s.len() > 0 && is_whitespace(s[0]) {
        trim_start(s.drop_first())
    } else {
        s
    }
}

/// `s` without its trailing whitespace.
pub open spec fn trim_end(s: Seq<char>) -> Seq<char>
    decreases s.len(),
{
    if s.len() > 0 && is_whitespace(s.last()) {
        trim_end(s.drop_last())
    } else {
        s
    }
}

/// `s` without leading and trailing whitespace (`str::trim`).
pub open spec fn trim(s: Seq<char>) -> Seq<char> {
    trim_end(trim_start(s))
}

/// The pieces of `s` between occurrences of `sep` (`str::split` with a
/// character pattern): one more piece than `s` has separators.
pub open spec fn split(s: Seq<char>, sep: char) -> Seq<Seq<char>>
    decreases s.len(),
{
    if s.len() == 0 {
        seq![Seq::<char>::empty()]
    } else {
        let init = split(s.drop_last(), sep);
        if s.last() == sep {
            init.push(Seq::<char>::empty())
        } else {
            init.update(init.len() - 1, init.last().push(s.last()))
        }
    }
}

/// The pieces of `parts` with `sep` between each two neighbours (`join`).
pub open spec fn join(parts: Seq<Seq<char>>, sep: char) -> Seq<char>
    decreases parts.len(),
{
    if parts.len() == 0 {
        Seq::<char>::empty()
    } else if parts.len() == 1 {
        parts[0]
    } else {
        join(parts.drop_last(), sep) + seq![sep] + parts.last()
    }
}

/// The character sequences of a list of strings.
pub open spec fn views(v: Seq<String>) -> Seq<Seq<char>> {
    v.map_values(|s: String| s@)
}

/// Appends one character (std `String::push`).
#[verifier::external_body]
pub(crate) fn string_push(s: &mut String, c: char)
    ensures
        final(s)@ == old(s)@.push(c),
{
    s.push(c);
}

/// The characters of `s`, in order.
pub fn chars_of(s: &str) -> (r: Vec<char>)
    ensures
        r@ == s@,
{
    let mut v: Vec<char> = Vec::new();
    for c in it: s.chars()
        invariant
            v@ == it.seq().take(it.index() as int),
    {
        v.push(c);
    }
    v
}

/// The string made of `cs[from..to]`.
pub fn string_of_range(cs: &[char], from: usize, to: usize) -> (r: String)
    requires
        from <= to <= cs@.len(),
    ensures
        r@ == cs@.subrange(from as int, to as int),
{
    let mut s = String::new();
    let mut i: usize = from;
    while i < to
        invariant
            from <= i <= to <= cs@.len(),
            s@ == cs@.subrange(from as int, i as int),
        decreases to - i,
    {
        string_push(&mut s, cs[i]);
        assert(cs@.subrange(from as int, i as int + 1) == cs@.subrange(from as int, i as int).push(
            cs@[i as int],
        ));
        i = i + 1;
    }
    s
}

/// `a` followed by `b`.
pub fn concat_strs(a: &str, b: &str) -> (r: String)
    ensures
        r@ == a@ + b@,
{
    let mut s = String::from_str(a);
    s.append(b);
    s
}

/// Whether `p` is a prefix of `s`, on characters.
pub fn chars_start_with(s: &[char], p: &[char]) -> (r: bool)
    ensures
        r == is_prefix_of(p@, s@),
{
    if p.len() > s.len() {
        return false;
    }
    let mut i: usize = 0;
    while i < p.len()
        invariant
            p@.len() <= s@.len(),
            i <= p@.len(),
            forall|k: int| 0 <= k < i ==> s@[k] == p@[k],
        decreases p.len() - i,
    {
        if s[i] != p[i] {
            assert(s@.subrange(0, p@.len() as int)[i as int] != p@[i as int]);
            return false;
        }
        i = i + 1;
    }
    assert(s@.subrange(0, p@.len() as int) =~= p@);
    true
}

/// Whether `p` is a prefix of `s` (`str::starts_with`).
pub fn starts_with(s: &str, p: &str) -> (r: bool)
    ensures
        r == is_prefix_of(p@, s@),
{
    let sc = chars_of(s);
    let pc = chars_of(p);
    chars_start_with(sc.as_slice(), pc.as_slice())
}

/// Whether `c` is whitespace (`char::is_whitespace`).
pub fn char_is_whitespace(c: char) -> (r: bool)
    ensures
        r == is_whitespace(c),
{
    ('\u{9}' <= c && c <= '\u{d}') || c == ' ' || c == '\u{85}' || c == '\u{a0}' || c
        == '\u{1680}' || ('\u{2000}' <= c && c <= '\u{200a}') || c == '\u{2028}' || c
        == '\u{2029}' || c == '\u{202f}' || c == '\u{205f}' || c == '\u{3000}'
}

proof fn lemma_trim_start_skip(s: Seq<char>, i: int)
    requires
        0 <= i < s.len(),
        is_whitespace(s[i]),
    ensures
        trim_start(s.skip(i)) == trim_start(s.skip(i + 1)),
{
    assert(s.skip(i).drop_first() =~= s.skip(i + 1));
}

proof fn lemma_trim_end_take(s: Seq<char>, j: int)
    requires
        0 < j <= s.len(),
        is_whitespace(s[j - 1]),
    ensures
        trim_end(s.take(j)) == trim_end(s.take(j - 1)),
{
    assert(s.take(j).drop_last() =~= s.take(j - 1));
}

/// `cs[from..]` without leading and trailing whitespace, as a string.
pub fn trim_chars(cs: &[char], from: usize) -> (r: String)
    requires
        from <= cs@.len(),
    ensures
        r@ == trim(cs@.skip(from as int)),
{
    let ghost s = cs@.skip(from as int);
    let mut i: usize = from;
    while i < cs.len() && char_is_whitespace(cs[i])
        invariant
            from <= i <= cs@.len(),
            s == cs@.skip(from as int),
            trim_start(s) == trim_start(cs@.skip(i as int)),
        decreases cs.len() - i,
    {
        proof {
            lemma_trim_start_skip(cs@, i as int);
        }
        i = i + 1;
    }
    assert(trim_start(cs@.skip(i as int)) == cs@.skip(i as int));
    let ghost t = cs@.skip(i as int);
    let mut j: usize = cs.len();
    assert(t.take((j - i) as int) =~= t);
    while j > i && char_is_whitespace(cs[j - 1])
        invariant
            i <= j <= cs@.len(),
            t == cs@.skip(i as int),
            trim_end(t) == trim_end(t.take((j - i) as int)),
        decreases j,
    {
        proof {
            lemma_trim_end_take(t, (j - i) as int);
        }
        j = j - 1;
    }
    assert(trim_end(t.take((j - i) as int)) == t.take((j - i) as int));
    assert(t.take((j - i) as int) =~= cs@.subrange(i as int, j as int));
    string_of_range(cs, i, j)
}

proof fn lemma_split_push(s: Seq<char>, c: char, sep: char)
    ensures
        split(s.push(c), sep) == (if c == sep {
            split(s, sep).push(Seq::<char>::empty())
        } else {
            split(s, sep).update(
                split(s, sep).len() - 1,
                split(s, sep).last().push(c),
            )
        }),
{
    assert(s.push(c).drop_last() =~= s);
}

/// Every split has at least one piece.
pub proof fn lemma_split_nonempty(s: Seq<char>, sep: char)
    ensures
        split(s, sep).len() >= 1,
    decreases s.len(),
{
    if s.len() > 0 {
        lemma_split_nonempty(s.drop_last(), sep);
    }
}

proof fn lemma_split_append_plain(x: Seq<char>, y: Seq<char>, sep: char)
    requires
        !y.contains(sep),
    ensures
        split(x + y, sep) == split(x, sep).update(
            split(x, sep).len() - 1,
            split(x, sep).last() + y,
        ),
    decreases y.len(),
{
    lemma_split_nonempty(x, sep);
    if y.len() == 0 {
        assert(x + y =~= x);
        assert(split(x, sep).last() + y =~= split(x, sep).last());
        assert(split(x, sep).update(split(x, sep).len() - 1, split(x, sep).last())
            =~= split(x, sep));
    } else {
        let y0 = y.drop_last();
        assert(!y0.contains(sep)) by {
            if y0.contains(sep) {
                let k = choose|k: int| 0 <= k < y0.len() && y0[k] == sep;
                assert(y[k] == sep);
            }
        }
        lemma_split_append_plain(x, y0, sep);
        assert((x + y0).push(y.last()) =~= x + y);
        lemma_split_push(x + y0, y.last(), sep);
        assert(y.last() != sep) by {
            assert(y[y.len() - 1] == y.last());
        }
        assert((split(x, sep).last() + y0).push(y.last()) =~= split(x, sep).last() + y);
    }
}

/// Splitting the joined pieces on the separator gives the pieces back,
/// provided there is at least one piece and no piece holds the separator.
/// (With no pieces the join is empty, and splitting it gives one empty
/// piece.)
pub proof fn lemma_split_join(parts: Seq<Seq<char>>, sep: char)
    requires
        parts.len() >= 1,
        forall|i: int| 0 <= i < parts.len() ==> !(#[trigger] parts[i]).contains(sep),
    ensures
        split(join(parts, sep), sep) == parts,
    decreases parts.len(),
{
    if parts.len() == 1 {
        let e = Seq::<char>::empty();
        lemma_split_append_plain(e, parts[0], sep);
        assert(e + parts[0] =~= parts[0]);
        assert(split(e, sep).last() + parts[0] =~= parts[0]);
        assert(split(e, sep).update(0, parts[0]) =~= parts);
    } else {
        let init = parts.drop_last();
        lemma_split_join(init, sep);
        let j = join(init, sep);
        lemma_split_push(j, sep, sep);
        assert(!parts.last().contains(sep)) by {
            assert(parts[parts.len() - 1] == parts.last());
        }
        lemma_split_append_plain(j.push(sep), parts.last(), sep);
        assert(j + seq![sep] + parts.last() =~= j.push(sep) + parts.last());
        let e = Seq::<char>::empty();
        assert(e + parts.last() =~= parts.last());
        assert(init.push(e).update(init.len() as int, parts.last()) =~= parts);
    }
}

/// The pieces of `s` split on `sep` (`str::split(sep)` collected).
pub fn split_on(s: &str, sep: char) -> (r: Vec<String>)
    ensures
        views(r@) == split(s@, sep),
{
    let cs = chars_of(s);
    let mut parts: Vec<String> = Vec::new();
    let mut start: usize = 0;
    let mut i: usize = 0;
    assert(cs@.take(0) =~= Seq::<char>::empty());
    while i < cs.len()
        invariant
            cs@ == s@,
            start <= i <= cs@.len(),
            views(parts@).push(cs@.subrange(start as int, i as int)) == split(
                cs@.take(i as int),
                sep,
            ),
        decreases cs.len() - i,
    {
        let ghost old_parts = views(parts@);
        proof {
            lemma_split_push(cs@.take(i as int), cs@[i as int], sep);
            assert(cs@.take(i as int).push(cs@[i as int]) =~= cs@.take(i as int + 1));
        }
        if cs[i] == sep {
            let piece = string_of_range(&cs, start, i);
            parts.push(piece);
            assert(views(parts@) =~= old_parts.push(cs@.subrange(start as int, i as int)));
            start = i + 1;
            assert(cs@.subrange(start as int, i as int + 1) =~= Seq::<char>::empty());
        } else {
            assert(cs@.subrange(start as int, i as int + 1) =~= cs@.subrange(
                start as int,
                i as int,
            ).push(cs@[i as int]));
            assert(old_parts.push(cs@.subrange(start as int, i as int + 1)) =~= old_parts.push(
                cs@.subrange(start as int, i as int),
            ).update(old_parts.len() as int, cs@.subrange(start as int, i as int).push(
                cs@[i as int],
            )));
        }
        i = i + 1;
    }
    let ghost before = views(parts@);
    let last = string_of_range(&cs, start, cs.len());
    parts.push(last);
    assert(views(parts@) =~= before.push(cs@.subrange(start as int, cs@.len() as int)));
    assert(cs@.take(cs@.len() as int) =~= cs@);
    parts
}

/// The strings of `parts` with `sep` between each two neighbours
/// (`[String]::join`).
pub fn join_with(parts: &Vec<String>, sep: char) -> (r: String)
    ensures
        r@ == join(views(parts@), sep),
{
    let mut s = String::new();
    let mut i: usize = 0;
    while i < parts.len()
        invariant
            i <= parts@.len(),
            s@ == join(views(parts@).take(i as int), sep),
        decreases parts.len() - i,
    {
        let ghost prefix = views(parts@).take(i as int + 1);
        assert(prefix.drop_last() =~= views(parts@).take(i as int));
        if i > 0 {
            string_push(&mut s, sep);
        }
        s.append(parts[i].as_str());
        assert(prefix.last() == parts@[i as int]@);
        assert(s@ =~= join(prefix, sep));
        i = i + 1;
    }
    assert(views(parts@).take(parts@.len() as int) =~= views(parts@));
    s
}

} // verus!
