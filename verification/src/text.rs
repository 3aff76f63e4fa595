//! Character-level string helpers shared by the whole library, each with a
//! specification over `Seq<char>`.
use vstd::prelude::*;
use vstd::string::*;

verus! {

// ---------------------------------------------------------------------------
// Specifications
// ---------------------------------------------------------------------------

/// Unicode `White_Space`, the property that `char::is_whitespace` tests.
pub open spec fn is_ws(c: char) -> bool {
    let u = c as u32;
    ||| (9 <= u && u <= 13)
    ||| u == 32
    ||| u == 0x85
    ||| u == 0xa0
    ||| u == 0x1680
    ||| (0x2000 <= u && u <= 0x200a)
    ||| u == 0x2028
    ||| u == 0x2029
    ||| u == 0x202f
    ||| u == 0x205f
    ||| u == 0x3000
}

/// Number of leading whitespace characters.
pub open spec fn lead_ws(s: Seq<char>) -> nat
    decreases s.len(),
{
    if s.len() > 0 && is_ws(s[0]) {
        1 + lead_ws(s.subrange(1, s.len() as int))
    } else {
        0
    }
}

/// Number of trailing whitespace characters.
pub open spec fn trail_ws(s: Seq<char>) -> nat
    decreases s.len(),
{
    if s.len() > 0 && is_ws(s[s.len() - 1]) {
        1 + trail_ws(s.subrange(0, s.len() - 1))
    } else {
        0
    }
}

/// `str::trim_start`.
pub open spec fn trim_start_spec(s: Seq<char>) -> Seq<char> {
    s.subrange(lead_ws(s) as int, s.len() as int)
}

/// `str::trim_end`.
pub open spec fn trim_end_spec(s: Seq<char>) -> Seq<char> {
    s.subrange(0, s.len() - trail_ws(s))
}

/// `str::trim`.
pub open spec fn trim_spec(s: Seq<char>) -> Seq<char> {
    trim_end_spec(trim_start_spec(s))
}

/// Index of the first occurrence of `c` in `s`, or `s.len()` when absent.
pub open spec fn first_index(s: Seq<char>, c: char) -> nat
    decreases s.len(),
{
    if s.len() == 0 {
        0
    } else if s[0] == c {
        0
    } else {
        1 + first_index(s.subrange(1, s.len() as int), c)
    }
}

/// `str::split(c)`: the pieces between occurrences of `c` (always at least one).
pub open spec fn split_spec(s: Seq<char>, c: char) -> Seq<Seq<char>>
    decreases s.len(),
{
    let k = first_index(s, c);
    if k >= s.len() {
        seq![s]
    } else {
        seq![s.subrange(0, k as int)] + split_spec(s.subrange(k + 1int, s.len() as int), c)
    }
}

/// Removes one trailing carriage return.
pub open spec fn drop_cr(s: Seq<char>) -> Seq<char> {
    if s.len() > 0 && s[s.len() - 1] == '\r' {
        s.subrange(0, s.len() - 1)
    } else {
        s
    }
}

/// `str::lines`: pieces ended by `\n` (a `\r` before it dropped); a final
/// line ending does not start a further, empty line.
pub open spec fn lines_spec(s: Seq<char>) -> Seq<Seq<char>>
    decreases s.len(),
{
    if s.len() == 0 {
        seq![]
    } else {
        let k = first_index(s, '\n');
        if k >= s.len() {
            seq![s]
        } else {
            seq![drop_cr(s.subrange(0, k as int))] + lines_spec(s.subrange(k + 1int, s.len() as int))
        }
    }
}

/// `p` occurs in `s` starting at index `i`.
pub open spec fn occurs_at(s: Seq<char>, p: Seq<char>, i: int) -> bool {
    0 <= i && i + p.len() <= s.len() && s.subrange(i, i + p.len()) == p
}

/// `str::contains` for a string pattern.
pub open spec fn contains_spec(s: Seq<char>, p: Seq<char>) -> bool {
    exists|i: int| #[trigger] occurs_at(s, p, i)
}

/// `str::starts_with` for a string pattern.
pub open spec fn starts_with_spec(s: Seq<char>, p: Seq<char>) -> bool {
    occurs_at(s, p, 0)
}

/// `str::ends_with` for a string pattern.
pub open spec fn ends_with_spec(s: Seq<char>, p: Seq<char>) -> bool {
    p.len() <= s.len() && occurs_at(s, p, s.len() - p.len())
}

/// `n` spaces.
pub open spec fn spaces(n: nat) -> Seq<char> {
    Seq::new(n, |i: int| ' ')
}

/// Left-aligned to width `w` (`{:<w}`), padding counted in characters.
pub open spec fn pad_right(s: Seq<char>, w: nat) -> Seq<char> {
    if s.len() < w {
        s + spaces((w - s.len()) as nat)
    } else {
        s
    }
}

/// Right-aligned to width `w` (`{:>w}`), padding counted in characters.
pub open spec fn pad_left(s: Seq<char>, w: nat) -> Seq<char> {
    if s.len() < w {
        spaces((w - s.len()) as nat) + s
    } else {
        s
    }
}

/// The decimal digit for `d < 10`.
pub open spec fn digit_char(d: nat) -> char {
    if d == 0 {
        '0'
    } else if d == 1 {
        '1'
    } else if d == 2 {
        '2'
    } else if d == 3 {
        '3'
    } else if d == 4 {
        '4'
    } else if d == 5 {
        '5'
    } else if d == 6 {
        '6'
    } else if d == 7 {
        '7'
    } else if d == 8 {
        '8'
    } else {
        '9'
    }
}

/// Decimal representation of `n` (what `{}` prints for an unsigned integer).
pub open spec fn decimal(n: nat) -> Seq<char>
    decreases n,
{
    if n < 10 {
        seq![digit_char(n)]
    } else {
        decimal(n / 10).push(digit_char(n % 10))
    }
}

/// `parts.join(sep)`.
pub open spec fn join_spec(parts: Seq<Seq<char>>, sep: Seq<char>) -> Seq<char>
    decreases parts.len(),
{
    if parts.len() == 0 {
        seq![]
    } else if parts.len() == 1 {
        parts[0]
    } else {
        join_spec(parts.subrange(0, parts.len() - 1), sep) + sep + parts[parts.len() - 1]
    }
}

/// The views of a vector of strings.
pub open spec fn views(v: Seq<String>) -> Seq<Seq<char>> {
    v.map_values(|s: String| s@)
}

/// One output line per item: `prefix`, the item, a newline.
pub open spec fn prefixed_lines(prefix: Seq<char>, items: Seq<Seq<char>>) -> Seq<char>
    decreases items.len(),
{
    if items.len() == 0 {
        seq![]
    } else {
        prefixed_lines(prefix, items.subrange(0, items.len() - 1)) + prefix + items[items.len()
            - 1] + seq!['\n']
    }
}

/// Number of trailing copies of `c`.
pub open spec fn trail_count(s: Seq<char>, c: char) -> nat
    decreases s.len(),
{
    if s.len() > 0 && s[s.len() - 1] == c {
        1 + trail_count(s.subrange(0, s.len() - 1), c)
    } else {
        0
    }
}

/// `str::trim_end_matches(c)` for a single character.
pub open spec fn trim_end_char_spec(s: Seq<char>, c: char) -> Seq<char> {
    s.subrange(0, s.len() - trail_count(s, c))
}

/// `l` holds no newline.
pub open spec fn no_newline(l: Seq<char>) -> bool {
    forall|k: int| 0 <= k < l.len() ==> l[k] != '\n'
}

/// `l` ends with a carriage return.
pub open spec fn ends_with_cr(l: Seq<char>) -> bool {
    l.len() > 0 && l[l.len() - 1] == '\r'
}

/// Lexicographic order on strings by character (code point) order, the
/// order of `str`'s `Ord`.
pub open spec fn lex_le(a: Seq<char>, b: Seq<char>) -> bool
    decreases a.len(),
{
    if a.len() == 0 {
        true
    } else if b.len() == 0 {
        false
    } else if a[0] != b[0] {
        (a[0] as int) < (b[0] as int)
    } else {
        lex_le(a.drop_first(), b.drop_first())
    }
}

/// `lex_le` as a relation.
pub open spec fn lex_order() -> spec_fn(Seq<char>, Seq<char>) -> bool {
    |a: Seq<char>, b: Seq<char>| lex_le(a, b)
}

/// What `str::to_lowercase` returns for a string (Unicode default case mapping).
pub uninterp spec fn lowercase_of(s: Seq<char>) -> Seq<char>;

// ---------------------------------------------------------------------------
// Lemmas
// ---------------------------------------------------------------------------

/// `first_index` finds the first `c` when the characters before it differ from `c`.
pub proof fn lemma_first_index(s: Seq<char>, c: char, j: int)
    requires
        0 <= j <= s.len(),
        forall|k: int| 0 <= k < j ==> s[k] != c,
        j < s.len() ==> s[j] == c,
    ensures
        first_index(s, c) == j,
    decreases j,
{
    if j > 0 {
        let t = s.subrange(1, s.len() as int);
        assert forall|k: int| 0 <= k < j - 1 implies t[k] != c by {
            assert(t[k] == s[k + 1]);
        }
        if j < s.len() {
            assert(t[j - 1] == s[j]);
        }
        lemma_first_index(t, c, j - 1);
    }
}

/// `lead_ws` counts exactly the leading whitespace run.
pub proof fn lemma_lead_ws(s: Seq<char>, j: int)
    requires
        0 <= j <= s.len(),
        forall|k: int| 0 <= k < j ==> is_ws(s[k]),
        j < s.len() ==> !is_ws(s[j]),
    ensures
        lead_ws(s) == j,
    decreases j,
{
    if j > 0 {
        let t = s.subrange(1, s.len() as int);
        assert forall|k: int| 0 <= k < j - 1 implies is_ws(t[k]) by {
            assert(t[k] == s[k + 1]);
        }
        if j < s.len() {
            assert(t[j - 1] == s[j]);
        }
        lemma_lead_ws(t, j - 1);
    }
}

/// `trail_ws` counts exactly the trailing whitespace run.
pub proof fn lemma_trail_ws(s: Seq<char>, j: int)
    requires
        0 <= j <= s.len(),
        forall|k: int| s.len() - j <= k < s.len() ==> is_ws(s[k]),
        j < s.len() ==> !is_ws(s[s.len() - 1 - j]),
    ensures
        trail_ws(s) == j,
    decreases j,
{
    if j > 0 {
        let t = s.subrange(0, s.len() - 1);
        assert forall|k: int| t.len() - (j - 1) <= k < t.len() implies is_ws(t[k]) by {
            assert(t[k] == s[k]);
        }
        if j < s.len() {
            assert(t[t.len() - 1 - (j - 1)] == s[s.len() - 1 - j]);
        }
        lemma_trail_ws(t, j - 1);
    }
}

/// `trail_count` counts exactly the trailing run of `c`.
pub proof fn lemma_trail_count(s: Seq<char>, c: char, j: int)
    requires
        0 <= j <= s.len(),
        forall|k: int| s.len() - j <= k < s.len() ==> s[k] == c,
        j < s.len() ==> s[s.len() - 1 - j] != c,
    ensures
        trail_count(s, c) == j,
    decreases j,
{
    if j > 0 {
        let t = s.subrange(0, s.len() - 1);
        assert forall|k: int| t.len() - (j - 1) <= k < t.len() implies t[k] == c by {
            assert(t[k] == s[k]);
        }
        if j < s.len() {
            assert(t[t.len() - 1 - (j - 1)] == s[s.len() - 1 - j]);
        }
        lemma_trail_count(t, c, j - 1);
    }
}

/// What `first_index` returns: no `c` before it, and `c` at it when in range.
pub proof fn lemma_first_index_props(s: Seq<char>, c: char)
    ensures
        first_index(s, c) <= s.len(),
        forall|k: int| 0 <= k < first_index(s, c) ==> s[k] != c,
        first_index(s, c) < s.len() ==> s[first_index(s, c) as int] == c,
    decreases s.len(),
{
    if s.len() > 0 && s[0] != c {
        let t = s.subrange(1, s.len() as int);
        lemma_first_index_props(t, c);
        assert forall|k: int| 0 <= k < first_index(s, c) implies s[k] != c by {
            if k > 0 {
                assert(s[k] == t[k - 1]);
            }
        }
        if first_index(s, c) < s.len() {
            assert(s[first_index(s, c) as int] == t[first_index(t, c) as int]);
        }
    }
}

/// The lines that `str::lines` yields never hold a newline.
pub proof fn lemma_lines_no_newline(s: Seq<char>)
    ensures
        forall|i: int| 0 <= i < lines_spec(s).len() ==> no_newline(#[trigger] lines_spec(s)[i]),
    decreases s.len(),
{
    if s.len() > 0 {
        let k = first_index(s, '\n');
        lemma_first_index_props(s, '\n');
        if k >= s.len() {
            assert(lines_spec(s) == seq![s]);
        } else {
            let rest = s.subrange(k + 1int, s.len() as int);
            lemma_lines_no_newline(rest);
            let head = drop_cr(s.subrange(0, k as int));
            assert(no_newline(head)) by {
                assert forall|j: int| 0 <= j < head.len() implies head[j] != '\n' by {
                    assert(head[j] == s[j]);
                }
            }
            assert forall|i: int| 0 <= i < lines_spec(s).len() implies no_newline(
                #[trigger] lines_spec(s)[i],
            ) by {
                if i > 0 {
                    assert(lines_spec(s)[i] == lines_spec(rest)[i - 1]);
                }
            }
        }
    }
}

/// A text that does not end with a newline has a last line, and it is not empty.
pub proof fn lemma_lines_last_nonempty(s: Seq<char>)
    requires
        s.len() > 0,
        s[s.len() - 1] != '\n',
    ensures
        lines_spec(s).len() > 0,
        lines_spec(s)[lines_spec(s).len() - 1].len() > 0,
    decreases s.len(),
{
    let k = first_index(s, '\n');
    lemma_first_index_props(s, '\n');
    if k < s.len() {
        let rest = s.subrange(k + 1int, s.len() as int);
        assert(rest[rest.len() - 1] == s[s.len() - 1]);
        lemma_lines_last_nonempty(rest);
    }
}

/// Joining a first part in front of a non-empty list.
pub proof fn lemma_join_prepend(a: Seq<char>, rest: Seq<Seq<char>>, sep: Seq<char>)
    requires
        rest.len() >= 1,
    ensures
        join_spec(seq![a] + rest, sep) == a + sep + join_spec(rest, sep),
    decreases rest.len(),
{
    let q = seq![a] + rest;
    if rest.len() == 1 {
        assert(q.subrange(0, q.len() - 1) =~= seq![a]);
        assert(join_spec(seq![a], sep) == a);
        assert(q[q.len() - 1] == rest[0]);
        assert(join_spec(rest, sep) == rest[0]);
        assert(join_spec(q, sep) =~= a + sep + join_spec(rest, sep));
    } else {
        let init = rest.subrange(0, rest.len() - 1);
        lemma_join_prepend(a, init, sep);
        assert(q.subrange(0, q.len() - 1) =~= seq![a] + init);
        assert(join_spec(q, sep) =~= a + sep + join_spec(rest, sep));
    }
}

/// The lines read back from the newline-join of `ls` followed by `t`: a
/// carriage return that ends a line followed by a newline is dropped.
pub open spec fn lines_read_back(ls: Seq<Seq<char>>, t: Seq<char>) -> Seq<Seq<char>> {
    Seq::new(
        ls.len(),
        |i: int|
            if i < ls.len() - 1 || t.len() > 0 {
                drop_cr(ls[i])
            } else {
                ls[i]
            },
    )
}

/// Splitting the newline-join of lines without newlines gives them back,
/// each line followed by a newline losing one final carriage return; with
/// or without a final newline (without one only when the last line is not
/// empty).
pub proof fn lemma_lines_of_join(ls: Seq<Seq<char>>, t: Seq<char>)
    requires
        ls.len() >= 1,
        forall|i: int| 0 <= i < ls.len() ==> no_newline(#[trigger] ls[i]),
        t == seq!['\n'] || (t.len() == 0 && ls[ls.len() - 1].len() > 0),
    ensures
        lines_spec(join_spec(ls, seq!['\n']) + t) == lines_read_back(ls, t),
    decreases ls.len(),
{
    let a = ls[0];
    assert(no_newline(a));
    let s = join_spec(ls, seq!['\n']) + t;
    if ls.len() == 1 {
        assert(ls =~= seq![a]);
        if t.len() == 0 {
            assert(s =~= a);
            lemma_first_index(s, '\n', s.len() as int);
            assert(lines_spec(s) == seq![s]);
            assert(lines_spec(s) =~= lines_read_back(ls, t));
        } else {
            assert(s =~= a + seq!['\n']);
            lemma_first_index(s, '\n', a.len() as int);
            assert(s.subrange(0, a.len() as int) =~= a);
            let e = s.subrange(a.len() + 1int, s.len() as int);
            assert(e =~= Seq::<char>::empty());
            assert(lines_spec(e) =~= Seq::<Seq<char>>::empty());
            assert(lines_spec(s) =~= lines_read_back(ls, t));
        }
    } else {
        let rest = ls.subrange(1, ls.len() as int);
        assert(ls =~= seq![a] + rest);
        assert forall|i: int| 0 <= i < rest.len() implies no_newline(#[trigger] rest[i]) by {
            assert(rest[i] == ls[i + 1]);
        }
        assert(rest[rest.len() - 1] == ls[ls.len() - 1]);
        lemma_join_prepend(a, rest, seq!['\n']);
        let r = join_spec(rest, seq!['\n']) + t;
        lemma_lines_of_join(rest, t);
        assert(s =~= a + seq!['\n'] + r);
        lemma_first_index(s, '\n', a.len() as int);
        assert(s.subrange(0, a.len() as int) =~= a);
        assert(s.subrange(a.len() + 1int, s.len() as int) =~= r);
        assert(lines_spec(s) =~= seq![drop_cr(a)] + lines_read_back(rest, t));
        assert(lines_spec(s) =~= lines_read_back(ls, t));
    }
}

/// `lex_le` is reflexive and total.
pub proof fn lemma_lex_refl_total(a: Seq<char>, b: Seq<char>)
    ensures
        lex_le(a, a),
        lex_le(a, b) || lex_le(b, a),
    decreases a.len(),
{
    if a.len() > 0 {
        lemma_lex_refl_total(a.drop_first(), a.drop_first());
        if b.len() > 0 && a[0] == b[0] {
            lemma_lex_refl_total(a.drop_first(), b.drop_first());
        }
    }
}

/// `lex_le` is antisymmetric.
pub proof fn lemma_lex_antisym(a: Seq<char>, b: Seq<char>)
    requires
        lex_le(a, b),
        lex_le(b, a),
    ensures
        a == b,
    decreases a.len(),
{
    if a.len() > 0 && b.len() > 0 {
        lemma_lex_antisym(a.drop_first(), b.drop_first());
        assert(a =~= seq![a[0]] + a.drop_first());
        assert(b =~= seq![b[0]] + b.drop_first());
    } else {
        assert(a =~= b);
    }
}

/// `lex_le` is transitive.
pub proof fn lemma_lex_trans(a: Seq<char>, b: Seq<char>, c: Seq<char>)
    requires
        lex_le(a, b),
        lex_le(b, c),
    ensures
        lex_le(a, c),
    decreases a.len(),
{
    if a.len() > 0 && b.len() > 0 && c.len() > 0 && a[0] == b[0] && b[0] == c[0] {
        lemma_lex_trans(a.drop_first(), b.drop_first(), c.drop_first());
    }
}

/// `lex_order` is a total order.
pub proof fn lemma_lex_total_ordering()
    ensures
        vstd::relations::total_ordering(lex_order()),
{
    assert forall|x: Seq<char>| #[trigger] lex_order()(x, x) by {
        lemma_lex_refl_total(x, x);
    }
    assert forall|x: Seq<char>, y: Seq<char>|
        #[trigger] lex_order()(x, y) && #[trigger] lex_order()(y, x) implies x == y by {
        lemma_lex_antisym(x, y);
    }
    assert forall|x: Seq<char>, y: Seq<char>, z: Seq<char>|
        #[trigger] lex_order()(x, y) && #[trigger] lex_order()(y, z) implies lex_order()(x, z) by {
        lemma_lex_trans(x, y, z);
    }
    assert forall|x: Seq<char>, y: Seq<char>|
        #[trigger] lex_order()(x, y) || #[trigger] lex_order()(y, x) by {
        lemma_lex_refl_total(x, y);
    }
}

/// The join of `parts` followed by one more part.
pub proof fn lemma_join_push(parts: Seq<Seq<char>>, sep: Seq<char>, p: Seq<char>)
    ensures
        join_spec(parts.push(p), sep) == if parts.len() == 0 {
            p
        } else {
            join_spec(parts, sep) + sep + p
        },
{
    let q = parts.push(p);
    assert(q.subrange(0, q.len() - 1) =~= parts);
}

/// A line without a newline, a newline, then the rest: the line is read
/// first (less one final carriage return), then the lines of the rest.
pub proof fn lemma_lines_cons(a: Seq<char>, rest: Seq<char>)
    requires
        no_newline(a),
    ensures
        lines_spec(a + seq!['\n'] + rest) == seq![drop_cr(a)] + lines_spec(rest),
{
    let s = a + seq!['\n'] + rest;
    assert forall|k: int| 0 <= k < a.len() implies s[k] != '\n' by {
        assert(s[k] == a[k]);
    }
    lemma_first_index(s, '\n', a.len() as int);
    assert(s.subrange(0, a.len() as int) =~= a);
    assert(s.subrange(a.len() + 1int, s.len() as int) =~= rest);
}

/// The lines of a block of prefixed lines followed by more text: one line
/// per item, then the lines of the text.
pub proof fn lemma_lines_prefixed(prefix: Seq<char>, items: Seq<Seq<char>>, rest: Seq<char>)
    requires
        no_newline(prefix),
        forall|i: int|
            0 <= i < items.len() ==> no_newline(#[trigger] items[i]) && !ends_with_cr(
                prefix + items[i],
            ),
    ensures
        lines_spec(prefixed_lines(prefix, items) + rest) == items.map_values(
            |x: Seq<char>| prefix + x,
        ) + lines_spec(rest),
    decreases items.len(),
{
    let f = |x: Seq<char>| prefix + x;
    if items.len() == 0 {
        assert(prefixed_lines(prefix, items) + rest =~= rest);
        assert(items.map_values(f) + lines_spec(rest) =~= lines_spec(rest));
    } else {
        let init = items.subrange(0, items.len() - 1);
        let x = items[items.len() - 1];
        let line = prefix + x;
        let rest2 = line + seq!['\n'] + rest;
        assert(prefixed_lines(prefix, items) + rest =~= prefixed_lines(prefix, init) + rest2);
        assert forall|i: int| 0 <= i < init.len() implies no_newline(#[trigger] init[i])
            && !ends_with_cr(prefix + init[i]) by {
            assert(init[i] == items[i]);
        }
        lemma_lines_prefixed(prefix, init, rest2);
        assert(no_newline(x));
        assert(no_newline(line)) by {
            assert forall|k: int| 0 <= k < line.len() implies line[k] != '\n' by {
                if k < prefix.len() {
                    assert(line[k] == prefix[k]);
                } else {
                    assert(line[k] == x[k - prefix.len()]);
                }
            }
        }
        lemma_lines_cons(line, rest);
        assert(drop_cr(line) == line);
        assert(items.map_values(f) =~= init.map_values(f).push(line));
        assert(items.map_values(f) + lines_spec(rest) =~= init.map_values(f) + (seq![line]
            + lines_spec(rest)));
    }
}

/// A line that `str::lines` gives back as it is: no newline in it, no
/// carriage return at its end.
pub open spec fn plain_line(x: Seq<char>) -> bool {
    no_newline(x) && !ends_with_cr(x)
}

/// Two plain pieces, the second not empty, make a plain line.
pub proof fn lemma_plain_concat(a: Seq<char>, b: Seq<char>)
    requires
        no_newline(a),
        plain_line(b),
        b.len() > 0,
    ensures
        plain_line(a + b),
{
    let c = a + b;
    assert forall|k: int| 0 <= k < c.len() implies c[k] != '\n' by {
        if k < a.len() {
            assert(c[k] == a[k]);
        } else {
            assert(c[k] == b[k - a.len()]);
        }
    }
    assert(c[c.len() - 1] == b[b.len() - 1]);
}

/// Adding one more item adds one more line.
pub proof fn lemma_prefixed_lines_push(prefix: Seq<char>, items: Seq<Seq<char>>, p: Seq<char>)
    ensures
        prefixed_lines(prefix, items.push(p)) == prefixed_lines(prefix, items) + prefix + p
            + seq!['\n'],
{
    let q = items.push(p);
    assert(q.subrange(0, q.len() - 1) =~= items);
}

// ---------------------------------------------------------------------------
// Executable helpers
// ---------------------------------------------------------------------------

/// Appends one character to a `String` (`String::push`).
#[verifier::external_body]
pub(crate) fn push_char(s: &mut String, c: char)
    ensures
        final(s)@ == old(s)@.push(c),
{
    s.push(c)
}

/// The lowercase form of a string (`str::to_lowercase`).
#[verifier::external_body]
pub(crate) fn lowercase(s: &str) -> (r: String)
    ensures
        r@ == lowercase_of(s@),
{
    s.to_lowercase()
}

/// Appends a newline.
pub fn push_newline(s: &mut String)
    ensures
        final(s)@ == old(s)@ + seq!['\n'],
{
    push_char(s, '\n');
    assert(final(s)@ =~= old(s)@ + seq!['\n']);
}

/// Appends `prefix`, `item` and a newline for each item in turn.
pub fn push_prefixed_lines(s: &mut String, prefix: &str, items: &Vec<String>)
    ensures
        final(s)@ == old(s)@ + prefixed_lines(prefix@, views(items@)),
{
    let ghost start = s@;
    let mut i: usize = 0;
    assert(views(items@.subrange(0, 0)) =~= Seq::<Seq<char>>::empty());
    assert(start + prefixed_lines(prefix@, Seq::<Seq<char>>::empty()) =~= start);
    while i < items.len()
        invariant
            i <= items.len(),
            s@ == start + prefixed_lines(prefix@, views(items@.subrange(0, i as int))),
        decreases items.len() - i,
    {
        proof {
            lemma_prefixed_lines_push(prefix@, views(items@.subrange(0, i as int)), items@[i as int]@);
            assert(views(items@.subrange(0, i + 1)) =~= views(items@.subrange(0, i as int)).push(
                items@[i as int]@,
            ));
        }
        s.append(prefix);
        s.append(items[i].as_str());
        push_newline(s);
        i = i + 1;
    }
    assert(items@.subrange(0, items.len() as int) =~= items@);
}

/// An owned copy of a string slice.
pub fn owned(s: &str) -> (r: String)
    ensures
        r@ == s@,
{
    String::from_str(s)
}

/// The characters of a string slice, in order.
pub fn to_chars(s: &str) -> (r: Vec<char>)
    ensures
        r@ == s@,
{
    let n = s.unicode_len();
    let mut v: Vec<char> = Vec::new();
    let mut i: usize = 0;
    while i < n
        invariant
            n == s@.len(),
            i <= n,
            v@ == s@.subrange(0, i as int),
        decreases n - i,
    {
        let c = s.get_char(i);
        v.push(c);
        i = i + 1;
        assert(v@ =~= s@.subrange(0, i as int));
    }
    assert(v@ =~= s@);
    v
}

/// The string made of `v[from..to]`.
pub fn from_range(v: &Vec<char>, from: usize, to: usize) -> (r: String)
    requires
        from <= to <= v.len(),
    ensures
        r@ == v@.subrange(from as int, to as int),
{
    let mut s = String::new();
    let mut i = from;
    while i < to
        invariant
            from <= i <= to <= v.len(),
            s@ == v@.subrange(from as int, i as int),
        decreases to - i,
    {
        push_char(&mut s, v[i]);
        i = i + 1;
        assert(s@ =~= v@.subrange(from as int, i as int));
    }
    s
}

/// `char::is_whitespace`.
pub fn is_whitespace(c: char) -> (r: bool)
    ensures
        r == is_ws(c),
{
    let u = c as u32;
    (9 <= u && u <= 13) || u == 32 || u == 0x85 || u == 0xa0 || u == 0x1680 || (0x2000 <= u && u
        <= 0x200a) || u == 0x2028 || u == 0x2029 || u == 0x202f || u == 0x205f || u == 0x3000
}

/// `str::trim`, returned owned.
pub fn trim(s: &str) -> (r: String)
    ensures
        r@ == trim_spec(s@),
{
    let v = to_chars(s);
    let n = v.len();
    let mut a: usize = 0;
    while a < n && is_whitespace(v[a])
        invariant
            a <= n == v.len(),
            forall|k: int| 0 <= k < a ==> is_ws(v@[k]),
        decreases n - a,
    {
        a = a + 1;
    }
    proof {
        lemma_lead_ws(v@, a as int);
    }
    let ghost t = v@.subrange(a as int, n as int);
    let mut b: usize = n;
    while b > a && is_whitespace(v[b - 1])
        invariant
            a <= b <= n == v.len(),
            t == v@.subrange(a as int, n as int),
            forall|k: int| b <= k < n ==> is_ws(v@[k]),
        decreases b,
    {
        b = b - 1;
    }
    proof {
        assert forall|k: int| t.len() - (n - b) <= k < t.len() implies is_ws(t[k]) by {
            assert(t[k] == v@[a + k]);
        }
        if n - b < t.len() {
            assert(t[t.len() - 1 - (n - b)] == v@[b - 1]);
        }
        lemma_trail_ws(t, (n - b) as int);
        assert(t.subrange(0, t.len() - (n - b)) =~= v@.subrange(a as int, b as int));
    }
    from_range(&v, a, b)
}

/// `str::split(c)`, each piece owned.
pub fn split_char(s: &str, c: char) -> (r: Vec<String>)
    ensures
        views(r@) == split_spec(s@, c),
{
    let v = to_chars(s);
    let n = v.len();
    let mut out: Vec<String> = Vec::new();
    let mut start: usize = 0;
    let mut i: usize = 0;
    assert(v@.subrange(0, n as int) =~= v@);
    assert(views(out@) =~= Seq::<Seq<char>>::empty());
    while i < n
        invariant
            start <= i <= n == v.len(),
            v@ == s@,
            forall|k: int| start <= k < i ==> v@[k] != c,
            split_spec(s@, c) == views(out@) + split_spec(v@.subrange(start as int, n as int), c),
        decreases n - i,
    {
        if v[i] == c {
            let ghost t = v@.subrange(start as int, n as int);
            proof {
                assert forall|k: int| 0 <= k < i - start implies t[k] != c by {
                    assert(t[k] == v@[start + k]);
                }
                assert(t[i - start] == v@[i as int]);
                lemma_first_index(t, c, i - start);
                assert(t.subrange(0, i - start) =~= v@.subrange(start as int, i as int));
                assert(t.subrange(i - start + 1, t.len() as int) =~= v@.subrange(
                    i + 1,
                    n as int,
                ));
            }
            let piece = from_range(&v, start, i);
            let ghost old_out = out@;
            out.push(piece);
            proof {
                assert(views(out@) =~= views(old_out).push(piece@));
            }
            start = i + 1;
        }
        i = i + 1;
    }
    let ghost t = v@.subrange(start as int, n as int);
    proof {
        assert forall|k: int| 0 <= k < t.len() implies t[k] != c by {
            assert(t[k] == v@[start + k]);
        }
        lemma_first_index(t, c, t.len() as int);
    }
    let piece = from_range(&v, start, n);
    let ghost old_out = out@;
    out.push(piece);
    proof {
        assert(views(out@) =~= views(old_out).push(piece@));
    }
    out
}

/// `str::lines`, each line owned.
pub fn lines(s: &str) -> (r: Vec<String>)
    ensures
        views(r@) == lines_spec(s@),
{
    let v = to_chars(s);
    let n = v.len();
    let mut out: Vec<String> = Vec::new();
    let mut start: usize = 0;
    let mut i: usize = 0;
    assert(v@.subrange(0, n as int) =~= v@);
    assert(views(out@) =~= Seq::<Seq<char>>::empty());
    while i < n
        invariant
            start <= i <= n == v.len(),
            v@ == s@,
            forall|k: int| start <= k < i ==> v@[k] != '\n',
            lines_spec(s@) == views(out@) + lines_spec(v@.subrange(start as int, n as int)),
        decreases n - i,
    {
        if v[i] == '\n' {
            let ghost t = v@.subrange(start as int, n as int);
            proof {
                assert forall|k: int| 0 <= k < i - start implies t[k] != '\n' by {
                    assert(t[k] == v@[start + k]);
                }
                assert(t[i - start] == v@[i as int]);
                lemma_first_index(t, '\n', i - start);
                assert(t.subrange(0, i - start) =~= v@.subrange(start as int, i as int));
                assert(t.subrange(i - start + 1, t.len() as int) =~= v@.subrange(
                    i + 1,
                    n as int,
                ));
            }
            let end = if i > start && v[i - 1] == '\r' {
                i - 1
            } else {
                i
            };
            let piece = from_range(&v, start, end);
            proof {
                assert(piece@ =~= drop_cr(v@.subrange(start as int, i as int)));
            }
            let ghost old_out = out@;
            out.push(piece);
            proof {
                assert(views(out@) =~= views(old_out).push(piece@));
            }
            start = i + 1;
        }
        i = i + 1;
    }
    if start < n {
        let ghost t = v@.subrange(start as int, n as int);
        proof {
            assert forall|k: int| 0 <= k < t.len() implies t[k] != '\n' by {
                assert(t[k] == v@[start + k]);
            }
            lemma_first_index(t, '\n', t.len() as int);
        }
        let piece = from_range(&v, start, n);
        let ghost old_out = out@;
        out.push(piece);
        proof {
            assert(views(out@) =~= views(old_out).push(piece@));
        }
    } else {
        assert(views(out@) + lines_spec(v@.subrange(start as int, n as int)) =~= views(out@));
    }
    out
}

/// Whether `p` occurs in `v` at index `i`.
pub fn occurs_at_exec(v: &Vec<char>, p: &Vec<char>, i: usize) -> (r: bool)
    ensures
        r == occurs_at(v@, p@, i as int),
{
    if i > v.len() || p.len() > v.len() - i {
        return false;
    }
    let mut j: usize = 0;
    while j < p.len()
        invariant
            i + p.len() <= v.len(),
            j <= p.len(),
            forall|k: int| 0 <= k < j ==> v@[i + k] == p@[k],
        decreases p.len() - j,
    {
        if v[i + j] != p[j] {
            assert(v@.subrange(i as int, i + p.len())[j as int] != p@[j as int]);
            return false;
        }
        j = j + 1;
    }
    assert(v@.subrange(i as int, i + p.len()) =~= p@);
    true
}

/// `str::contains` for a string pattern.
pub fn contains(s: &str, pat: &str) -> (r: bool)
    ensures
        r == contains_spec(s@, pat@),
{
    let v = to_chars(s);
    let p = to_chars(pat);
    if p.len() > v.len() {
        assert forall|i: int| !occurs_at(s@, pat@, i) by {}
        return false;
    }
    if p.len() == 0 {
        assert(s@.subrange(0, 0) =~= pat@);
        assert(occurs_at(s@, pat@, 0));
        return true;
    }
    let mut i: usize = 0;
    while i <= v.len() - p.len()
        invariant
            0 < p.len() <= v.len(),
            v@ == s@,
            p@ == pat@,
            i <= v.len() - p.len() + 1,
            forall|k: int| 0 <= k < i ==> !occurs_at(s@, pat@, k),
        decreases v.len() - p.len() + 1 - i,
    {
        if occurs_at_exec(&v, &p, i) {
            return true;
        }
        i = i + 1;
    }
    assert forall|k: int| !occurs_at(s@, pat@, k) by {
        if 0 <= k < i {
        }
    }
    false
}

/// `str::starts_with` for a string pattern.
pub fn starts_with(s: &str, pat: &str) -> (r: bool)
    ensures
        r == starts_with_spec(s@, pat@),
{
    let v = to_chars(s);
    let p = to_chars(pat);
    occurs_at_exec(&v, &p, 0)
}

/// `str::ends_with` for a string pattern.
pub fn ends_with(s: &str, pat: &str) -> (r: bool)
    ensures
        r == ends_with_spec(s@, pat@),
{
    let v = to_chars(s);
    let p = to_chars(pat);
    if p.len() > v.len() {
        return false;
    }
    occurs_at_exec(&v, &p, v.len() - p.len())
}

/// `str::trim_end_matches(c)` for a single character, returned owned.
pub fn trim_end_char(s: &str, c: char) -> (r: String)
    ensures
        r@ == trim_end_char_spec(s@, c),
{
    let v = to_chars(s);
    let n = v.len();
    let mut b: usize = n;
    while b > 0 && v[b - 1] == c
        invariant
            b <= n == v.len(),
            v@ == s@,
            forall|k: int| b <= k < n ==> v@[k] == c,
        decreases b,
    {
        b = b - 1;
    }
    proof {
        lemma_trail_count(v@, c, (n - b) as int);
    }
    from_range(&v, 0, b)
}

/// Whether `a` sorts before or equal to `b` (`a <= b` on `str`).
pub fn lex_le_exec(a: &str, b: &str) -> (r: bool)
    ensures
        r == lex_le(a@, b@),
{
    let va = to_chars(a);
    let vb = to_chars(b);
    let mut i: usize = 0;
    assert(a@.subrange(0, a@.len() as int) =~= a@);
    assert(b@.subrange(0, b@.len() as int) =~= b@);
    while i < va.len() && i < vb.len() && va[i] == vb[i]
        invariant
            i <= va@.len(),
            i <= vb@.len(),
            va@ == a@,
            vb@ == b@,
            lex_le(a@, b@) == lex_le(a@.subrange(i as int, a@.len() as int), b@.subrange(
                i as int,
                b@.len() as int,
            )),
        decreases va@.len() - i,
    {
        let ghost x = a@.subrange(i as int, a@.len() as int);
        let ghost y = b@.subrange(i as int, b@.len() as int);
        assert(x.drop_first() =~= a@.subrange(i + 1, a@.len() as int));
        assert(y.drop_first() =~= b@.subrange(i + 1, b@.len() as int));
        i = i + 1;
    }
    let ghost x = a@.subrange(i as int, a@.len() as int);
    let ghost y = b@.subrange(i as int, b@.len() as int);
    if i == va.len() {
        true
    } else if i == vb.len() {
        false
    } else {
        assert(x[0] == va@[i as int] && y[0] == vb@[i as int]);
        va[i] < vb[i]
    }
}

/// The strings in ascending order (as `Vec::sort` orders `String`s).
pub fn sort_strings(v: &Vec<String>) -> (r: Vec<String>)
    ensures
        views(r@) == views(v@).sort_by(lex_order()),
{
    let mut out: Vec<String> = Vec::new();
    let mut i: usize = 0;
    proof {
        lemma_lex_total_ordering();
        assert(views(v@.subrange(0, 0)) =~= Seq::<Seq<char>>::empty());
        assert(views(out@) =~= Seq::<Seq<char>>::empty());
    }
    while i < v.len()
        invariant
            i <= v@.len(),
            vstd::relations::total_ordering(lex_order()),
            vstd::relations::sorted_by(views(out@), lex_order()),
            views(out@).to_multiset() == views(v@.subrange(0, i as int)).to_multiset(),
        decreases v@.len() - i,
    {
        let x = v[i].clone();
        let mut pos: usize = 0;
        while pos < out.len() && lex_le_exec(out[pos].as_str(), x.as_str())
            invariant
                pos <= out@.len(),
                forall|k: int| 0 <= k < pos ==> lex_le(#[trigger] views(out@)[k], x@),
            decreases out@.len() - pos,
        {
            pos = pos + 1;
        }
        let ghost before = views(out@);
        proof {
            if pos < out@.len() {
                lemma_lex_refl_total(before[pos as int], x@);
            }
            assert forall|k: int| pos <= k < before.len() implies lex_le(x@, #[trigger] before[k]) by {
                if k > pos {
                    assert(lex_order()(before[pos as int], before[k]));
                    lemma_lex_trans(x@, before[pos as int], before[k]);
                }
            }
        }
        out.insert(pos, x);
        proof {
            assert(views(out@) =~= before.insert(pos as int, x@));
            let after = views(out@);
            assert forall|a: int, b: int| 0 <= a < b < after.len() implies #[trigger] lex_order()(
                after[a],
                after[b],
            ) by {
                if a < pos && b < pos {
                    assert(lex_order()(before[a], before[b]));
                } else if a < pos && b == pos {
                } else if a < pos && b > pos {
                    assert(lex_order()(before[a], before[b - 1]));
                } else if a == pos {
                } else {
                    assert(lex_order()(before[a - 1], before[b - 1]));
                }
            }
            assert(views(v@.subrange(0, i + 1)) =~= views(v@.subrange(0, i as int)).push(x@));
            vstd::seq_lib::to_multiset_insert(before, pos as int, x@);
            vstd::seq_lib::to_multiset_build(views(v@.subrange(0, i as int)), x@);
        }
        i = i + 1;
    }
    proof {
        assert(v@.subrange(0, v@.len() as int) =~= v@);
        views(v@).lemma_sort_by_ensures(lex_order());
        vstd::seq_lib::lemma_sorted_unique(views(out@), views(v@).sort_by(lex_order()), lex_order());
    }
    out
}

/// Equality of two string slices.
pub fn str_eq(a: &str, b: &str) -> (r: bool)
    ensures
        r == (a@ == b@),
{
    let va = to_chars(a);
    let vb = to_chars(b);
    if va.len() != vb.len() {
        return false;
    }
    let r = occurs_at_exec(&va, &vb, 0);
    proof {
        if r {
            assert(va@.subrange(0, vb@.len() as int) =~= va@);
        } else {
            if a@ == b@ {
                assert(va@.subrange(0, vb@.len() as int) =~= vb@);
            }
        }
    }
    r
}

/// The decimal digit character for `d < 10`.
pub fn digit(d: usize) -> (c: char)
    requires
        d < 10,
    ensures
        c == digit_char(d as nat),
{
    match d {
        0 => '0',
        1 => '1',
        2 => '2',
        3 => '3',
        4 => '4',
        5 => '5',
        6 => '6',
        7 => '7',
        8 => '8',
        _ => '9',
    }
}

/// Decimal representation of `n`, as `{}` prints it.
pub fn decimal_string(n: usize) -> (r: String)
    ensures
        r@ == decimal(n as nat),
    decreases n,
{
    if n < 10 {
        let mut s = String::new();
        push_char(&mut s, digit(n));
        assert(s@ =~= decimal(n as nat));
        s
    } else {
        let mut s = decimal_string(n / 10);
        push_char(&mut s, digit(n % 10));
        s
    }
}

/// `n` spaces.
pub fn spaces_string(n: usize) -> (r: String)
    ensures
        r@ == spaces(n as nat),
{
    let mut s = String::new();
    let mut i: usize = 0;
    while i < n
        invariant
            i <= n,
            s@ == spaces(i as nat),
        decreases n - i,
    {
        push_char(&mut s, ' ');
        i = i + 1;
        assert(s@ =~= spaces(i as nat));
    }
    s
}

/// `format!("{:<w}", s)`.
pub fn pad_right_string(s: &str, w: usize) -> (r: String)
    ensures
        r@ == pad_right(s@, w as nat),
{
    let n = s.unicode_len();
    let mut r = String::from_str(s);
    if n < w {
        let pad = spaces_string(w - n);
        r.append(pad.as_str());
    }
    r
}

/// `format!("{:>w}", s)`.
pub fn pad_left_string(s: &str, w: usize) -> (r: String)
    ensures
        r@ == pad_left(s@, w as nat),
{
    let n = s.unicode_len();
    if n < w {
        let mut r = spaces_string(w - n);
        r.append(s);
        r
    } else {
        String::from_str(s)
    }
}

/// `parts.join(sep)`.
pub fn join(parts: &Vec<String>, sep: &str) -> (r: String)
    ensures
        r@ == join_spec(views(parts@), sep@),
{
    let mut r = String::new();
    let mut i: usize = 0;
    while i < parts.len()
        invariant
            i <= parts.len(),
            r@ == join_spec(views(parts@.subrange(0, i as int)), sep@),
        decreases parts.len() - i,
    {
        proof {
            lemma_join_push(views(parts@.subrange(0, i as int)), sep@, parts@[i as int]@);
            assert(views(parts@.subrange(0, i + 1)) =~= views(parts@.subrange(0, i as int)).push(
                parts@[i as int]@,
            ));
        }
        if i > 0 {
            r.append(sep);
        }
        r.append(parts[i].as_str());
        i = i + 1;
    }
    assert(parts@.subrange(0, parts.len() as int) =~= parts@);
    r
}

} // verus!
