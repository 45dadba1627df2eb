//! Character-level string utilities: comparison, trimming, and
//! splitting at a separator, with the facts the parsers build on.
use vstd::prelude::*;

verus! {

/// Relies on String::push: appends the given character to the end of
/// the string.
#[verifier::external_body]
pub(crate) fn push_char(s: &mut String, c: char)
    ensures
        final(s)@ == old(s)@ + seq![c],
{
    s.push(c);
}

/// Compares two strings character by character.
pub fn str_eq(a: &str, b: &str) -> (r: bool)
    ensures
        r == (a@ == b@),
{
    let alen = a.unicode_len();
    let blen = b.unicode_len();
    if alen != blen {
        return false;
    }
    for i in 0..alen
        invariant
            alen == a@.len(),
            alen == b@.len(),
            forall|k: int| 0 <= k < i ==> a@[k] == b@[k],
    {
        if a.get_char(i) != b.get_char(i) {
            return false;
        }
    }
    proof {
        assert(a@ =~= b@);
    }
    true
}

/// The characters that trimming strips from a field's edges: the
/// Unicode white-space set, the one `str::trim` goes by.
pub open spec fn is_field_space(c: char) -> bool {
    c as int == 0x09 || c as int == 0x0A || c as int == 0x0B || c as int == 0x0C || c as int
        == 0x0D || c as int == 0x20 || c as int == 0x85 || c as int == 0xA0 || c as int == 0x1680
        || (0x2000 <= c as int <= 0x200A) || c as int == 0x2028 || c as int == 0x2029 || c as int
        == 0x202F || c as int == 0x205F || c as int == 0x3000
}

/// `s` with its leading whitespace dropped.
pub open spec fn trim_front(s: Seq<char>) -> Seq<char>
    decreases s.len(),
{
    if s.len() > 0 && is_field_space(s[0]) {
        trim_front(s.drop_first())
    } else {
        s
    }
}

/// `s` with its trailing whitespace dropped.
pub open spec fn trim_back(s: Seq<char>) -> Seq<char>
    decreases s.len(),
{
    if s.len() > 0 && is_field_space(s.last()) {
        trim_back(s.drop_last())
    } else {
        s
    }
}

/// `s` with whitespace dropped from both edges.
pub open spec fn trimmed(s: Seq<char>) -> Seq<char> {
    trim_back(trim_front(s))
}

/// Whether the character counts as white space.
fn is_space_char(c: char) -> (r: bool)
    ensures
        r == is_field_space(c),
{
    let v = c as u32;
    v == 0x09 || v == 0x0A || v == 0x0B || v == 0x0C || v == 0x0D || v == 0x20 || v == 0x85
        || v == 0xA0 || v == 0x1680 || (0x2000 <= v && v <= 0x200A) || v == 0x2028 || v == 0x2029
        || v == 0x202F || v == 0x205F || v == 0x3000
}

/// Strips whitespace from both ends of a string.
pub fn trim_str(s: &str) -> (r: String)
    ensures
        r@ == trimmed(s@),
{
    let n = s.unicode_len();
    proof {
        assert(s@.subrange(0, n as int) =~= s@);
    }
    let mut start: usize = 0;
    while start < n && is_space_char(s.get_char(start))
        invariant
            start <= n,
            n == s@.len(),
            trim_front(s@) == trim_front(s@.subrange(start as int, n as int)),
        decreases n - start,
    {
        proof {
            let sub = s@.subrange(start as int, n as int);
            assert(sub.drop_first() =~= s@.subrange(start + 1, n as int));
        }
        start += 1;
    }
    proof {
        assert(trim_front(s@) =~= s@.subrange(start as int, n as int));
    }
    let mut end: usize = n;
    while end > start && is_space_char(s.get_char(end - 1))
        invariant
            start <= end <= n,
            n == s@.len(),
            trim_front(s@) == s@.subrange(start as int, n as int),
            trim_back(s@.subrange(start as int, n as int)) == trim_back(
                s@.subrange(start as int, end as int),
            ),
        decreases end,
    {
        proof {
            let sub = s@.subrange(start as int, end as int);
            assert(sub.drop_last() =~= s@.subrange(start as int, end - 1));
        }
        end -= 1;
    }
    proof {
        assert(trim_back(s@.subrange(start as int, end as int)) =~= s@.subrange(
            start as int,
            end as int,
        ));
    }
    let piece = s.substring_char(start, end);
    piece.to_owned()
}

/// The pieces of `s` between occurrences of `sep`, in order. A string
/// without the separator is one piece; each separator opens a new one.
pub open spec fn split_fields(s: Seq<char>, sep: char) -> Seq<Seq<char>>
    decreases s.len(),
{
    if s.len() == 0 {
        seq![Seq::<char>::empty()]
    } else if s[0] == sep {
        seq![Seq::<char>::empty()] + split_fields(s.drop_first(), sep)
    } else {
        let rest = split_fields(s.drop_first(), sep);
        seq![seq![s[0]] + rest[0]] + rest.drop_first()
    }
}

/// A split always yields at least one piece.
pub proof fn lemma_split_nonempty(s: Seq<char>, sep: char)
    ensures
        split_fields(s, sep).len() >= 1,
    decreases s.len(),
{
    if s.len() > 0 {
        lemma_split_nonempty(s.drop_first(), sep);
    }
}

/// How one more character extends a split: a separator opens an empty
/// piece, anything else lands at the end of the last piece.
proof fn lemma_split_push(t: Seq<char>, c: char, sep: char)
    ensures
        c == sep ==> split_fields(t.push(c), sep) == split_fields(t, sep).push(
            Seq::<char>::empty(),
        ),
        c != sep ==> split_fields(t.push(c), sep) == split_fields(t, sep).update(
            split_fields(t, sep).len() - 1,
            split_fields(t, sep).last().push(c),
        ),
    decreases t.len(),
{
    lemma_split_nonempty(t, sep);
    if t.len() == 0 {
        assert(t.push(c).drop_first() =~= Seq::<char>::empty());
        assert(t.push(c)[0] == c);
        assert(t =~= Seq::<char>::empty());
        assert(split_fields(Seq::<char>::empty(), sep) =~= seq![Seq::<char>::empty()]);
        if c == sep {
            assert(split_fields(t.push(c), sep) =~= split_fields(t, sep).push(
                Seq::<char>::empty(),
            ));
        } else {
            assert(seq![c] + split_fields(Seq::<char>::empty(), sep)[0] =~= seq![c]);
            assert(split_fields(t.push(c), sep) =~= split_fields(t, sep).update(
                0,
                split_fields(t, sep).last().push(c),
            ));
        }
    } else {
        lemma_split_push(t.drop_first(), c, sep);
        lemma_split_nonempty(t.drop_first(), sep);
        assert(t.push(c).drop_first() =~= t.drop_first().push(c));
        assert(t.push(c)[0] == t[0]);
        if c == sep {
            if t[0] == sep {
                assert(split_fields(t.push(c), sep) =~= split_fields(t, sep).push(
                    Seq::<char>::empty(),
                ));
            } else {
                assert(split_fields(t.drop_first().push(c), sep)[0] == split_fields(
                    t.drop_first(),
                    sep,
                )[0]);
                assert(split_fields(t.push(c), sep) =~= split_fields(t, sep).push(
                    Seq::<char>::empty(),
                ));
            }
        } else {
            if t[0] == sep {
                assert(split_fields(t.push(c), sep) =~= split_fields(t, sep).update(
                    split_fields(t, sep).len() - 1,
                    split_fields(t, sep).last().push(c),
                ));
            } else {
                assert(split_fields(t.push(c), sep) =~= split_fields(t, sep).update(
                    split_fields(t, sep).len() - 1,
                    split_fields(t, sep).last().push(c),
                ));
            }
        }
    }
}

/// A string free of the separator is a single piece.
pub proof fn lemma_split_no_sep(s: Seq<char>, sep: char)
    requires
        forall|i: int| 0 <= i < s.len() ==> s[i] != sep,
    ensures
        split_fields(s, sep) == seq![s],
    decreases s.len(),
{
    if s.len() == 0 {
        assert(s =~= Seq::<char>::empty());
        assert(split_fields(s, sep) =~= seq![s]);
    } else {
        assert(forall|i: int| 0 <= i < s.drop_first().len() ==> s.drop_first()[i] != sep);
        lemma_split_no_sep(s.drop_first(), sep);
        assert(seq![s[0]] + s.drop_first() =~= s);
        assert(seq![s.drop_first()].drop_first() =~= Seq::<Seq<char>>::empty());
        assert(split_fields(s, sep) =~= seq![s]);
    }
}

/// The last piece after a separator is whatever follows it, provided
/// the separator does not occur there again.
pub proof fn lemma_split_last(t: Seq<char>, b: Seq<char>, sep: char)
    requires
        forall|i: int| 0 <= i < b.len() ==> b[i] != sep,
    ensures
        split_fields(t + seq![sep] + b, sep).len() >= 2,
        split_fields(t + seq![sep] + b, sep).last() == b,
    decreases t.len(),
{
    let s = t + seq![sep] + b;
    if t.len() == 0 {
        assert(s[0] == sep);
        assert(s.drop_first() =~= b);
        lemma_split_no_sep(b, sep);
        assert(split_fields(s, sep).last() == b);
    } else {
        lemma_split_last(t.drop_first(), b, sep);
        let inner = t.drop_first() + seq![sep] + b;
        assert(s.drop_first() =~= inner);
        assert(s[0] == t[0]);
        let rest = split_fields(inner, sep);
        if t[0] == sep {
            assert(split_fields(s, sep).last() == rest.last());
        } else {
            assert(split_fields(s, sep) =~= seq![seq![t[0]] + rest[0]] + rest.drop_first());
            assert(rest.drop_first().len() >= 1);
            assert(split_fields(s, sep).last() == rest.last());
        }
    }
}

/// The views of a sequence of strings.
pub open spec fn field_views(v: Seq<String>) -> Seq<Seq<char>> {
    v.map_values(|x: String| x@)
}

/// Splits a string at every occurrence of a separator.
pub fn split_str(s: &str, sep: char) -> (r: Vec<String>)
    ensures
        field_views(r@) == split_fields(s@, sep),
{
    let n = s.unicode_len();
    let mut raw: Vec<String> = Vec::new();
    let mut cur: String = String::new();
    proof {
        assert(s@.subrange(0, 0) =~= Seq::<char>::empty());
        assert(field_views(raw@).push(cur@) =~= split_fields(s@.subrange(0, 0), sep));
    }
    for i in 0..n
        invariant
            n == s@.len(),
            field_views(raw@).push(cur@) == split_fields(s@.subrange(0, i as int), sep),
    {
        let c = s.get_char(i);
        proof {
            assert(s@.subrange(0, i + 1) =~= s@.subrange(0, i as int).push(s@[i as int]));
            lemma_split_push(s@.subrange(0, i as int), c, sep);
            lemma_split_nonempty(s@.subrange(0, i as int), sep);
        }
        if c == sep {
            let finished = cur;
            cur = String::new();
            raw.push(finished);
            proof {
                assert(field_views(raw@).push(cur@) =~= split_fields(s@.subrange(0, i + 1), sep));
            }
        } else {
            let ghost cur_before = cur@;
            push_char(&mut cur, c);
            proof {
                let prev = split_fields(s@.subrange(0, i as int), sep);
                assert(cur@ =~= cur_before.push(c));
                assert(prev.last() == cur_before);
                assert(field_views(raw@).push(cur@) =~= prev.update(
                    prev.len() - 1,
                    prev.last().push(c),
                ));
            }
        }
    }
    raw.push(cur);
    proof {
        assert(s@.subrange(0, n as int) =~= s@);
        assert(field_views(raw@) =~= split_fields(s@, sep));
    }
    raw
}

/// One trimmed field of a comma-separated line.
pub open spec fn csv_field(line: Seq<char>, j: int) -> Seq<char> {
    trimmed(split_fields(line, ',')[j])
}

/// Splits a line at its commas and strips whitespace from every field.
pub fn split_csv_line(s: &str) -> (r: Vec<String>)
    ensures
        r@.len() == split_fields(s@, ',').len(),
        forall|j: int| 0 <= j < r@.len() ==> r@[j]@ == csv_field(s@, j),
{
    let raw = split_str(s, ',');
    let mut out: Vec<String> = Vec::new();
    let field_count = raw.len();
    proof {
        assert(raw@.len() == field_views(raw@).len());
    }
    for j in 0..field_count
        invariant
            field_count == raw@.len(),
            field_views(raw@) == split_fields(s@, ','),
            out@.len() == j,
            forall|k: int| 0 <= k < j ==> out@[k]@ == csv_field(s@, k),
    {
        out.push(trim_str(raw[j].as_str()));
    }
    out
}

} // verus!
