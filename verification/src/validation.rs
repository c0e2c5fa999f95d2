//! Shape checks on client-chosen identifiers and escaping of text that is
//! matched with `LIKE`.
use vstd::prelude::*;
use vstd::string::StringExecFns;
use crate::text::str_chars;

verus! {

/// A character allowed inside a key segment: a lowercase ASCII letter or an
/// ASCII digit.
pub open spec fn is_key_char(c: char) -> bool {
    ('a' <= c && c <= 'z') || ('0' <= c && c <= '9')
}

/// The pieces of `s` between hyphens, in order, as `str::split('-')` yields
/// them: one more piece than there are hyphens, empty pieces included.
pub open spec fn hyphen_segments(s: Seq<char>) -> Seq<Seq<char>>
    decreases s.len(),
{
    if s.len() == 0 {
        seq![Seq::<char>::empty()]
    } else {
        let segs = hyphen_segments(s.drop_last());
        if s.last() == '-' {
            segs.push(Seq::<char>::empty())
        } else {
            segs.update(segs.len() - 1, segs.last().push(s.last()))
        }
    }
}

/// A segment that is non-empty and made of key characters only.
pub open spec fn segment_valid(seg: Seq<char>) -> bool {
    seg.len() > 0 && forall|i: int| 0 <= i < seg.len() ==> is_key_char(#[trigger] seg[i])
}

/// The first segment that is not valid, if any.
pub open spec fn first_invalid(segs: Seq<Seq<char>>) -> Option<Seq<char>>
    decreases segs.len(),
{
    if segs.len() == 0 {
        None
    } else if !segment_valid(segs[0]) {
        Some(segs[0])
    } else {
        first_invalid(segs.drop_first())
    }
}

/// The message for an empty segment.
pub open spec fn empty_segment_message() -> Seq<char> {
    "key must not be empty and must not have leading, trailing, or double hyphens"@
}

/// The message that rejects a key whose first invalid segment is `seg`.
pub open spec fn key_error(seg: Seq<char>) -> Seq<char> {
    if seg.len() == 0 {
        empty_segment_message()
    } else {
        "key segment '"@ + seg + "' is invalid \u{2014} only lowercase letters and digits are allowed"@
    }
}

/// The kebab-case shape `^[a-z0-9]+(-[a-z0-9]+)*$`: non-empty, made of key
/// characters and hyphens, with no hyphen first, last or next to another.
pub open spec fn is_kebab_case(s: Seq<char>) -> bool {
    &&& s.len() > 0
    &&& forall|i: int| 0 <= i < s.len() ==> is_key_char(#[trigger] s[i]) || s[i] == '-'
    &&& s[0] != '-'
    &&& s.last() != '-'
    &&& forall|i: int| 0 <= i < s.len() - 1 ==> !(#[trigger] s[i] == '-' && s[i + 1] == '-')
}

proof fn lemma_segments_nonempty(s: Seq<char>)
    ensures
        hyphen_segments(s).len() >= 1,
    decreases s.len(),
{
    if s.len() > 0 {
        lemma_segments_nonempty(s.drop_last());
    }
}

/// Splits a character sequence at its hyphens.
fn split_hyphens(chars: &Vec<char>) -> (segs: Vec<Vec<char>>)
    ensures
        segs@.len() == hyphen_segments(chars@).len(),
        forall|j: int| 0 <= j < segs@.len() ==> (#[trigger] segs@[j])@ == hyphen_segments(chars@)[j],
{
    let mut segs: Vec<Vec<char>> = Vec::new();
    let mut cur: Vec<char> = Vec::new();
    let mut i: usize = 0;
    proof {
        assert(chars@.take(0) =~= Seq::<char>::empty());
    }
    while i < chars.len()
        invariant
            i <= chars.len(),
            hyphen_segments(chars@.take(i as int)).len() == segs@.len() + 1,
            forall|j: int|
                0 <= j < segs@.len() ==> (#[trigger] segs@[j])@ == hyphen_segments(
                    chars@.take(i as int),
                )[j],
            cur@ == hyphen_segments(chars@.take(i as int)).last(),
        decreases chars.len() - i,
    {
        let ghost before = chars@.take(i as int);
        let ghost after = chars@.take(i + 1);
        proof {
            assert(after.drop_last() =~= before);
            lemma_segments_nonempty(before);
        }
        let c = chars[i];
        if c == '-' {
            segs.push(cur);
            cur = Vec::new();
            proof {
                assert(cur@ =~= Seq::<char>::empty());
            }
        } else {
            cur.push(c);
        }
        i = i + 1;
    }
    proof {
        assert(chars@.take(chars@.len() as int) =~= chars@);
    }
    segs.push(cur);
    segs
}

/// Checks that `key` has the kebab-case shape. On failure the message names
/// the first offending segment: an empty one (leading, trailing or double
/// hyphen) or one with a character other than a lowercase letter or digit.
#[verifier::loop_isolation(false)]
pub fn validate_key(key: &str) -> (r: Result<(), String>)
    ensures
        r is Ok <==> first_invalid(hyphen_segments(key@)) is None,
        r is Ok <==> is_kebab_case(key@),
        r matches Err(m) ==> m@ == key_error(first_invalid(hyphen_segments(key@))->0),
{
    proof {
        lemma_valid_key_is_kebab_case(key@);
    }
    let chars = str_chars(key);
    let segs = split_hyphens(&chars);
    let ghost all = hyphen_segments(key@);
    let mut k: usize = 0;
    proof {
        assert(all.skip(0) =~= all);
    }
    while k < segs.len()
        invariant
            chars@ == key@,
            segs@.len() == all.len(),
            forall|j: int| 0 <= j < segs@.len() ==> (#[trigger] segs@[j])@ == all[j],
            k <= segs.len(),
            first_invalid(all) == first_invalid(all.skip(k as int)),
        decreases segs.len() - k,
    {
        let slice = &segs[k];
        let ghost rest = all.skip(k as int);
        proof {
            assert(rest[0] == slice@);
            assert(rest.drop_first() =~= all.skip(k + 1));
        }
        if slice.len() == 0 {
            proof {
                assert(!segment_valid(rest[0]));
                assert(first_invalid(rest) == Some(rest[0]));
            }
            let mut m = String::new();
            m.append("key must not be empty and must not have leading, trailing, or double hyphens");
            return Err(m);
        }
        let mut p: usize = 0;
        while p < slice.len()
            invariant
                p <= slice.len(),
                forall|q: int| 0 <= q < p ==> is_key_char(#[trigger] slice@[q]),
            decreases slice.len() - p,
        {
            let c = slice[p];
            if !(('a' <= c && c <= 'z') || ('0' <= c && c <= '9')) {
                let mut m = String::new();
                m.append("key segment '");
                let mut t: usize = 0;
                while t < slice.len()
                    invariant
                        t <= slice.len(),
                        m@ == "key segment '"@ + slice@.take(t as int),
                    decreases slice.len() - t,
                {
                    m.push(slice[t]);
                    proof {
                        assert(slice@.take(t + 1) =~= slice@.take(t as int).push(slice@[t as int]));
                    }
                    t = t + 1;
                }
                proof {
                    assert(slice@.take(slice@.len() as int) =~= slice@);
                    assert(!is_key_char(slice@[p as int]));
                    assert(!segment_valid(rest[0]));
                    assert(first_invalid(rest) == Some(rest[0]));
                }
                m.append("' is invalid \u{2014} only lowercase letters and digits are allowed");
                return Err(m);
            }
            p = p + 1;
        }
        proof {
            assert(segment_valid(rest[0]));
        }
        k = k + 1;
    }
    proof {
        assert(all.skip(segs@.len() as int) =~= Seq::<Seq<char>>::empty());
    }
    Ok(())
}

/// The escaped form of one character: a backslash, `%` or `_` gets a
/// backslash in front of it, any other character stands as it is.
pub open spec fn escape_char(c: char) -> Seq<char> {
    if c == '\\' || c == '%' || c == '_' {
        seq!['\\', c]
    } else {
        seq![c]
    }
}

/// `s` with every backslash, `%` and `_` escaped by a backslash.
pub open spec fn escape_like(s: Seq<char>) -> Seq<char>
    decreases s.len(),
{
    if s.len() == 0 {
        Seq::empty()
    } else {
        escape_like(s.drop_last()) + escape_char(s.last())
    }
}

/// The text that a `LIKE` pattern with `\` as its escape character matches,
/// when the pattern has no unescaped wildcard; `None` when it has one (`%`
/// or `_`) or ends in a lone backslash.
pub open spec fn like_literal(p: Seq<char>) -> Option<Seq<char>>
    decreases p.len(),
{
    if p.len() == 0 {
        Some(Seq::empty())
    } else if p[0] == '\\' {
        if p.len() < 2 {
            None
        } else {
            match like_literal(p.skip(2)) {
                Some(t) => Some(seq![p[1]] + t),
                None => None,
            }
        }
    } else if p[0] == '%' || p[0] == '_' {
        None
    } else {
        match like_literal(p.drop_first()) {
            Some(t) => Some(seq![p[0]] + t),
            None => None,
        }
    }
}

/// Escapes the `LIKE` wildcards `%` and `_`, and the escape character `\`
/// itself, so that the result matches `input` literally.
pub fn escape_like_wildcards(input: &str) -> (r: String)
    ensures
        r@ == escape_like(input@),
{
    let chars = str_chars(input);
    let mut r = String::new();
    let mut i: usize = 0;
    proof {
        assert(chars@.take(0) =~= Seq::<char>::empty());
    }
    while i < chars.len()
        invariant
            i <= chars.len(),
            r@ == escape_like(chars@.take(i as int)),
        decreases chars.len() - i,
    {
        let c = chars[i];
        if c == '\\' || c == '%' || c == '_' {
            r.push('\\');
        }
        r.push(c);
        proof {
            assert(chars@.take(i + 1).drop_last() =~= chars@.take(i as int));
            assert(r@ =~= escape_like(chars@.take(i + 1)));
        }
        i = i + 1;
    }
    proof {
        assert(chars@.take(chars@.len() as int) =~= chars@);
    }
    r
}

proof fn lemma_escape_like_append(a: Seq<char>, b: Seq<char>)
    ensures
        escape_like(a + b) == escape_like(a) + escape_like(b),
    decreases b.len(),
{
    if b.len() == 0 {
        assert(a + b =~= a);
        assert(escape_like(a) + escape_like(b) =~= escape_like(a));
    } else {
        lemma_escape_like_append(a, b.drop_last());
        assert((a + b).drop_last() =~= a + b.drop_last());
        assert((a + b).last() == b.last());
        assert(escape_like(a + b) =~= escape_like(a) + escape_like(b));
    }
}

/// Escaping leaves no wildcard active: the escaped text, used as a `LIKE`
/// pattern, matches exactly the original text.
pub proof fn lemma_escape_like_matches_literally(s: Seq<char>)
    ensures
        like_literal(escape_like(s)) == Some(s),
    decreases s.len(),
{
    if s.len() > 0 {
        let c = s[0];
        let t = s.drop_first();
        assert(s =~= seq![c] + t);
        lemma_escape_like_append(seq![c], t);
        assert(seq![c].drop_last() =~= Seq::<char>::empty());
        assert(escape_like(Seq::<char>::empty()) =~= Seq::<char>::empty());
        assert(escape_like(seq![c]) == escape_like(seq![c].drop_last()) + escape_char(c));
        assert(escape_like(seq![c]) =~= escape_char(c));
        lemma_escape_like_matches_literally(t);
        let e = escape_like(s);
        if c == '\\' || c == '%' || c == '_' {
            assert(e.skip(2) =~= escape_like(t));
        } else {
            assert(e.drop_first() =~= escape_like(t));
        }
    }
}

proof fn lemma_first_invalid_none(segs: Seq<Seq<char>>)
    ensures
        first_invalid(segs) is None <==> forall|j: int|
            0 <= j < segs.len() ==> segment_valid(#[trigger] segs[j]),
    decreases segs.len(),
{
    if segs.len() > 0 {
        lemma_first_invalid_none(segs.drop_first());
        if segment_valid(segs[0]) && first_invalid(segs.drop_first()) is None {
            assert forall|j: int| 0 <= j < segs.len() implies segment_valid(#[trigger] segs[j]) by {
                if j > 0 {
                    assert(segs[j] == segs.drop_first()[j - 1]);
                }
            }
        }
        if forall|j: int| 0 <= j < segs.len() ==> segment_valid(#[trigger] segs[j]) {
            assert(segment_valid(segs[0]));
            assert forall|j: int|
                0 <= j < segs.drop_first().len() implies segment_valid(
                #[trigger] segs.drop_first()[j],
            ) by {
                assert(segs.drop_first()[j] == segs[j + 1]);
            }
        }
    }
}

/// Every character is a key character or a hyphen, the first is not a
/// hyphen, and no two hyphens are adjacent.
spec fn kebab_prefix(s: Seq<char>) -> bool {
    &&& forall|i: int| 0 <= i < s.len() ==> is_key_char(#[trigger] s[i]) || s[i] == '-'
    &&& s.len() > 0 ==> s[0] != '-'
    &&& forall|i: int| 0 <= i < s.len() - 1 ==> !(#[trigger] s[i] == '-' && s[i + 1] == '-')
}

spec fn key_chars(seg: Seq<char>) -> bool {
    forall|i: int| 0 <= i < seg.len() ==> is_key_char(#[trigger] seg[i])
}

spec fn leading_segments_valid(segs: Seq<Seq<char>>) -> bool {
    forall|j: int| 0 <= j < segs.len() - 1 ==> segment_valid(#[trigger] segs[j])
}

proof fn lemma_last_segment_nonempty(s: Seq<char>)
    ensures
        hyphen_segments(s).last().len() > 0 <==> (s.len() > 0 && s.last() != '-'),
{
    lemma_segments_nonempty(s);
    if s.len() > 0 {
        lemma_segments_nonempty(s.drop_last());
    }
}

proof fn lemma_kebab_prefix(s: Seq<char>)
    ensures
        leading_segments_valid(hyphen_segments(s)) && key_chars(hyphen_segments(s).last())
            <==> kebab_prefix(s),
    decreases s.len(),
{
    lemma_segments_nonempty(s);
    if s.len() == 0 {
        assert(hyphen_segments(s) =~= seq![Seq::<char>::empty()]);
    } else {
        let p = s.drop_last();
        let c = s.last();
        let sp = hyphen_segments(p);
        let ss = hyphen_segments(s);
        lemma_kebab_prefix(p);
        lemma_segments_nonempty(p);
        lemma_last_segment_nonempty(p);
        if c == '-' {
            assert(ss == sp.push(Seq::<char>::empty()));
            if leading_segments_valid(ss) && key_chars(ss.last()) {
                assert(segment_valid(ss[sp.len() - 1]));
                assert forall|j: int| 0 <= j < sp.len() - 1 implies segment_valid(
                    #[trigger] sp[j],
                ) by {
                    assert(sp[j] == ss[j]);
                }
                assert(sp.last() == ss[sp.len() - 1]);
                assert(kebab_prefix(p));
                assert forall|i: int| 0 <= i < s.len() - 1 implies !(#[trigger] s[i] == '-' && s[i
                    + 1] == '-') by {
                    if i < s.len() - 2 {
                        assert(s[i] == p[i] && s[i + 1] == p[i + 1]);
                    } else {
                        assert(s[i] == p.last());
                    }
                }
                assert forall|i: int| 0 <= i < s.len() implies is_key_char(#[trigger] s[i]) || s[i]
                    == '-' by {
                    if i < s.len() - 1 {
                        assert(s[i] == p[i]);
                    }
                }
                assert(s[0] == p[0]);
            }
            if kebab_prefix(s) {
                assert(p.len() > 0);
                assert(s[0] == p[0]);
                assert(p.last() == s[s.len() - 2]);
                assert(p.last() != '-');
                assert forall|i: int| 0 <= i < p.len() implies is_key_char(#[trigger] p[i]) || p[i]
                    == '-' by {
                    assert(p[i] == s[i]);
                }
                assert forall|i: int| 0 <= i < p.len() - 1 implies !(#[trigger] p[i] == '-' && p[i
                    + 1] == '-') by {
                    assert(p[i] == s[i] && p[i + 1] == s[i + 1]);
                }
                assert(kebab_prefix(p));
                assert forall|j: int| 0 <= j < ss.len() - 1 implies segment_valid(
                    #[trigger] ss[j],
                ) by {
                    assert(ss[j] == sp[j]);
                    if j == sp.len() - 1 {
                        assert(sp[j] == sp.last());
                    }
                }
                assert(key_chars(ss.last()));
            }
        } else {
            let last = sp.last().push(c);
            assert(ss == sp.update(sp.len() - 1, last));
            assert(ss.len() == sp.len());
            if leading_segments_valid(ss) && key_chars(ss.last()) {
                assert(ss.last() == last);
                assert(last[last.len() - 1] == c);
                assert(is_key_char(c));
                assert forall|i: int| 0 <= i < sp.last().len() implies is_key_char(
                    #[trigger] sp.last()[i],
                ) by {
                    assert(sp.last()[i] == last[i]);
                }
                assert forall|j: int| 0 <= j < sp.len() - 1 implies segment_valid(
                    #[trigger] sp[j],
                ) by {
                    assert(sp[j] == ss[j]);
                }
                assert(kebab_prefix(p));
                assert forall|i: int| 0 <= i < s.len() implies is_key_char(#[trigger] s[i]) || s[i]
                    == '-' by {
                    if i < s.len() - 1 {
                        assert(s[i] == p[i]);
                    }
                }
                assert forall|i: int| 0 <= i < s.len() - 1 implies !(#[trigger] s[i] == '-' && s[i
                    + 1] == '-') by {
                    if i < s.len() - 2 {
                        assert(s[i] == p[i] && s[i + 1] == p[i + 1]);
                    }
                }
                if p.len() > 0 {
                    assert(s[0] == p[0]);
                }
            }
            if kebab_prefix(s) {
                assert(is_key_char(s[s.len() - 1]) || s[s.len() - 1] == '-');
                assert forall|i: int| 0 <= i < p.len() implies is_key_char(#[trigger] p[i]) || p[i]
                    == '-' by {
                    assert(p[i] == s[i]);
                }
                assert forall|i: int| 0 <= i < p.len() - 1 implies !(#[trigger] p[i] == '-' && p[i
                    + 1] == '-') by {
                    assert(p[i] == s[i] && p[i + 1] == s[i + 1]);
                }
                if p.len() > 0 {
                    assert(s[0] == p[0]);
                }
                assert(kebab_prefix(p));
                assert forall|j: int| 0 <= j < ss.len() - 1 implies segment_valid(
                    #[trigger] ss[j],
                ) by {
                    assert(ss[j] == sp[j]);
                }
                assert forall|i: int| 0 <= i < ss.last().len() implies is_key_char(
                    #[trigger] ss.last()[i],
                ) by {
                    assert(ss.last() == last);
                    if i < sp.last().len() {
                        assert(last[i] == sp.last()[i]);
                    }
                }
            }
        }
    }
}

/// A key passes `validate_key` exactly when it has the kebab-case shape
/// `^[a-z0-9]+(-[a-z0-9]+)*$`.
pub proof fn lemma_valid_key_is_kebab_case(s: Seq<char>)
    ensures
        first_invalid(hyphen_segments(s)) is None <==> is_kebab_case(s),
{
    let segs = hyphen_segments(s);
    lemma_segments_nonempty(s);
    lemma_first_invalid_none(segs);
    lemma_kebab_prefix(s);
    lemma_last_segment_nonempty(s);
    if first_invalid(segs) is None {
        assert(segment_valid(segs[segs.len() - 1]));
        assert(segs.last() == segs[segs.len() - 1]);
        assert(leading_segments_valid(segs));
    }
    if is_kebab_case(s) {
        assert(kebab_prefix(s));
        assert forall|j: int| 0 <= j < segs.len() implies segment_valid(#[trigger] segs[j]) by {
            if j == segs.len() - 1 {
                assert(segs[j] == segs.last());
            }
        }
    }
}

} // verus!
