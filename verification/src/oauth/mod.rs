//! The OAuth 2.1 authorization server that guards the tool endpoint:
//! discovery metadata, client registration, the passphrase-gated
//! authorization step, token issuance and the bearer-token check.
use vstd::prelude::*;
use vstd::string::StringExecFns;
use crate::text::str_chars;

pub mod authorization_server;
pub mod protected_resource;
pub mod authorize;
pub mod register;
pub mod token;
pub mod middleware;

verus! {

/// `s` without its trailing slashes.
pub open spec fn trim_trailing_slashes(s: Seq<char>) -> Seq<char>
    decreases s.len(),
{
    if s.len() > 0 && s.last() == '/' {
        trim_trailing_slashes(s.drop_last())
    } else {
        s
    }
}

/// The URL of `segment` under `base`: the base without trailing slashes,
/// one slash, then the segment.
pub open spec fn url_under(base: Seq<char>, segment: Seq<char>) -> Seq<char> {
    trim_trailing_slashes(base) + seq!['/'] + segment
}

/// What the trimming keeps of a base URL: a prefix of it, after which come
/// only slashes, and which does not itself end in a slash.
pub proof fn lemma_trimmed_base(base: Seq<char>)
    ensures
        trim_trailing_slashes(base).len() <= base.len(),
        base.take(trim_trailing_slashes(base).len() as int) == trim_trailing_slashes(base),
        forall|i: int|
            trim_trailing_slashes(base).len() <= i < base.len() ==> #[trigger] base[i] == '/',
        trim_trailing_slashes(base).len() == 0 || trim_trailing_slashes(base).last() != '/',
    decreases base.len(),
{
    if base.len() > 0 && base.last() == '/' {
        let p = base.drop_last();
        lemma_trimmed_base(p);
        let t = trim_trailing_slashes(base);
        assert(base.take(t.len() as int) =~= p.take(t.len() as int));
        assert forall|i: int| t.len() <= i < base.len() implies #[trigger] base[i] == '/' by {
            if i < p.len() {
                assert(base[i] == p[i]);
            }
        }
    } else {
        assert(base.take(base.len() as int) =~= base);
    }
}

/// Joins a base URL and a path segment with exactly one slash between them,
/// whatever number of trailing slashes the base has.
pub fn build_url(base: &str, segment: &str) -> (r: String)
    ensures
        r@ == url_under(base@, segment@),
{
    let chars = str_chars(base);
    let mut end: usize = chars.len();
    proof {
        assert(chars@.take(end as int) =~= chars@);
    }
    while end > 0 && chars[end - 1] == '/'
        invariant
            end <= chars.len(),
            chars@ == base@,
            trim_trailing_slashes(base@) == trim_trailing_slashes(chars@.take(end as int)),
        decreases end,
    {
        proof {
            assert(chars@.take(end - 1) =~= chars@.take(end as int).drop_last());
        }
        end = end - 1;
    }
    let mut r = String::new();
    let mut i: usize = 0;
    while i < end
        invariant
            i <= end <= chars.len(),
            r@ == chars@.take(i as int),
        decreases end - i,
    {
        r.push(chars[i]);
        proof {
            assert(chars@.take(i + 1) =~= chars@.take(i as int).push(chars@[i as int]));
        }
        i = i + 1;
    }
    proof {
        assert(trim_trailing_slashes(chars@.take(end as int)) == chars@.take(end as int));
    }
    r.push('/');
    r.append(segment);
    r
}

/// Trailing slashes on a base URL make no difference to the URLs built on
/// it.
pub proof fn lemma_url_under_ignores_trailing_slash(base: Seq<char>, segment: Seq<char>)
    ensures
        url_under(base.push('/'), segment) == url_under(base, segment),
{
    assert(base.push('/').drop_last() =~= base);
}

/// A URL built on a base holds no slash directly before the one that joins
/// it to the segment: the trimmed base does not end in a slash.
pub proof fn lemma_url_under_single_separator(base: Seq<char>)
    ensures
        trim_trailing_slashes(base).len() == 0 || trim_trailing_slashes(base).last() != '/',
    decreases base.len(),
{
    if base.len() > 0 && base.last() == '/' {
        lemma_url_under_single_separator(base.drop_last());
    }
}

} // verus!
