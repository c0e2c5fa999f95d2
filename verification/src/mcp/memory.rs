//! Memory entries: durable context under a scope and a kebab-case key,
//! either global or overriding the global entry for one subject.
use vstd::prelude::*;
use crate::text::{blank, is_blank, join3, owned, trim_white_space};
use crate::validation::{
    escape_like, escape_like_wildcards, first_invalid, hyphen_segments, key_error,
    lemma_escape_like_matches_literally, like_literal, validate_key,
};
use super::{DbFailure, foreign_key_violation_of, is_foreign_key_violation_of, is_unique_violation_of, unique_violation_of};

verus! {

/// The kind of a memory entry.
#[derive(Clone, Copy, Debug, PartialEq, Eq, Structural)]
pub enum Scope {
    Profile,
    Topic,
    Preference,
}

/// The arguments of `memory_create`.
pub struct MemoryCreateParams {
    pub scope: Scope,
    pub key: String,
    pub content: String,
    pub description: String,
    pub subject_id: Option<String>,
    pub updated_by: String,
}

/// Checks a new memory entry, in this order: the key is kebab-case, the
/// subject (when given) is a kebab-case slug, the content and the
/// description are not blank. The entry is inserted as given.
pub fn memory_create(params: &MemoryCreateParams) -> (r: Result<(), String>)
    ensures
        first_invalid(hyphen_segments(params.key@)) matches Some(seg) ==> (r matches Err(m) && m@
            == key_error(seg)),
        first_invalid(hyphen_segments(params.key@)) is None ==> match params.subject_id {
            Some(sid) => first_invalid(hyphen_segments(sid@)) matches Some(seg) ==> (r matches Err(m)
                && m@ == key_error(seg)),
            None => true,
        },
        (first_invalid(hyphen_segments(params.key@)) is None && (params.subject_id matches Some(
            sid,
        ) ==> first_invalid(hyphen_segments(sid@)) is None)) ==> (if blank(params.content@) {
            r matches Err(m) && m@ == "content must not be empty"@
        } else if blank(params.description@) {
            r matches Err(m) && m@ == "description must not be empty"@
        } else {
            r is Ok
        }),
{
    match validate_key(params.key.as_str()) {
        Err(message) => {
            return Err(message);
        },
        Ok(()) => {},
    }
    match &params.subject_id {
        Some(subject_id) => match validate_key(subject_id.as_str()) {
            Err(message) => {
                return Err(message);
            },
            Ok(()) => {},
        },
        None => {},
    }
    if is_blank(params.content.as_str()) {
        return Err(owned("content must not be empty"));
    }
    if is_blank(params.description.as_str()) {
        return Err(owned("description must not be empty"));
    }
    Ok(())
}

/// The answer to a refused memory insert: an entry that already exists
/// for the scope, key and subject, or a subject that does not exist, is
/// the client's mistake, told as such; any other failure is not the tool's
/// to explain (`None`).
pub fn memory_create_rejection(failure: &DbFailure, subject_id: &Option<String>) -> (r: Option<
    String,
>)
    ensures
        (is_unique_violation_of(*failure, "memory_entries_global_key"@) || is_unique_violation_of(
            *failure,
            "memory_entries_subject_key"@,
        )) ==> (r matches Some(m) && m@ == "a memory entry already exists for this scope/key/subject"@),
        is_foreign_key_violation_of(*failure, "memory_entries_subject_id_fkey"@) ==> (r matches Some(m)
            && m@ == "subject '"@ + (match subject_id {
            Some(s) => s@,
            None => Seq::empty(),
        }) + "' does not exist"@),
        !(is_unique_violation_of(*failure, "memory_entries_global_key"@) || is_unique_violation_of(
            *failure,
            "memory_entries_subject_key"@,
        ) || is_foreign_key_violation_of(*failure, "memory_entries_subject_id_fkey"@)) ==> r is None,
{
    if unique_violation_of(failure, "memory_entries_global_key") || unique_violation_of(
        failure,
        "memory_entries_subject_key",
    ) {
        return Some(owned("a memory entry already exists for this scope/key/subject"));
    }
    if foreign_key_violation_of(failure, "memory_entries_subject_id_fkey") {
        let name = match subject_id {
            Some(s) => s.as_str(),
            None => "",
        };
        proof {
            reveal_strlit("");
        }
        return Some(join3("subject '", name, "' does not exist"));
    }
    None
}

/// The `LIKE` pattern that finds `query` anywhere in a text: the trimmed
/// query, escaped, between two `%`.
pub open spec fn search_pattern(query: Seq<char>) -> Seq<char> {
    seq!['%'] + escape_like(trim_white_space(query)) + seq!['%']
}

/// A search finds the trimmed query as literal text, anywhere: its pattern
/// is `%`, a part that matches exactly the trimmed query, and `%`.
pub proof fn lemma_search_pattern_is_literal(query: Seq<char>)
    ensures
        search_pattern(query).first() == '%',
        search_pattern(query).last() == '%',
        like_literal(search_pattern(query).subrange(1, search_pattern(query).len() - 1)) == Some(
            trim_white_space(query),
        ),
{
    let inner = escape_like(trim_white_space(query));
    lemma_escape_like_matches_literally(trim_white_space(query));
    assert(search_pattern(query).subrange(1, search_pattern(query).len() - 1) =~= inner);
}

/// Checks a search query and gives the pattern to match keys,
/// descriptions and contents against: a blank query is refused.
pub fn memory_search(query: &str) -> (r: Result<String, String>)
    ensures
        blank(query@) ==> (r matches Err(m) && m@ == "query must not be empty"@),
        !blank(query@) ==> (r matches Ok(p) && p@ == search_pattern(query@)),
{
    let query = query.trim();
    if query.is_empty() {
        return Err(owned("query must not be empty"));
    }
    let escaped = escape_like_wildcards(query);
    proof {
        reveal_strlit("%");
        assert("%"@ =~= seq!['%']);
    }
    Ok(join3("%", escaped.as_str(), "%"))
}

/// The arguments of `memory_update`.
pub struct MemoryUpdateParams {
    pub scope: Scope,
    pub key: String,
    pub subject_id: Option<String>,
    pub content: Option<String>,
    pub description: Option<String>,
    pub updated_by: String,
}

/// Checks a memory update: it must change the content or the description,
/// and neither may become blank. What is not given keeps its value.
pub fn memory_update(params: &MemoryUpdateParams) -> (r: Result<(), String>)
    ensures
        params.content is None && params.description is None ==> (r matches Err(m) && m@
            == "at least one of content or description must be provided"@),
        !(params.content is None && params.description is None) ==> (if params.content matches Some(
            c,
        ) && blank(c@) {
            r matches Err(m) && m@ == "content must not be empty"@
        } else if params.description matches Some(d) && blank(d@) {
            r matches Err(m) && m@ == "description must not be empty"@
        } else {
            r is Ok
        }),
{
    if params.content.is_none() && params.description.is_none() {
        return Err(owned("at least one of content or description must be provided"));
    }
    match &params.content {
        Some(content) => {
            if is_blank(content.as_str()) {
                return Err(owned("content must not be empty"));
            }
        },
        None => {},
    }
    match &params.description {
        Some(description) => {
            if is_blank(description.as_str()) {
                return Err(owned("description must not be empty"));
            }
        },
        None => {},
    }
    Ok(())
}

/// The message for an update or delete that finds no entry: the target is
/// matched exactly, with no fallback to the global entry.
pub fn memory_not_found() -> (r: String)
    ensures
        r@ == "no memory entry exists for that scope/key/subject"@,
{
    owned("no memory entry exists for that scope/key/subject")
}

/// The answer to a memory delete that removed `deleted` rows.
pub fn memory_deleted(deleted: u64) -> (r: Result<(), String>)
    ensures
        r is Ok <==> deleted > 0,
        r matches Err(m) ==> m@ == "no memory entry exists for that scope/key/subject"@,
{
    if deleted == 0 {
        return Err(memory_not_found());
    }
    Ok(())
}

} // verus!
