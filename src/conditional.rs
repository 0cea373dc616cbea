use vstd::prelude::*;

use crate::validator::EntityTag;

verus! {

/// The value of an `If-Match` or `If-None-Match` header: `*`, or a list of entity tags.
#[derive(Clone, Debug)]
pub enum TagCondition {
    Any,
    Tags(Vec<EntityTag>),
}

/// The result of evaluating the conditional headers of a request.
#[derive(Clone, Copy, Debug, PartialEq, Eq, Structural)]
pub enum Outcome {
    Full,
    NotModified,
    PreconditionFailed,
}

/// The conditional headers of a request, parsed; a date is in whole seconds since the epoch.
#[derive(Clone, Debug)]
pub struct StaticFile {
    pub if_match: Option<TagCondition>,
    pub if_unmodified_since: Option<u64>,
    pub if_none_match: Option<TagCondition>,
    pub if_modified_since: Option<u64>,
}

/// Strong comparison: neither tag is weak and their texts agree.
pub open spec fn strong_eq(a: EntityTag, weak: bool, tag: Seq<char>) -> bool {
    !a.weak && !weak && a.tag@ == tag
}

/// Weak comparison: the texts agree, whatever the weakness.
pub open spec fn weak_eq(a: EntityTag, tag: Seq<char>) -> bool {
    a.tag@ == tag
}

/// Strong comparison where `strong` is set, weak comparison otherwise.
pub open spec fn tags_agree(a: EntityTag, weak: bool, tag: Seq<char>, strong: bool) -> bool {
    if strong {
        strong_eq(a, weak, tag)
    } else {
        weak_eq(a, tag)
    }
}

/// Whether one of `tags` agrees with the entity tag (`weak`, `tag`).
pub open spec fn some_tag_agrees(tags: Seq<EntityTag>, weak: bool, tag: Seq<char>, strong: bool) -> bool {
    exists|i: int| 0 <= i < tags.len() && tags_agree(#[trigger] tags[i], weak, tag, strong)
}

/// Whether the entity tag (`weak`, `tag`) satisfies the tag condition, under strong or
/// weak comparison.
pub open spec fn condition_matches(c: TagCondition, weak: bool, tag: Seq<char>, strong: bool) -> bool {
    match c {
        TagCondition::Any => true,
        TagCondition::Tags(v) => some_tag_agrees(v@, weak, tag, strong),
    }
}

/// The outcome of a request with these conditional headers, for a resource with the
/// given validator (`weak`, `tag`) and modification time (in whole seconds).
pub open spec fn outcome_of(h: StaticFile, weak: bool, tag: Seq<char>, modified: Option<u64>) -> Outcome {
    match modified {
        None => Outcome::Full,
        Some(m) => if h.if_match is Some && !condition_matches(
            h.if_match.unwrap(),
            weak,
            tag,
            true,
        ) {
            Outcome::PreconditionFailed
        } else if h.if_unmodified_since is Some && m > h.if_unmodified_since.unwrap() {
            Outcome::PreconditionFailed
        } else if h.if_none_match is Some {
            if condition_matches(h.if_none_match.unwrap(), weak, tag, false) {
                Outcome::NotModified
            } else {
                Outcome::Full
            }
        } else if h.if_modified_since is Some && m <= h.if_modified_since.unwrap() {
            Outcome::NotModified
        } else {
            Outcome::Full
        },
    }
}

/// Whether `current` satisfies the tag condition.
pub fn tag_matches(c: &TagCondition, current: &EntityTag, strong: bool) -> (r: bool)
    ensures
        r == condition_matches(*c, current.weak, current.tag@, strong),
{
    match c {
        TagCondition::Any => true,
        TagCondition::Tags(v) => {
            let mut i: usize = 0;
            while i < v.len()
                invariant
                    *c == TagCondition::Tags(*v),
                    i <= v@.len(),
                    forall|j: int| 0 <= j < i ==> !tags_agree(#[trigger] v@[j], current.weak, current.tag@, strong),
                decreases v.len() - i,
            {
                let t = &v[i];
                let same = t.tag == current.tag;
                let hit = if strong {
                    !t.weak && !current.weak && same
                } else {
                    same
                };
                if hit {
                    assert(tags_agree(v@[i as int], current.weak, current.tag@, strong));
                    return true;
                }
                i = i + 1;
            }
            false
        },
    }
}

impl StaticFile {
    /// Decides between full content, "not modified" and "precondition failed".
    /// Without a modification time nothing can be validated and the content is served.
    pub fn evaluate(&self, current: &EntityTag, modified: Option<u64>) -> (r: Outcome)
        ensures
            r == outcome_of(*self, current.weak, current.tag@, modified),
    {
        let m = match modified {
            None => {
                return Outcome::Full;
            },
            Some(m) => m,
        };
        if let Some(c) = &self.if_match {
            if !tag_matches(c, current, true) {
                return Outcome::PreconditionFailed;
            }
        }
        if let Some(d) = self.if_unmodified_since {
            if m > d {
                return Outcome::PreconditionFailed;
            }
        }
        if let Some(c) = &self.if_none_match {
            if tag_matches(c, current, false) {
                return Outcome::NotModified;
            }
        } else if let Some(d) = self.if_modified_since {
            if m <= d {
                return Outcome::NotModified;
            }
        }
        Outcome::Full
    }
}

/// `If-None-Match` alone, satisfied by the current validator: "not modified".
pub proof fn if_none_match_hit_is_not_modified(h: StaticFile, tag: Seq<char>, modified: u64)
    requires
        h.if_match is None,
        h.if_unmodified_since is None,
        h.if_none_match is Some,
        condition_matches(h.if_none_match.unwrap(), false, tag, false),
    ensures
        outcome_of(h, false, tag, Some(modified)) == Outcome::NotModified,
{
}

/// `If-None-Match` without `If-Match` or `If-Unmodified-Since`, not satisfied by the
/// current validator: full content, whatever `If-Modified-Since` says.
pub proof fn if_none_match_miss_is_full(h: StaticFile, tag: Seq<char>, modified: u64)
    requires
        h.if_match is None,
        h.if_unmodified_since is None,
        h.if_none_match is Some,
        !condition_matches(h.if_none_match.unwrap(), false, tag, false),
    ensures
        outcome_of(h, false, tag, Some(modified)) == Outcome::Full,
{
}

/// Where `If-None-Match` is present, `If-Modified-Since` has no effect on the outcome.
pub proof fn if_none_match_overrides_if_modified_since(
    h: StaticFile,
    tag: Seq<char>,
    modified: Option<u64>,
)
    requires
        h.if_none_match is Some,
    ensures
        outcome_of(h, false, tag, modified) == outcome_of(
            StaticFile { if_modified_since: None, ..h },
            false,
            tag,
            modified,
        ),
{
}

/// `If-Modified-Since` alone: "not modified" exactly when the file was last modified at
/// or before the given second, full content otherwise.
pub proof fn if_modified_since_alone(h: StaticFile, tag: Seq<char>, modified: u64)
    requires
        h.if_match is None,
        h.if_unmodified_since is None,
        h.if_none_match is None,
        h.if_modified_since is Some,
    ensures
        outcome_of(h, false, tag, Some(modified)) == (if modified <= h.if_modified_since.unwrap() {
            Outcome::NotModified
        } else {
            Outcome::Full
        }),
{
}

/// `If-Match` alone: full content exactly when the current validator strongly matches,
/// "precondition failed" otherwise.
pub proof fn if_match_alone(h: StaticFile, tag: Seq<char>, modified: u64)
    requires
        h.if_match is Some,
        h.if_unmodified_since is None,
        h.if_none_match is None,
        h.if_modified_since is None,
    ensures
        outcome_of(h, false, tag, Some(modified)) == (if condition_matches(
            h.if_match.unwrap(),
            false,
            tag,
            true,
        ) {
            Outcome::Full
        } else {
            Outcome::PreconditionFailed
        }),
{
}

/// `If-Unmodified-Since` alone: full content exactly when the file was last modified at
/// or before the given second, "precondition failed" otherwise.
pub proof fn if_unmodified_since_alone(h: StaticFile, tag: Seq<char>, modified: u64)
    requires
        h.if_match is None,
        h.if_unmodified_since is Some,
        h.if_none_match is None,
        h.if_modified_since is None,
    ensures
        outcome_of(h, false, tag, Some(modified)) == (if modified <= h.if_unmodified_since.unwrap() {
            Outcome::Full
        } else {
            Outcome::PreconditionFailed
        }),
{
}

/// Without a modification time the content is always served in full.
pub proof fn no_time_is_full(h: StaticFile, weak: bool, tag: Seq<char>)
    ensures
        outcome_of(h, weak, tag, None) == Outcome::Full,
{
}

} // verus!
