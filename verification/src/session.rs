//! Which media session the bridge follows when the host offers several.

use crate::text::{contains_text, lowercase_text, occurs_in, to_lowercase};
use vstd::prelude::*;
use vstd::string::*;

verus! {

/// Whether a session's source application id names the preferred
/// application: it holds the marker somewhere, letter case aside.
pub open spec fn is_preferred(source_id: Seq<char>, marker: Seq<char>) -> bool {
    occurs_in(lowercase_text(marker), lowercase_text(source_id))
}

/// Whether index `choice` is the one to pick among sessions of which
/// `preferred` tells, in the host's enumeration order, which are of the
/// preferred application: the first that is, or the very first session
/// where none is.
pub open spec fn is_first_choice(preferred: Seq<bool>, choice: int) -> bool {
    &&& 0 <= choice < preferred.len()
    &&& if preferred[choice] {
        forall|j: int| 0 <= j < choice ==> !preferred[j]
    } else {
        choice == 0 && forall|j: int| 0 <= j < preferred.len() ==> !preferred[j]
    }
}

/// For each source application id, whether it names the preferred
/// application.
pub open spec fn preferences(source_ids: Seq<Seq<char>>, marker: Seq<char>) -> Seq<bool> {
    Seq::new(source_ids.len(), |i: int| is_preferred(source_ids[i], marker))
}

/// Whether the session at index `choice` is the one to follow.
pub open spec fn is_selected(source_ids: Seq<Seq<char>>, marker: Seq<char>, choice: int) -> bool {
    is_first_choice(preferences(source_ids, marker), choice)
}

/// The marker of the application that is preferred by default.
pub fn default_marker() -> (r: &'static str)
    ensures
        r@ == "spotify.exe"@,
{
    "spotify.exe"
}

/// Tells whether a source application id names the preferred application.
pub fn names_preferred(source_id: &str, marker: &str) -> (r: bool)
    ensures
        r == is_preferred(source_id@, marker@),
{
    let id = to_lowercase(source_id);
    let wanted = to_lowercase(marker);
    contains_text(id.as_str(), wanted.as_str())
}

/// Picks a session given, in the host's enumeration order, which sessions
/// are of the preferred application. Returns its index, or `None` where
/// there is no session at all.
pub fn select_among(preferred: &Vec<bool>) -> (r: Option<usize>)
    ensures
        match r {
            None => preferred.len() == 0,
            Some(choice) => is_first_choice(preferred@, choice as int),
        },
{
    if preferred.len() == 0 {
        return None;
    }
    let mut i: usize = 0;
    while i < preferred.len()
        invariant
            i <= preferred.len(),
            forall|j: int| 0 <= j < i ==> !preferred@[j],
        decreases preferred.len() - i,
    {
        if preferred[i] {
            return Some(i);
        }
        i += 1;
    }
    Some(0)
}

/// Picks the session to follow among the sessions whose source application
/// ids are given in the host's enumeration order. Returns its index, or
/// `None` where there is no session at all.
pub fn select_session(source_ids: &Vec<String>, marker: &str) -> (r: Option<usize>)
    ensures
        match r {
            None => source_ids.len() == 0,
            Some(choice) => is_selected(source_ids.deep_view(), marker@, choice as int),
        },
{
    let mut preferred: Vec<bool> = Vec::new();
    let mut i: usize = 0;
    while i < source_ids.len()
        invariant
            i <= source_ids.len(),
            preferred@ == preferences(source_ids.deep_view(), marker@).take(i as int),
        decreases source_ids.len() - i,
    {
        let flag = names_preferred(source_ids[i].as_str(), marker);
        preferred.push(flag);
        i += 1;
    }
    assert(preferred@ =~= preferences(source_ids.deep_view(), marker@));
    select_among(&preferred)
}

/// At most one session is selected.
pub proof fn lemma_selection_is_unique(
    source_ids: Seq<Seq<char>>,
    marker: Seq<char>,
    a: int,
    b: int,
)
    requires
        is_selected(source_ids, marker, a),
        is_selected(source_ids, marker, b),
    ensures
        a == b,
{
}

/// Wherever the host lists it, a session of the preferred application is
/// selected when it is the only such session.
pub proof fn lemma_preferred_session_is_selected(
    source_ids: Seq<Seq<char>>,
    marker: Seq<char>,
    k: int,
    choice: int,
)
    requires
        0 <= k < source_ids.len(),
        is_preferred(source_ids[k], marker),
        forall|j: int|
            0 <= j < source_ids.len() && j != k ==> !is_preferred(#[trigger] source_ids[j], marker),
        is_selected(source_ids, marker, choice),
    ensures
        choice == k,
{
    assert(preferences(source_ids, marker)[k]);
}

/// Priority does not depend on the enumeration order: of two sessions of
/// which one is of the preferred application, that one is selected whether
/// the host lists it first or second.
pub proof fn lemma_priority_ignores_order(
    preferred: Seq<char>,
    other: Seq<char>,
    marker: Seq<char>,
    choice: int,
    swapped_choice: int,
)
    requires
        is_preferred(preferred, marker),
        !is_preferred(other, marker),
        is_selected(seq![preferred, other], marker, choice),
        is_selected(seq![other, preferred], marker, swapped_choice),
    ensures
        seq![preferred, other][choice] == preferred,
        seq![other, preferred][swapped_choice] == preferred,
{
    lemma_preferred_session_is_selected(seq![preferred, other], marker, 0, choice);
    lemma_preferred_session_is_selected(seq![other, preferred], marker, 1, swapped_choice);
}

} // verus!
