//! Profile names, compared without regard to the case of ASCII letters.

use vstd::prelude::*;
use vstd::std_specs::iter::IteratorSpec;

verus! {

/// The lower-case form of an ASCII upper-case letter; any other character,
/// ASCII or not, as it is.
pub open spec fn ascii_lower(c: char) -> char {
    if 'A' <= c && c <= 'Z' {
        ((c as u8 + 32) as u8) as char
    } else {
        c
    }
}

/// The upper-case form of an ASCII lower-case letter; any other character,
/// ASCII or not, as it is.
pub open spec fn ascii_upper(c: char) -> char {
    if 'a' <= c && c <= 'z' {
        ((c as u8 - 32) as u8) as char
    } else {
        c
    }
}

/// A text with every ASCII letter in lower case.
pub open spec fn lowered(text: Seq<char>) -> Seq<char> {
    text.map_values(|c: char| ascii_lower(c))
}

/// A text with every ASCII letter in upper case.
pub open spec fn raised(text: Seq<char>) -> Seq<char> {
    text.map_values(|c: char| ascii_upper(c))
}

/// Whether two names are the same once the case of ASCII letters is set
/// aside: their lower-case forms are equal.
pub open spec fn same_name(a: Seq<char>, b: Seq<char>) -> bool {
    lowered(a) == lowered(b)
}

/// Whether `candidate` is the same as one of `names`, the case of ASCII
/// letters set aside.
pub open spec fn name_taken(names: Seq<Seq<char>>, candidate: Seq<char>) -> bool {
    exists|i: int| 0 <= i < names.len() && same_name(#[trigger] names[i], candidate)
}

/// Whether no two of `names` are the same, the case of ASCII letters set
/// aside.
pub open spec fn names_distinct(names: Seq<Seq<char>>) -> bool {
    forall|i: int, j: int|
        0 <= i < j < names.len() ==> !same_name(#[trigger] names[i], #[trigger] names[j])
}

/// Two names are the same exactly when they are equally long and agree,
/// place by place, up to the case of ASCII letters.
pub proof fn same_name_by_place(a: Seq<char>, b: Seq<char>)
    ensures
        same_name(a, b) <==> (a.len() == b.len() && forall|i: int|
            0 <= i < a.len() ==> ascii_lower(#[trigger] a[i]) == ascii_lower(b[i])),
{
    if a.len() == b.len() && (forall|i: int|
        0 <= i < a.len() ==> ascii_lower(#[trigger] a[i]) == ascii_lower(b[i])) {
        assert(lowered(a) =~= lowered(b));
    }
    if same_name(a, b) {
        assert(lowered(a).len() == a.len());
        assert(lowered(b).len() == b.len());
        assert forall|i: int| 0 <= i < a.len() implies ascii_lower(#[trigger] a[i])
            == ascii_lower(b[i]) by {
            assert(lowered(a)[i] == ascii_lower(a[i]));
            assert(lowered(b)[i] == ascii_lower(b[i]));
        }
    }
}

/// Sameness of names is an equivalence, and a name is the same as its own
/// lower-case and upper-case forms.
pub proof fn same_name_is_equivalence(a: Seq<char>, b: Seq<char>, c: Seq<char>)
    ensures
        same_name(a, a),
        same_name(a, b) ==> same_name(b, a),
        same_name(a, b) && same_name(b, c) ==> same_name(a, c),
        same_name(a, lowered(a)),
        same_name(a, raised(a)),
{
    assert(lowered(lowered(a)) =~= lowered(a));
    assert(lowered(raised(a)) =~= lowered(a));
}

/// A candidate that is the same as one of the names, whatever the case of
/// its ASCII letters, is taken: so are that name itself, its lower-case form
/// and its upper-case form.
pub proof fn case_variants_are_taken(names: Seq<Seq<char>>, i: int, candidate: Seq<char>)
    requires
        0 <= i < names.len(),
    ensures
        same_name(names[i], candidate) ==> name_taken(names, candidate),
        name_taken(names, names[i]),
        name_taken(names, lowered(names[i])),
        name_taken(names, raised(names[i])),
{
    same_name_is_equivalence(names[i], names[i], names[i]);
}

/// A name is taken once it has been added to the names, and adding a name
/// takes no candidate away.
pub proof fn added_name_is_taken(names: Seq<Seq<char>>, added: Seq<char>, candidate: Seq<char>)
    ensures
        name_taken(names.push(added), candidate) <==> name_taken(names, candidate) || same_name(
            added,
            candidate,
        ),
{
    let more = names.push(added);
    if name_taken(names, candidate) {
        let i = choose|i: int| 0 <= i < names.len() && same_name(#[trigger] names[i], candidate);
        assert(more[i] == names[i]);
    }
    if same_name(added, candidate) {
        assert(more[names.len() as int] == added);
    }
    if name_taken(more, candidate) {
        let i = choose|i: int| 0 <= i < more.len() && same_name(#[trigger] more[i], candidate);
        if i < names.len() {
            assert(more[i] == names[i]);
        }
    }
}

/// Names with one more stay distinct exactly when they were distinct and the
/// one added was not taken.
pub proof fn names_stay_distinct(names: Seq<Seq<char>>, added: Seq<char>)
    ensures
        names_distinct(names.push(added)) <==> names_distinct(names) && !name_taken(names, added),
{
    let more = names.push(added);
    let last = names.len() as int;
    if names_distinct(more) {
        assert forall|i: int, j: int| 0 <= i < j < names.len() implies !same_name(
            #[trigger] names[i],
            #[trigger] names[j],
        ) by {
            assert(more[i] == names[i] && more[j] == names[j]);
        }
        assert forall|i: int| 0 <= i < names.len() implies !same_name(
            #[trigger] names[i],
            added,
        ) by {
            assert(more[i] == names[i] && more[last] == added);
        }
    }
    if names_distinct(names) && !name_taken(names, added) {
        assert forall|i: int, j: int| 0 <= i < j < more.len() implies !same_name(
            #[trigger] more[i],
            #[trigger] more[j],
        ) by {
            assert(more[i] == names[i]);
            if j < last {
                assert(more[j] == names[j]);
            }
        }
    }
}

fn to_lower(c: char) -> (folded: char)
    ensures
        folded == ascii_lower(c),
{
    if 'A' <= c && c <= 'Z' {
        let upper: u8 = c as u8;
        let lower: u8 = upper + 32;
        lower as char
    } else {
        c
    }
}

/// Compares two texts without regard to the case of ASCII letters.
pub fn eq_ignore_ascii_case(a: &str, b: &str) -> (same: bool)
    ensures
        same == same_name(a@, b@),
{
    let mut left = a.chars();
    let mut right = b.chars();
    let ghost mut seen: int = 0;
    loop
        invariant
            0 <= seen <= a@.len(),
            seen <= b@.len(),
            left.remaining() == a@.skip(seen),
            right.remaining() == b@.skip(seen),
            forall|j: int| 0 <= j < seen ==> ascii_lower(#[trigger] a@[j]) == ascii_lower(b@[j]),
        decreases a@.len() - seen,
    {
        proof {
            same_name_by_place(a@, b@);
        }
        match (left.next(), right.next()) {
            (None, None) => {
                return true;
            },
            (Some(x), Some(y)) => {
                if to_lower(x) != to_lower(y) {
                    return false;
                }
                proof {
                    seen = seen + 1;
                }
            },
            _ => {
                return false;
            },
        }
    }
}

} // verus!
