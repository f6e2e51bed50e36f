//! File names: their stem and extension, and the order in which the start
//! menu lists them.

use vstd::prelude::*;
use vstd::string::{StrSliceExecFns, StringExecFns};
use crate::views::seq_view;

verus! {

/// The position of the last dot in `name`, or -1 if it has none.
pub open spec fn last_dot(name: Seq<char>) -> int
    decreases name.len(),
{
    if name.len() == 0 {
        -1
    } else if name.last() == '.' {
        name.len() - 1
    } else {
        last_dot(name.drop_last())
    }
}

/// Whether `name` splits into a stem and an extension: it has a dot that is
/// not its first character, and it is not the name `..`.
pub open spec fn splits(name: Seq<char>) -> bool {
    last_dot(name) > 0 && name != seq!['.', '.']
}

/// The extension of a file name: what follows its last dot. A name without
/// a dot, a name whose only dot is its first character, and the name `..`
/// have none.
pub open spec fn spec_extension(name: Seq<char>) -> Option<Seq<char>> {
    if splits(name) {
        Some(name.skip(last_dot(name) + 1))
    } else {
        None
    }
}

/// The stem of a file name: what stands before its last dot, or the whole
/// name where it has no extension.
pub open spec fn spec_file_stem(name: Seq<char>) -> Seq<char> {
    if splits(name) {
        name.take(last_dot(name))
    } else {
        name
    }
}

proof fn lemma_last_dot(name: Seq<char>)
    ensures
        -1 <= last_dot(name) < name.len(),
        last_dot(name) >= 0 ==> name[last_dot(name)] == '.',
    decreases name.len(),
{
    if name.len() > 0 && name.last() != '.' {
        lemma_last_dot(name.drop_last());
    }
}

proof fn lemma_last_dot_take(name: Seq<char>, n: int)
    requires
        0 <= n < name.len(),
    ensures
        last_dot(name.take(n + 1)) == if name[n] == '.' {
            n
        } else {
            last_dot(name.take(n))
        },
{
    assert(name.take(n + 1).drop_last() =~= name.take(n));
}

/// The position of the last dot of `name`, if it has one.
fn find_last_dot(name: &str) -> (found: Option<usize>)
    ensures
        match found {
            Some(at) => at == last_dot(name@),
            None => last_dot(name@) == -1,
        },
{
    let len = name.unicode_len();
    let mut found: Option<usize> = None;
    let mut i: usize = 0;
    while i < len
        invariant
            len == name@.len(),
            0 <= i <= len,
            match found {
                Some(at) => at == last_dot(name@.take(i as int)),
                None => last_dot(name@.take(i as int)) == -1,
            },
        decreases len - i,
    {
        proof {
            lemma_last_dot_take(name@, i as int);
        }
        if name.get_char(i) == '.' {
            found = Some(i);
        }
        i = i + 1;
    }
    assert(name@.take(len as int) =~= name@);
    found
}

/// Whether `name` is the name `..`.
fn is_parent_name(name: &str) -> (parent: bool)
    ensures
        parent == (name@ == seq!['.', '.']),
{
    let len = name.unicode_len();
    if len != 2 {
        return false;
    }
    let parent = name.get_char(0) == '.' && name.get_char(1) == '.';
    assert(parent ==> name@ =~= seq!['.', '.']);
    parent
}

/// The position of the dot at which `name` splits, if it splits.
fn split_point(name: &str) -> (found: Option<usize>)
    ensures
        match found {
            Some(at) => splits(name@) && at == last_dot(name@),
            None => !splits(name@),
        },
{
    match find_last_dot(name) {
        Some(at) => {
            if at == 0 || is_parent_name(name) {
                None
            } else {
                Some(at)
            }
        },
        None => None,
    }
}

/// Whether the extension of `name` is `extension`.
pub fn has_extension(name: &str, extension: &str) -> (has: bool)
    ensures
        has == (spec_extension(name@) == Some(extension@)),
{
    match split_point(name) {
        Some(at) => {
            proof {
                lemma_last_dot(name@);
            }
            let len = name.unicode_len();
            let wanted = extension.unicode_len();
            let ghost tail = name@.skip(at as int + 1);
            if len - (at + 1) != wanted {
                assert(tail.len() != extension@.len());
                return false;
            }
            let mut i: usize = 0;
            while i < wanted
                invariant
                    0 <= i <= wanted,
                    wanted == extension@.len(),
                    len == name@.len(),
                    at + 1 + wanted == len,
                    splits(name@),
                    at == last_dot(name@),
                    tail == name@.skip(at as int + 1),
                    forall|j: int| 0 <= j < i ==> tail[j] == extension@[j],
                decreases wanted - i,
            {
                assert(tail[i as int] == name@[at + 1 + i]);
                if name.get_char(at + 1 + i) != extension.get_char(i) {
                    assert(tail[i as int] != extension@[i as int]);
                    return false;
                }
                i = i + 1;
            }
            assert(tail =~= extension@);
            true
        },
        None => false,
    }
}

/// The extension of the file name `name`, if it has one.
pub fn extension(name: &str) -> (found: Option<String>)
    ensures
        match found {
            Some(text) => spec_extension(name@) == Some(text@),
            None => spec_extension(name@) is None,
        },
{
    match split_point(name) {
        Some(at) => {
            proof {
                lemma_last_dot(name@);
            }
            let len = name.unicode_len();
            let tail = name.substring_char(at + 1, len);
            assert(tail@ =~= name@.skip(at as int + 1));
            Some(String::from_str(tail))
        },
        None => None,
    }
}

/// The stem of the file name `name`.
pub fn file_stem(name: &str) -> (stem: String)
    ensures
        stem@ == spec_file_stem(name@),
{
    match split_point(name) {
        Some(at) => {
            proof {
                lemma_last_dot(name@);
            }
            let stem = name.substring_char(0, at);
            assert(stem@ =~= name@.take(at as int));
            String::from_str(stem)
        },
        None => String::from_str(name),
    }
}

/// What `text` reads in lower case.
pub uninterp spec fn lowercase(text: Seq<char>) -> Seq<char>;

/// Calls `str::to_lowercase` of the standard library. The contract claims
/// only that the result is a function of the text.
#[verifier::external_body]
fn to_lowercase(text: &str) -> (lower: String)
    ensures
        lower@ == lowercase(text@),
{
    text.to_lowercase()
}

/// The pairs of `keyed` in the order of their first parts, where digits in
/// a key count by their number, so that `shot-2` comes before `shot-11`.
/// Pairs with keys that compare equal keep the order they had.
pub uninterp spec fn alphanumeric_order(keyed: Seq<(Seq<char>, Seq<char>)>) -> Seq<
    (Seq<char>, Seq<char>),
>;

/// Calls `sort_slice_by_str_key` of the crate `alphanumeric_sort` with the
/// first part of each pair as its key; the crate sorts the slice in place
/// with the standard library's stable sort and its own `compare_str`. The
/// contract claims that what the slice holds afterwards is a function of
/// what it held before, and that it holds the same pairs, each as often as
/// before.
#[verifier::external_body]
fn sort_by_key(keyed: &mut Vec<(String, String)>)
    ensures
        seq_view(final(keyed)@) == alphanumeric_order(seq_view(old(keyed)@)),
        seq_view(final(keyed)@).to_multiset() == seq_view(old(keyed)@).to_multiset(),
{
    alphanumeric_sort::sort_slice_by_str_key(keyed.as_mut_slice(), |pair| &pair.0);
}

/// Each of `names` with the key it is ordered by: itself in lower case.
pub open spec fn keyed(names: Seq<Seq<char>>) -> Seq<(Seq<char>, Seq<char>)> {
    Seq::new(names.len(), |i: int| (lowercase(names[i]), names[i]))
}

/// The second parts of `pairs`.
pub open spec fn unkeyed(pairs: Seq<(Seq<char>, Seq<char>)>) -> Seq<Seq<char>> {
    Seq::new(pairs.len(), |i: int| pairs[i].1)
}

/// The order in which the start menu lists `names`: without regard to case,
/// and with digits counted by their number.
pub open spec fn listing_order(names: Seq<Seq<char>>) -> Seq<Seq<char>> {
    unkeyed(alphanumeric_order(keyed(names)))
}

/// Sequences that hold the same pairs, each as often, hold the same second
/// parts, each as often.
proof fn lemma_unkeyed_permutes(a: Seq<(Seq<char>, Seq<char>)>, b: Seq<(Seq<char>, Seq<char>)>)
    requires
        a.to_multiset() == b.to_multiset(),
    ensures
        unkeyed(a).to_multiset() == unkeyed(b).to_multiset(),
    decreases a.len(),
{
    broadcast use vstd::seq_lib::group_to_multiset_ensures;

    a.to_multiset_ensures();
    b.to_multiset_ensures();
    if a.len() == 0 {
        assert(unkeyed(a) =~= unkeyed(b));
    } else {
        let pair = a.last();
        assert(a.contains(pair));
        assert(a.to_multiset().count(pair) > 0);
        assert(b.to_multiset().count(pair) > 0);
        assert(b.contains(pair));
        let at = choose|at: int| 0 <= at < b.len() && b[at] == pair;
        let shorter_a = a.drop_last();
        let shorter_b = b.remove(at);
        assert(shorter_a =~= a.remove(a.len() - 1));
        assert(shorter_a.to_multiset() == shorter_b.to_multiset());
        lemma_unkeyed_permutes(shorter_a, shorter_b);
        assert(unkeyed(a) =~= unkeyed(shorter_a).push(pair.1));
        assert(unkeyed(b) =~= unkeyed(shorter_b).insert(at, pair.1));
    }
}

/// The names in the order in which the start menu lists them.
pub fn sort_names(names: &Vec<String>) -> (sorted: Vec<String>)
    ensures
        seq_view(sorted@) == listing_order(seq_view(names@)),
        seq_view(sorted@).to_multiset() == seq_view(names@).to_multiset(),
{
    let mut pairs: Vec<(String, String)> = Vec::new();
    let mut i: usize = 0;
    while i < names.len()
        invariant
            0 <= i <= names.len(),
            pairs@.len() == i,
            forall|j: int| 0 <= j < i ==> pairs@[j]@ == (lowercase(names@[j]@), names@[j]@),
        decreases names.len() - i,
    {
        pairs.push((to_lowercase(names[i].as_str()), names[i].clone()));
        i = i + 1;
    }
    let ghost before = seq_view(pairs@);
    assert(before =~= keyed(seq_view(names@)));
    sort_by_key(&mut pairs);
    let ghost after = seq_view(pairs@);
    let mut sorted: Vec<String> = Vec::new();
    let mut k: usize = 0;
    while k < pairs.len()
        invariant
            0 <= k <= pairs.len(),
            sorted@.len() == k,
            forall|j: int| 0 <= j < k ==> sorted@[j]@ == pairs@[j]@.1,
        decreases pairs.len() - k,
    {
        sorted.push(pairs[k].1.clone());
        k = k + 1;
    }
    proof {
        assert(seq_view(sorted@) =~= unkeyed(after));
        lemma_unkeyed_permutes(after, before);
        assert(unkeyed(before) =~= seq_view(names@));
    }
    sorted
}

} // verus!
