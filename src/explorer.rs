use vstd::prelude::*;
use vstd::string::{StrSliceExecFns, StringExecFns};

use std::collections::HashMap;

verus! {

broadcast use vstd::std_specs::hash::group_hash_axioms;

/// The characters of each string.
pub open spec fn views(s: Seq<String>) -> Seq<Seq<char>> {
    s.map_values(|x: String| x@)
}

pub open spec fn is_digit(c: char) -> bool {
    '0' <= c <= '9'
}

pub open spec fn all_digits(s: Seq<char>) -> bool {
    forall|i: int| 0 <= i < s.len() ==> is_digit(#[trigger] s[i])
}

/// Value of a run of decimal digits.
pub open spec fn digits_value(s: Seq<char>) -> nat
    decreases s.len(),
{
    if s.len() == 0 {
        0
    } else {
        digits_value(s.drop_last()) * 10 + (s.last() as nat - '0' as nat) as nat
    }
}

/// A byte-sized decimal number: an optional `+`, then at least one digit,
/// worth at most 255.
pub open spec fn parse_u8(s: Seq<char>) -> Option<u8> {
    let digits = if s.len() > 0 && s[0] == '+' {
        s.drop_first()
    } else {
        s
    };
    if digits.len() > 0 && all_digits(digits) && digits_value(digits) <= 255 {
        Some(digits_value(digits) as u8)
    } else {
        None
    }
}

/// Position of the first `_` in `s`, if any.
pub open spec fn first_underscore(s: Seq<char>) -> Option<int> {
    if exists|i: int| 0 <= i < s.len() && s[i] == '_' {
        Some(choose|i: int| 0 <= i < s.len() && s[i] == '_' && forall|j: int| 0 <= j < i ==> s[j] != '_')
    } else {
        None
    }
}

/// An album folder is named `NN_name`: a byte-sized index, an underscore,
/// then the album's name.
pub open spec fn album_of(s: Seq<char>) -> Option<(u8, Seq<char>)> {
    match first_underscore(s) {
        Some(u) => match parse_u8(s.subrange(0, u)) {
            Some(i) => Some((i, s.subrange(u + 1, s.len() as int))),
            None => None,
        },
        None => None,
    }
}

/// Album names by index; of two folders with one index the later one counts.
pub open spec fn album_map(names: Seq<Seq<char>>) -> Map<u8, Seq<char>>
    decreases names.len(),
{
    if names.len() == 0 {
        Map::empty()
    } else {
        let m = album_map(names.drop_last());
        match album_of(names.last()) {
            Some(p) => m.insert(p.0, p.1),
            None => m,
        }
    }
}

/// The values of `m` for the keys below `k`, in key order.
pub open spec fn labels_below(m: Map<u8, Seq<char>>, k: int) -> Seq<Seq<char>>
    decreases k,
{
    if k <= 0 {
        seq![]
    } else if m.contains_key((k - 1) as u8) {
        labels_below(m, k - 1).push(m[(k - 1) as u8])
    } else {
        labels_below(m, k - 1)
    }
}

/// Pad labels for the sub-folders named `names`: album names in index order.
pub open spec fn pad_labels_of(names: Seq<String>) -> Seq<Seq<char>> {
    labels_below(album_map(views(names)), 256)
}

proof fn lemma_digits_push(s: Seq<char>, c: char)
    requires
        is_digit(c),
    ensures
        digits_value(s.push(c)) == digits_value(s) * 10 + (c as nat - '0' as nat),
{
    assert(s.push(c).drop_last() =~= s);
}

fn parse_index(s: &str) -> (r: Option<u8>)
    ensures
        r == parse_u8(s@),
{
    let len = s.unicode_len();
    let mut start: usize = 0;
    if len > 0 && s.get_char(0) == '+' {
        start = 1;
    }
    let ghost digits = if s@.len() > 0 && s@[0] == '+' {
        s@.drop_first()
    } else {
        s@
    };
    assert(digits =~= s@.subrange(start as int, len as int));
    if start == len {
        assert(digits.len() == 0);
        return None;
    }
    let mut acc: u32 = 0;
    let mut i: usize = start;
    while i < len
        invariant
            start <= i <= len,
            len == s@.len(),
            digits =~= s@.subrange(start as int, len as int),
            digits == (if s@.len() > 0 && s@[0] == '+' {
                s@.drop_first()
            } else {
                s@
            }),
            all_digits(s@.subrange(start as int, i as int)),
            acc == if digits_value(s@.subrange(start as int, i as int)) > 256 {
                256
            } else {
                digits_value(s@.subrange(start as int, i as int))
            },
        decreases len - i,
    {
        let c = s.get_char(i);
        if !('0' <= c && c <= '9') {
            assert(!all_digits(digits)) by {
                assert(digits[i - start] == c);
                assert(!is_digit(digits[i - start]));
            }
            return None;
        }
        let d = (c as u32) - ('0' as u32);
        proof {
            lemma_digits_push(s@.subrange(start as int, i as int), c);
            assert(s@.subrange(start as int, i + 1) =~= s@.subrange(start as int, i as int).push(c));
        }
        acc = acc * 10 + d;
        if acc > 256 {
            acc = 256;
        }
        i = i + 1;
    }
    assert(s@.subrange(start as int, len as int) =~= digits);
    if acc <= 255 {
        Some(acc as u8)
    } else {
        None
    }
}

fn find_underscore(s: &str) -> (r: Option<usize>)
    ensures
        match r {
            Some(u) => u < s@.len() && first_underscore(s@) == Some(u as int),
            None => first_underscore(s@) is None,
        },
{
    let len = s.unicode_len();
    let mut i: usize = 0;
    while i < len
        invariant
            i <= len,
            len == s@.len(),
            forall|j: int| 0 <= j < i ==> s@[j] != '_',
        decreases len - i,
    {
        if s.get_char(i) == '_' {
            let ghost u = choose|u: int| 0 <= u < s@.len() && s@[u] == '_' && forall|j: int| 0 <= j < u ==> s@[j] != '_';
            assert(0 <= i < s@.len() && s@[i as int] == '_' && forall|j: int| 0 <= j < i ==> s@[j] != '_');
            assert(u == i) by {
                if u < i {
                } else if u > i {
                }
            }
            return Some(i);
        }
        i = i + 1;
    }
    None
}

/// Reads an album folder name of the form `NN_name`.
pub fn parse_album_folder(name: &str) -> (r: Option<(u8, String)>)
    ensures
        match r {
            Some(p) => album_of(name@) == Some((p.0, p.1@)),
            None => album_of(name@) is None,
        },
{
    match find_underscore(name) {
        Some(u) => {
            let head = name.substring_char(0, u);
            match parse_index(head) {
                Some(i) => {
                    let len = name.unicode_len();
                    let rest = name.substring_char(u + 1, len);
                    Some((i, String::from_str(rest)))
                },
                None => None,
            }
        },
        None => None,
    }
}

/// Album names by index, from the names of a music root's sub-folders.
pub fn get_album_name_from_folder_in_path(folder_names: &Vec<String>) -> (r: HashMap<u8, String>)
    ensures
        r@.dom() == album_map(views(folder_names@)).dom(),
        forall|k: u8| #[trigger] r@.contains_key(k) ==> r@[k]@ == album_map(views(folder_names@))[k],
{
    let mut m: HashMap<u8, String> = HashMap::new();
    let mut i: usize = 0;
    while i < folder_names.len()
        invariant
            i <= folder_names@.len(),
            m@.dom() == album_map(views(folder_names@.subrange(0, i as int))).dom(),
            forall|k: u8| #[trigger] m@.contains_key(k) ==> m@[k]@ == album_map(views(folder_names@.subrange(0, i as int)))[k],
        decreases folder_names@.len() - i,
    {
        let ghost before = folder_names@.subrange(0, i as int);
        let ghost after = folder_names@.subrange(0, i + 1);
        assert(views(after).drop_last() =~= views(before));
        assert(views(after).last() == folder_names@[i as int]@);
        match parse_album_folder(folder_names[i].as_str()) {
            Some(p) => {
                m.insert(p.0, p.1);
            },
            None => {},
        }
        i = i + 1;
    }
    assert(folder_names@.subrange(0, folder_names@.len() as int) =~= folder_names@);
    m
}

/// The entries of `map` laid out by key: position `k` holds the value for
/// `k`, or nothing; the vector ends at the largest key.
pub fn map_to_indexed_vec(map: &HashMap<u8, String>) -> (r: Vec<Option<String>>)
    ensures
        map@.dom().len() == 0 ==> r@.len() == 0,
        map@.dom().len() > 0 ==> r@.len() > 0 && map@.contains_key((r@.len() - 1) as u8),
        r@.len() <= 256,
        forall|k: u8| k >= r@.len() ==> !#[trigger] map@.contains_key(k),
        forall|i: int|
            0 <= i < r@.len() ==> (#[trigger] r@[i] == if map@.contains_key(i as u8) {
                Some(map@[i as u8])
            } else {
                None
            }),
{
    let mut max: Option<u8> = None;
    let mut k: u32 = 0;
    while k < 256
        invariant
            k <= 256,
            match max {
                Some(x) => x < k && map@.contains_key(x) && forall|j: u8| x < j < k ==> !#[trigger] map@.contains_key(j),
                None => forall|j: u8| j < k ==> !#[trigger] map@.contains_key(j),
            },
        decreases 256 - k,
    {
        if map.contains_key(&(k as u8)) {
            max = Some(k as u8);
        }
        k = k + 1;
    }
    let mut r: Vec<Option<String>> = Vec::new();
    match max {
        None => {
            assert(map@.dom() =~= Set::empty()) by {
                assert forall|j: u8| !map@.dom().contains(j) by {
                    assert(j < 256);
                }
            }
            r
        },
        Some(x) => {
            let mut i: u32 = 0;
            while i <= x as u32
                invariant
                    i <= x as u32 + 1,
                    r@.len() == i,
                    forall|j: int|
                        0 <= j < i ==> (#[trigger] r@[j] == if map@.contains_key(j as u8) {
                            Some(map@[j as u8])
                        } else {
                            None
                        }),
                decreases x as u32 + 1 - i,
            {
                match map.get(&(i as u8)) {
                    Some(v) => r.push(Some(v.clone())),
                    None => r.push(None),
                }
                i = i + 1;
            }
            assert(map@.dom().contains(x));
            assert(map@.dom().len() > 0) by {
                vstd::set_lib::lemma_set_empty_equivalency_len(map@.dom());
            }
            r
        },
    }
}

pub(crate) proof fn lemma_labels_stop(m: Map<u8, Seq<char>>, from: int, to: int)
    requires
        0 <= from <= to <= 256,
        forall|k: u8| k >= from ==> !#[trigger] m.contains_key(k),
    ensures
        labels_below(m, to) == labels_below(m, from),
    decreases to - from,
{
    if to > from {
        lemma_labels_stop(m, from, to - 1);
        assert(!m.contains_key((to - 1) as u8));
    }
}

} // verus!
