//! Which sections of an accordion are open.
use crate::text::same_text;
use vstd::prelude::*;
use vstd::std_specs::cmp::PartialEqSpec;

verus! {

/// Whether some element of `s` equals `item`, by `T`'s `==`.
pub open spec fn holds<T: PartialEq>(s: Seq<T>, item: T) -> bool {
    exists|i: int| 0 <= i < s.len() && s[i].eq_spec(&item)
}

/// `s` without the elements that equal `item`, by `T`'s `==`, in order.
pub open spec fn without<T: PartialEq>(s: Seq<T>, item: T) -> Seq<T>
    decreases s.len(),
{
    if s.len() == 0 {
        s
    } else if s.last().eq_spec(&item) {
        without(s.drop_last(), item)
    } else {
        without(s.drop_last(), item).push(s.last())
    }
}

/// The open values after pressing `item` when `current` are open: pressing
/// an open item closes it; otherwise it opens, alongside the others when
/// `multiple`, alone when not.
pub open spec fn toggled_values<T: PartialEq>(current: Seq<T>, item: T, multiple: bool) -> Seq<T> {
    if holds(current, item) {
        without(current, item)
    } else if multiple {
        current.push(item)
    } else {
        seq![item]
    }
}

/// Whether `current` holds `item`.
fn contains_item<T: PartialEq>(current: &[T], item: &T) -> (found: bool)
    ensures
        T::obeys_eq_spec() ==> found == holds(current@, *item),
{
    let mut i: usize = 0;
    while i < current.len()
        invariant
            i <= current.len(),
            T::obeys_eq_spec() ==> forall|j: int| 0 <= j < i ==> !current@[j].eq_spec(item),
        decreases current.len() - i,
    {
        if current[i] == *item {
            return true;
        }
        i = i + 1;
    }
    false
}

/// Whether `next` is, element by element, a clone of `values`.
pub open spec fn clones_of<T: Clone>(values: Seq<T>, next: Seq<T>) -> bool {
    &&& next.len() == values.len()
    &&& forall|k: int| 0 <= k < values.len() ==> cloned(values[k], #[trigger] next[k])
}

/// The open values after pressing `item`: clones of the values that
/// `toggled_values` gives, for an item type whose `==` has a specification
/// (`T::obeys_eq_spec()`). For other item types, among them `&str` and
/// `String`, the contract promises nothing; sections named by text are
/// covered exactly by [`toggled_text`] and [`toggled_strings`].
pub fn toggled<T: Clone + PartialEq>(current: &[T], item: &T, multiple: bool) -> (next: Vec<T>)
    ensures
        T::obeys_eq_spec() ==> clones_of(toggled_values(current@, *item, multiple), next@),
{
    if contains_item(current, item) {
        let mut next: Vec<T> = Vec::new();
        let mut i: usize = 0;
        while i < current.len()
            invariant
                i <= current.len(),
                T::obeys_eq_spec() ==> clones_of(without(current@.subrange(0, i as int), *item), next@),
            decreases current.len() - i,
        {
            let ghost s = current@.subrange(0, i + 1);
            let ghost before = next@;
            proof {
                assert(s.drop_last() =~= current@.subrange(0, i as int));
                assert(s.last() == current@[i as int]);
            }
            if current[i] != *item {
                let value = current[i].clone();
                next.push(value);
                proof {
                    if T::obeys_eq_spec() {
                        let w = without(current@.subrange(0, i as int), *item);
                        assert(without(s, *item) == w.push(current@[i as int]));
                        assert forall|k: int| 0 <= k < w.len() + 1 implies cloned(
                            w.push(current@[i as int])[k],
                            #[trigger] next@[k],
                        ) by {
                            if k < w.len() {
                                assert(next@[k] == before[k]);
                            }
                        }
                    }
                }
            }
            i = i + 1;
        }
        proof {
            assert(current@.subrange(0, current.len() as int) =~= current@);
        }
        next
    } else if multiple {
        let mut next: Vec<T> = Vec::new();
        let mut i: usize = 0;
        while i < current.len()
            invariant
                i <= current.len(),
                clones_of(current@.subrange(0, i as int), next@),
            decreases current.len() - i,
        {
            let ghost before = next@;
            let value = current[i].clone();
            next.push(value);
            proof {
                let p = current@.subrange(0, i + 1);
                assert forall|k: int| 0 <= k < i + 1 implies cloned(p[k], #[trigger] next@[k]) by {
                    if k < i {
                        assert(next@[k] == before[k]);
                        assert(p[k] == current@.subrange(0, i as int)[k]);
                    }
                }
            }
            i = i + 1;
        }
        proof {
            assert(current@.subrange(0, current.len() as int) =~= current@);
        }
        let ghost before = next@;
        let added = item.clone();
        next.push(added);
        proof {
            assert forall|k: int| 0 <= k < current@.len() + 1 implies cloned(
                current@.push(*item)[k],
                #[trigger] next@[k],
            ) by {
                if k < current@.len() {
                    assert(next@[k] == before[k]);
                }
            }
        }
        next
    } else {
        let mut next: Vec<T> = Vec::new();
        let added = item.clone();
        next.push(added);
        proof {
            assert(next@[0] == added);
        }
        next
    }
}

/// Removing matches never lengthens a list.
proof fn lemma_without_len<T: PartialEq>(s: Seq<T>, item: T)
    ensures
        without(s, item).len() <= s.len(),
    decreases s.len(),
{
    if s.len() > 0 {
        lemma_without_len(s.drop_last(), item);
    }
}

/// With one section open at a time, pressing a section leaves at most one
/// section open, and pressing a closed section leaves exactly that section
/// open.
pub proof fn lemma_single_mode_keeps_one_open<T: PartialEq>(current: Seq<T>, item: T)
    requires
        current.len() <= 1,
    ensures
        toggled_values(current, item, false).len() <= 1,
        !holds(current, item) ==> toggled_values(current, item, false) == seq![item],
{
    lemma_without_len(current, item);
}

/// With several sections allowed, pressing a closed section adds it after
/// the open ones, and pressing an open one removes every copy of it.
pub proof fn lemma_multiple_mode_adds_and_removes<T: PartialEq>(current: Seq<T>, item: T)
    ensures
        !holds(current, item) ==> toggled_values(current, item, true) == current.push(item),
        holds(current, item) ==> !holds(toggled_values(current, item, true), item),
{
    if holds(current, item) {
        lemma_without_drops(current, item);
    }
}

/// No element of the result of removing matches is a match.
proof fn lemma_without_drops<T: PartialEq>(s: Seq<T>, item: T)
    ensures
        !holds(without(s, item), item),
    decreases s.len(),
{
    if s.len() > 0 {
        lemma_without_drops(s.drop_last(), item);
        let w = without(s.drop_last(), item);
        if !s.last().eq_spec(&item) {
            assert forall|i: int| 0 <= i < w.push(s.last()).len() implies !w.push(s.last())[i].eq_spec(&item) by {
                if i < w.len() {
                    assert(w.push(s.last())[i] == w[i]);
                }
            }
        }
    }
}

/// `s` without the texts equal to `item`, in order.
pub open spec fn without_text(s: Seq<Seq<char>>, item: Seq<char>) -> Seq<Seq<char>>
    decreases s.len(),
{
    if s.len() == 0 {
        s
    } else if s.last() == item {
        without_text(s.drop_last(), item)
    } else {
        without_text(s.drop_last(), item).push(s.last())
    }
}

/// The open texts after pressing `item` when `current` are open: pressing
/// an open one closes it; otherwise it opens, alongside the others when
/// `multiple`, alone when not.
pub open spec fn toggled_texts(current: Seq<Seq<char>>, item: Seq<char>, multiple: bool) -> Seq<
    Seq<char>,
> {
    if current.contains(item) {
        without_text(current, item)
    } else if multiple {
        current.push(item)
    } else {
        seq![item]
    }
}

/// The texts of `items`.
pub open spec fn str_views(items: Seq<&str>) -> Seq<Seq<char>> {
    items.map_values(|s: &str| s@)
}

/// The texts of `items`.
pub open spec fn string_views(items: Seq<String>) -> Seq<Seq<char>> {
    items.map_values(|s: String| s@)
}

/// The open sections after pressing `item`, for sections named by text.
pub fn toggled_text<'a>(current: &[&'a str], item: &'a str, multiple: bool) -> (next: Vec<&'a str>)
    ensures
        str_views(next@) == toggled_texts(str_views(current@), item@, multiple),
{
    let ghost views = str_views(current@);
    let mut found = false;
    let mut i: usize = 0;
    while i < current.len()
        invariant
            i <= current.len(),
            views == str_views(current@),
            found == exists|j: int| 0 <= j < i && views[j] == item@,
        decreases current.len() - i,
    {
        if same_text(current[i], item) {
            assert(views[i as int] == item@);
            found = true;
        }
        i = i + 1;
    }
    proof {
        if found {
            let j = choose|j: int| 0 <= j < current.len() && views[j] == item@;
            assert(views.contains(item@));
        } else {
            assert(!views.contains(item@)) by {
                if views.contains(item@) {
                    let j = choose|j: int| 0 <= j < views.len() && views[j] == item@;
                    assert(0 <= j < current.len());
                }
            }
        }
    }
    let mut next: Vec<&'a str> = Vec::new();
    if found {
        let mut k: usize = 0;
        while k < current.len()
            invariant
                k <= current.len(),
                views == str_views(current@),
                str_views(next@) == without_text(views.subrange(0, k as int), item@),
            decreases current.len() - k,
        {
            let ghost p = views.subrange(0, k + 1);
            proof {
                assert(p.drop_last() =~= views.subrange(0, k as int));
                assert(p.last() == current@[k as int]@);
            }
            if !same_text(current[k], item) {
                next.push(current[k]);
                proof {
                    assert(str_views(next@) =~= without_text(views.subrange(0, k as int), item@).push(
                        current@[k as int]@,
                    ));
                }
            }
            k = k + 1;
        }
        proof {
            assert(views.subrange(0, current.len() as int) =~= views);
        }
    } else {
        if multiple {
            let mut k: usize = 0;
            while k < current.len()
                invariant
                    k <= current.len(),
                    next@ == current@.subrange(0, k as int),
                decreases current.len() - k,
            {
                next.push(current[k]);
                k = k + 1;
                assert(next@ =~= current@.subrange(0, k as int));
            }
            proof {
                assert(current@.subrange(0, current.len() as int) =~= current@);
            }
        }
        let ghost before = next@;
        next.push(item);
        proof {
            assert(next@ == before.push(item));
            assert(str_views(next@) =~= str_views(before).push(item@));
        }
    }
    next
}

/// The open sections after pressing `item`, for sections named by owned
/// text.
pub fn toggled_strings(current: &[String], item: &String, multiple: bool) -> (next: Vec<String>)
    ensures
        string_views(next@) == toggled_texts(string_views(current@), item@, multiple),
{
    let ghost views = string_views(current@);
    let mut found = false;
    let mut i: usize = 0;
    while i < current.len()
        invariant
            i <= current.len(),
            views == string_views(current@),
            found == exists|j: int| 0 <= j < i && views[j] == item@,
        decreases current.len() - i,
    {
        if current[i] == *item {
            assert(views[i as int] == item@);
            found = true;
        }
        i = i + 1;
    }
    proof {
        if found {
            let j = choose|j: int| 0 <= j < current.len() && views[j] == item@;
            assert(views.contains(item@));
        } else {
            assert(!views.contains(item@)) by {
                if views.contains(item@) {
                    let j = choose|j: int| 0 <= j < views.len() && views[j] == item@;
                    assert(0 <= j < current.len());
                }
            }
        }
    }
    let mut next: Vec<String> = Vec::new();
    if found {
        let mut k: usize = 0;
        while k < current.len()
            invariant
                k <= current.len(),
                views == string_views(current@),
                string_views(next@) == without_text(views.subrange(0, k as int), item@),
            decreases current.len() - k,
        {
            let ghost p = views.subrange(0, k + 1);
            proof {
                assert(p.drop_last() =~= views.subrange(0, k as int));
                assert(p.last() == current@[k as int]@);
            }
            if current[k] != *item {
                let value = current[k].clone();
                next.push(value);
                proof {
                    assert(string_views(next@) =~= without_text(views.subrange(0, k as int), item@).push(
                        current@[k as int]@,
                    ));
                }
            }
            k = k + 1;
        }
        proof {
            assert(views.subrange(0, current.len() as int) =~= views);
        }
    } else {
        if multiple {
            let mut k: usize = 0;
            while k < current.len()
                invariant
                    k <= current.len(),
                    next@ == current@.subrange(0, k as int),
                decreases current.len() - k,
            {
                let value = current[k].clone();
                next.push(value);
                k = k + 1;
                assert(next@ =~= current@.subrange(0, k as int));
            }
            proof {
                assert(current@.subrange(0, current.len() as int) =~= current@);
            }
        }
        let ghost before = next@;
        let added = item.clone();
        next.push(added);
        proof {
            assert(string_views(next@) =~= string_views(before).push(item@));
        }
    }
    next
}

/// Removing equal texts never lengthens a list, and leaves none equal.
proof fn lemma_without_text(s: Seq<Seq<char>>, item: Seq<char>)
    ensures
        without_text(s, item).len() <= s.len(),
        !without_text(s, item).contains(item),
    decreases s.len(),
{
    if s.len() > 0 {
        lemma_without_text(s.drop_last(), item);
        let w = without_text(s.drop_last(), item);
        if s.last() != item {
            assert(!w.push(s.last()).contains(item)) by {
                if w.push(s.last()).contains(item) {
                    let j = choose|j: int| 0 <= j < w.len() + 1 && w.push(s.last())[j] == item;
                    if j < w.len() {
                        assert(w[j] == item);
                    }
                }
            }
        }
    }
}

/// For sections named by text: with one open at a time, pressing leaves at
/// most one open, and pressing a closed one leaves exactly it open; with
/// several allowed, pressing a closed one adds it after the open ones, and
/// pressing an open one closes every copy of it.
pub proof fn lemma_text_sections(current: Seq<Seq<char>>, item: Seq<char>)
    ensures
        current.len() <= 1 ==> toggled_texts(current, item, false).len() <= 1,
        !current.contains(item) ==> toggled_texts(current, item, false) == seq![item],
        !current.contains(item) ==> toggled_texts(current, item, true) == current.push(item),
        current.contains(item) ==> !toggled_texts(current, item, true).contains(item),
{
    lemma_without_text(current, item);
}

} // verus!
