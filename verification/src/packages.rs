//! The list of packages that a project depends on, from the names in the
//! sections of its manifest.

use crate::modules::strings_of;
use crate::text::to_chars;
use vstd::prelude::*;

verus! {

/// Whether `a` comes before `b` in the order of strings: at the first
/// position where the two differ, `a` has the smaller character, or `a`
/// ends there and `b` goes on.
pub open spec fn text_before(a: Seq<char>, b: Seq<char>) -> bool
    decreases a.len(),
{
    if b.len() == 0 {
        false
    } else if a.len() == 0 {
        true
    } else if a[0] != b[0] {
        (a[0] as u32) < (b[0] as u32)
    } else {
        text_before(a.skip(1), b.skip(1))
    }
}

/// Whether every text of the list comes before all that follow it. Such a
/// list holds no text twice.
pub open spec fn ascending(list: Seq<Seq<char>>) -> bool {
    forall|i: int, j: int| 0 <= i < j < list.len() ==> text_before(#[trigger] list[i], #[trigger] list[j])
}

/// How two texts stand to each other in the order of strings.
#[derive(Debug, Clone, Copy, PartialEq, Eq)]
pub enum Standing {
    Before,
    Same,
    After,
}

/// No text comes before itself.
pub proof fn lemma_text_before_irreflexive(a: Seq<char>)
    ensures
        !text_before(a, a),
    decreases a.len(),
{
    if a.len() > 0 {
        lemma_text_before_irreflexive(a.skip(1));
    }
}

/// What comes before a text comes before all that the text comes before.
pub proof fn lemma_text_before_transitive(a: Seq<char>, b: Seq<char>, c: Seq<char>)
    requires
        text_before(a, b),
        text_before(b, c),
    ensures
        text_before(a, c),
    decreases a.len(),
{
    if a.len() > 0 && a[0] == b[0] && b[0] == c[0] {
        lemma_text_before_transitive(a.skip(1), b.skip(1), c.skip(1));
    }
}

/// Two characters that differ have codes that differ.
proof fn lemma_codes_differ(a: char, b: char)
    ensures
        a != b ==> a as u32 != b as u32,
{
}

/// Whether the code of `a` is smaller than the code of `b`.
fn code_before(a: char, b: char) -> (before: bool)
    ensures
        before == ((a as u32) < (b as u32)),
{
    a < b
}

/// How `a` stands to `b` in the order of strings.
pub fn standing(a: &str, b: &str) -> (result: Standing)
    ensures
        result == Standing::Before <==> text_before(a@, b@),
        result == Standing::Same <==> a@ == b@,
        result == Standing::After <==> text_before(b@, a@),
{
    let x = to_chars(a);
    let y = to_chars(b);
    let mut i: usize = 0;
    proof {
        assert(x@.skip(0) =~= x@);
        assert(y@.skip(0) =~= y@);
    }
    while i < x.len() && i < y.len() && x[i] == y[i]
        invariant
            i <= x.len(),
            i <= y.len(),
            text_before(x@, y@) == text_before(x@.skip(i as int), y@.skip(i as int)),
            text_before(y@, x@) == text_before(y@.skip(i as int), x@.skip(i as int)),
            (x@ == y@) == (x@.skip(i as int) == y@.skip(i as int)),
        decreases x.len() - i,
    {
        proof {
            let p = x@.skip(i as int);
            let q = y@.skip(i as int);
            assert(p.skip(1) =~= x@.skip(i + 1));
            assert(q.skip(1) =~= y@.skip(i + 1));
            assert(p[0] == q[0]);
            if p.skip(1) == q.skip(1) {
                assert(p =~= seq![p[0]] + p.skip(1));
                assert(q =~= seq![q[0]] + q.skip(1));
            }
        }
        i += 1;
    }
    let ghost p = x@.skip(i as int);
    let ghost q = y@.skip(i as int);
    if i == x.len() && i == y.len() {
        proof {
            assert(p =~= q);
            assert(!text_before(p, q) && !text_before(q, p));
        }
        Standing::Same
    } else if i == x.len() {
        proof {
            assert(p.len() == 0 && q.len() > 0);
            assert(text_before(p, q) && !text_before(q, p));
        }
        Standing::Before
    } else if i == y.len() {
        proof {
            assert(q.len() == 0 && p.len() > 0);
            assert(text_before(q, p) && !text_before(p, q));
        }
        Standing::After
    } else {
        let first = x[i];
        let second = y[i];
        proof {
            assert(p[0] == first && q[0] == second);
            assert(first != second);
        }
        proof {
            lemma_codes_differ(first, second);
        }
        if code_before(first, second) {
            proof {
                assert(text_before(p, q));
                assert(!text_before(q, p));
            }
            Standing::Before
        } else {
            proof {
                assert(text_before(q, p));
                assert(!text_before(p, q));
            }
            Standing::After
        }
    }
}

/// The place of `name` in an ascending list, and whether the list holds
/// it there: every text before the place comes before `name`, and the text
/// at the place is `name` or comes after it.
fn place_of(list: &Vec<String>, name: &str) -> (place: (usize, bool))
    ensures
        place.0 <= list.len(),
        forall|k: int| 0 <= k < place.0 ==> text_before(#[trigger] strings_of(list@)[k], name@),
        place.1 ==> place.0 < list.len() && strings_of(list@)[place.0 as int] == name@,
        !place.1 && place.0 < list.len() ==> text_before(
            name@,
            strings_of(list@)[place.0 as int],
        ),
{
    let ghost texts = strings_of(list@);
    let mut i: usize = 0;
    while i < list.len()
        invariant
            i <= list.len(),
            texts == strings_of(list@),
            forall|k: int| 0 <= k < i ==> text_before(#[trigger] texts[k], name@),
        decreases list.len() - i,
    {
        proof {
            assert(texts[i as int] == list@[i as int]@);
        }
        match standing(list[i].as_str(), name) {
            Standing::Before => {
                i += 1;
            },
            Standing::Same => {
                return (i, true);
            },
            Standing::After => {
                return (i, false);
            },
        }
    }
    (i, false)
}

/// Puts `name` into an ascending list at its place, unless the list holds it.
pub fn insert_name(list: &mut Vec<String>, name: &str)
    requires
        ascending(strings_of(old(list)@)),
    ensures
        ascending(strings_of(final(list)@)),
        forall|text: Seq<char>|
            #[trigger] strings_of(final(list)@).contains(text) <==> strings_of(
                old(list)@,
            ).contains(text) || text == name@,
{
    let ghost before = strings_of(list@);
    let (i, present) = place_of(list, name);
    if present {
        proof {
            assert(before.contains(name@));
        }
        return ;
    }
    list.insert(i, name.to_owned());
    proof {
        let after = strings_of(list@);
        assert(after =~= before.insert(i as int, name@));
        assert forall|k: int| i <= k < before.len() implies text_before(
            name@,
            #[trigger] before[k],
        ) by {
            if k > i {
                lemma_text_before_transitive(name@, before[i as int], before[k]);
            }
        }
        assert forall|a: int, b: int| 0 <= a < b < after.len() implies text_before(
            #[trigger] after[a],
            #[trigger] after[b],
        ) by {
            if b < i {
                assert(after[a] == before[a] && after[b] == before[b]);
            } else if b == i {
                assert(after[a] == before[a]);
            } else if a == i {
                assert(after[b] == before[b - 1]);
            } else if a < i {
                assert(after[a] == before[a] && after[b] == before[b - 1]);
                lemma_text_before_transitive(before[a], name@, before[b - 1]);
            } else {
                assert(after[a] == before[a - 1] && after[b] == before[b - 1]);
            }
        }
        assert forall|text: Seq<char>| after.contains(text) <==> before.contains(text) || text
            == name@ by {
            if after.contains(text) {
                let k = choose|k: int| 0 <= k < after.len() && after[k] == text;
                if k < i {
                    assert(before[k] == text);
                } else if k > i {
                    assert(before[k - 1] == text);
                }
            }
            if before.contains(text) {
                let k = choose|k: int| 0 <= k < before.len() && before[k] == text;
                if k < i {
                    assert(after[k] == text);
                } else {
                    assert(after[k + 1] == text);
                }
            }
            if text == name@ {
                assert(after[i as int] == text);
            }
        }
    }
}

/// Puts every name of `names` into an ascending list: see [`insert_name`].
pub fn insert_names(list: &mut Vec<String>, names: &Vec<String>)
    requires
        ascending(strings_of(old(list)@)),
    ensures
        ascending(strings_of(final(list)@)),
        forall|text: Seq<char>|
            #[trigger] strings_of(final(list)@).contains(text) <==> strings_of(
                old(list)@,
            ).contains(text) || strings_of(names@).contains(text),
{
    let ghost all = strings_of(names@);
    let mut i: usize = 0;
    while i < names.len()
        invariant
            i <= names.len(),
            all == strings_of(names@),
            ascending(strings_of(list@)),
            forall|text: Seq<char>|
                #[trigger] strings_of(list@).contains(text) <==> strings_of(old(list)@).contains(
                    text,
                ) || all.take(i as int).contains(text),
        decreases names.len() - i,
    {
        let ghost held = strings_of(list@);
        insert_name(list, names[i].as_str());
        proof {
            let name = names@[i as int]@;
            assert(all[i as int] == name);
            let shorter = all.take(i as int);
            let longer = all.take(i + 1);
            assert forall|text: Seq<char>|
                strings_of(list@).contains(text) <==> strings_of(old(list)@).contains(text)
                    || longer.contains(text) by {
                if longer.contains(text) {
                    let k = choose|k: int| 0 <= k < longer.len() && longer[k] == text;
                    if k < i {
                        assert(shorter[k] == text);
                    }
                }
                if shorter.contains(text) {
                    let k = choose|k: int| 0 <= k < shorter.len() && shorter[k] == text;
                    assert(longer[k] == text);
                }
                if text == name {
                    assert(longer[i as int] == text);
                }
            }
        }
        i += 1;
    }
    proof {
        assert(all.take(i as int) =~= all);
    }
}

/// The packages that a project depends on, from the names in the three
/// dependency sections of its manifest: every name of any section, each
/// once, in the order of strings.
pub fn get_npm_packages(
    dependencies: &Vec<String>,
    dev_dependencies: &Vec<String>,
    peer_dependencies: &Vec<String>,
) -> (packages: Vec<String>)
    ensures
        ascending(strings_of(packages@)),
        forall|text: Seq<char>|
            #[trigger] strings_of(packages@).contains(text) <==> strings_of(dependencies@).contains(
                text,
            )
                || strings_of(dev_dependencies@).contains(text) || strings_of(
                peer_dependencies@,
            ).contains(text),
{
    let mut packages: Vec<String> = Vec::new();
    proof {
        assert(strings_of(packages@) =~= Seq::<Seq<char>>::empty());
    }
    let ghost none = strings_of(packages@);
    insert_names(&mut packages, dependencies);
    let ghost first = strings_of(packages@);
    insert_names(&mut packages, dev_dependencies);
    let ghost second = strings_of(packages@);
    insert_names(&mut packages, peer_dependencies);
    proof {
        let all = strings_of(packages@);
        assert forall|text: Seq<char>|
            all.contains(text) <==> strings_of(dependencies@).contains(text) || strings_of(
                dev_dependencies@,
            ).contains(text) || strings_of(peer_dependencies@).contains(text) by {
            assert(!none.contains(text));
            assert(first.contains(text) <==> none.contains(text) || strings_of(
                dependencies@,
            ).contains(text));
            assert(second.contains(text) <==> first.contains(text) || strings_of(
                dev_dependencies@,
            ).contains(text));
            assert(all.contains(text) <==> second.contains(text) || strings_of(
                peer_dependencies@,
            ).contains(text));
        }
    }
    packages
}

} // verus!
