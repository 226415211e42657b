//! The list of colleges a registration form searches while the operator types.
use vstd::prelude::*;

use crate::dispatch::colleges_view;
use crate::model::{College, CollegeView};
use crate::text::{fuzzy_match, fuzzy_matches, lower_of, same_text, to_lowercase};

verus! {

/// The colleges of `cs` whose lowercase name fuzzily matches `key_lower`, in their order.
pub open spec fn fuzzy_filtered(cs: Seq<CollegeView>, key_lower: Seq<char>) -> Seq<CollegeView> {
    cs.filter(|c: CollegeView| fuzzy_matches(key_lower, lower_of(c.name)))
}

/// The colleges of `cs` kept where `names_lower` (one entry per college) fuzzily matches `key_lower`.
pub open spec fn fuzzy_picked(cs: Seq<CollegeView>, key_lower: Seq<char>, names_lower: Seq<Seq<char>>) -> Seq<CollegeView>
    decreases cs.len(),
{
    if cs.len() == 0 || names_lower.len() == 0 {
        Seq::empty()
    } else {
        let rest = fuzzy_picked(cs.drop_last(), key_lower, names_lower.drop_last());
        if fuzzy_matches(key_lower, names_lower.last()) {
            rest.push(cs.last())
        } else {
            rest
        }
    }
}

pub open spec fn strings_view(v: Seq<String>) -> Seq<Seq<char>> {
    v.map_values(|s: String| s@)
}

/// The colleges a form has loaded from the desk, if it has.
pub enum CollegeList {
    NotLoaded,
    Loaded(Vec<College>),
}

impl CollegeList {
    pub fn new_loaded(colleges: Vec<College>) -> (r: Self)
        ensures
            r == CollegeList::Loaded(colleges),
    {
        CollegeList::Loaded(colleges)
    }

    pub fn is_loaded(&self) -> (r: bool)
        ensures
            r == self is Loaded,
    {
        match self {
            CollegeList::Loaded(_) => true,
            CollegeList::NotLoaded => false,
        }
    }

    /// The loaded colleges whose name fuzzily matches `key`, both taken in lowercase;
    /// nothing while the list is not loaded.
    pub fn fuzzy_filter(&self, key: &str) -> (r: Vec<College>)
        ensures
            colleges_view(r) == match self {
                CollegeList::Loaded(cs) => fuzzy_filtered(colleges_view(*cs), lower_of(key@)),
                CollegeList::NotLoaded => Seq::<CollegeView>::empty(),
            },
    {
        match self {
            CollegeList::Loaded(colleges) => {
                let key_lower = to_lowercase(key);
                let mut names_lower: Vec<String> = Vec::new();
                let mut i: usize = 0;
                while i < colleges.len()
                    invariant
                        i <= colleges@.len(),
                        names_lower@.len() == i,
                        forall|j: int| 0 <= j < i ==> #[trigger] names_lower@[j]@ == lower_of(colleges@[j]@.name),
                    decreases colleges.len() - i,
                {
                    names_lower.push(to_lowercase(colleges[i].name()));
                    i = i + 1;
                }
                let r = fuzzy_filter_folded(colleges, key_lower.as_str(), &names_lower);
                proof {
                    lemma_picked_is_filtered(colleges_view(*colleges), key_lower@, strings_view(names_lower@));
                }
                r
            },
            CollegeList::NotLoaded => Vec::new(),
        }
    }

    /// The first loaded college named exactly `name`.
    pub fn find(&self, name: &str) -> (r: Option<College>)
        requires
            self is Loaded,
        ensures
            r is None <==> forall|i: int|
                0 <= i < self->Loaded_0@.len() ==> (#[trigger] self->Loaded_0@[i])@.name != name@,
            r matches Some(c) ==> exists|i: int|
                0 <= i < self->Loaded_0@.len() && (#[trigger] self->Loaded_0@[i]) == c && c@.name == name@
                    && forall|j: int| 0 <= j < i ==> (#[trigger] self->Loaded_0@[j])@.name != name@,
    {
        let colleges = match self {
            CollegeList::Loaded(colleges) => colleges,
            CollegeList::NotLoaded => {
                return None;
            },
        };
        assert(self->Loaded_0 == *colleges);
        let mut i: usize = 0;
        while i < colleges.len()
            invariant
                self->Loaded_0 == *colleges,
                i <= colleges@.len(),
                forall|j: int| 0 <= j < i ==> (#[trigger] colleges@[j])@.name != name@,
            decreases colleges.len() - i,
        {
            if same_text(colleges[i].name(), name) {
                let c = colleges[i].clone();
                assert(colleges@[i as int] == c && c@.name == name@);
                return Some(c);
            }
            i = i + 1;
        }
        None
    }
}

/// Keeps the colleges whose lowercase name (given, one per college, in
/// `names_lower`) fuzzily matches the lowercase key `key_lower`.
pub fn fuzzy_filter_folded(colleges: &Vec<College>, key_lower: &str, names_lower: &Vec<String>) -> (r: Vec<College>)
    requires
        names_lower@.len() == colleges@.len(),
    ensures
        colleges_view(r) == fuzzy_picked(colleges_view(*colleges), key_lower@, strings_view(names_lower@)),
{
    let ghost cs = colleges_view(*colleges);
    let ghost ns = strings_view(names_lower@);
    let mut kept: Vec<College> = Vec::new();
    let mut i: usize = 0;
    while i < colleges.len()
        invariant
            i <= colleges@.len(),
            names_lower@.len() == colleges@.len(),
            cs == colleges_view(*colleges),
            ns == strings_view(names_lower@),
            colleges_view(kept) == fuzzy_picked(cs.take(i as int), key_lower@, ns.take(i as int)),
        decreases colleges.len() - i,
    {
        proof {
            assert(cs.take(i as int + 1).drop_last() =~= cs.take(i as int));
            assert(ns.take(i as int + 1).drop_last() =~= ns.take(i as int));
            assert(ns.take(i as int + 1).last() == names_lower@[i as int]@);
        }
        if fuzzy_match(key_lower, names_lower[i].as_str()) {
            kept.push(colleges[i].clone());
            assert(colleges_view(kept) =~= fuzzy_picked(cs.take(i as int), key_lower@, ns.take(i as int)).push(cs[i as int]));
        }
        i = i + 1;
    }
    assert(cs.take(i as int) =~= cs);
    assert(ns.take(i as int) =~= ns);
    kept
}

proof fn lemma_picked_is_filtered(cs: Seq<CollegeView>, key_lower: Seq<char>, names_lower: Seq<Seq<char>>)
    requires
        names_lower.len() == cs.len(),
        forall|j: int| 0 <= j < cs.len() ==> #[trigger] names_lower[j] == lower_of(cs[j].name),
    ensures
        fuzzy_picked(cs, key_lower, names_lower) == fuzzy_filtered(cs, key_lower),
    decreases cs.len(),
{
    reveal(Seq::filter);
    if cs.len() > 0 {
        lemma_picked_is_filtered(cs.drop_last(), key_lower, names_lower.drop_last());
        assert(names_lower.last() == lower_of(cs.last().name));
    }
}

} // verus!
