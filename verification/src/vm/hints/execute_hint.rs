//! What a hint is given: the references it may name, and the ids under which
//! it names them.

use crate::types::field_int::FieldInt;
use crate::types::instruction::Register;
use vstd::prelude::*;
use vstd::string::StringExecFns;

verus! {

/// How far `ap` had moved, within a group of instructions, at the place that
/// a reference or a hint was written down.
#[derive(Debug, PartialEq, Eq, Structural, Clone, Copy)]
pub struct ApTracking {
    pub group: usize,
    pub offset: usize,
}

/// A memory location, named from a register.
#[derive(Debug, PartialEq, Eq, Clone, Copy)]
pub struct HintReference {
    pub register: Register,
    pub offset1: i32,
    pub offset2: i32,
    pub inner_dereference: bool,
    pub ap_tracking_data: Option<ApTracking>,
}

/// The ids of the references that a hint names, each under its name, in the
/// order in which the names were first put in. [`HintIds::insert`] keeps each
/// name once.
#[derive(Debug)]
pub struct HintIds {
    pub entries: Vec<(String, FieldInt)>,
}

/// The id that stands under `name` in `ids`, searched from `from` on.
pub open spec fn find_id(ids: Seq<(Seq<char>, int)>, name: Seq<char>, from: int) -> Option<int>
    decreases ids.len() - from,
{
    if from < 0 || from >= ids.len() {
        None
    } else if ids[from].0 == name {
        Some(ids[from].1)
    } else {
        find_id(ids, name, from + 1)
    }
}

impl View for HintIds {
    type V = Seq<(Seq<char>, int)>;

    open spec fn view(&self) -> Seq<(Seq<char>, int)> {
        Seq::new(self.entries@.len(), |i: int| (self.entries@[i].0@, self.entries@[i].1@))
    }
}

/// The place of the first entry under `name` in `ids`, searched from `from`
/// on.
pub open spec fn place_of(ids: Seq<(Seq<char>, int)>, name: Seq<char>, from: int) -> Option<int>
    decreases ids.len() - from,
{
    if from < 0 || from >= ids.len() {
        None
    } else if ids[from].0 == name {
        Some(from)
    } else {
        place_of(ids, name, from + 1)
    }
}

/// The ids with `id` under `name`: in the place of the id that stood under
/// the name, or behind the others where the name is new.
pub open spec fn put_id(ids: Seq<(Seq<char>, int)>, name: Seq<char>, id: int) -> Seq<
    (Seq<char>, int),
> {
    match place_of(ids, name, 0) {
        Some(place) => ids.update(place, (name, id)),
        None => ids.push((name, id)),
    }
}

/// Whether no name stands twice in `ids`.
pub open spec fn names_differ(ids: Seq<(Seq<char>, int)>) -> bool {
    forall|i: int, j: int| 0 <= i < j < ids.len() ==> (#[trigger] ids[i]).0 != (#[trigger] ids[j]).0
}

/// The names of `ids`, in their order.
pub open spec fn id_names(ids: Seq<(Seq<char>, int)>) -> Seq<Seq<char>> {
    Seq::new(ids.len(), |i: int| ids[i].0)
}

impl HintIds {
    /// No ids.
    pub fn new() -> (r: HintIds)
        ensures
            r@ == Seq::<(Seq<char>, int)>::empty(),
    {
        let r = HintIds { entries: Vec::new() };
        proof {
            assert(r@ =~= Seq::<(Seq<char>, int)>::empty());
        }
        r
    }

    /// Puts `id` under `name`. An id that stood under the name gives way to
    /// it; a new name goes behind the others.
    pub fn insert(&mut self, name: String, id: FieldInt)
        ensures
            final(self)@ == put_id(old(self)@, name@, id@),
            names_differ(old(self)@) ==> names_differ(final(self)@),
    {
        proof {
            lemma_put_id(old(self)@, name@, id@, name@);
        }
        let mut i: usize = 0;
        while i < self.entries.len()
            invariant
                i <= self.entries.len(),
                *self == *old(self),
                place_of(self@, name@, 0) == place_of(self@, name@, i as int),
            decreases self.entries.len() - i,
        {
            if self.entries[i].0 == name {
                self.entries[i] = (name, id);
                proof {
                    assert(self@ =~= old(self)@.update(i as int, (name@, id@)));
                }
                return ;
            }
            i += 1;
        }
        self.entries.push((name, id));
        proof {
            assert(self@ =~= old(self)@.push((name@, id@)));
        }
    }

    /// The id under `name`.
    pub fn get(&self, name: &str) -> (r: Option<&FieldInt>)
        ensures
            match r {
                Some(id) => find_id(self@, name@, 0) == Some(id@),
                None => find_id(self@, name@, 0) is None,
            },
    {
        let wanted = String::from_str(name);
        let mut i: usize = 0;
        while i < self.entries.len()
            invariant
                i <= self.entries.len(),
                wanted@ == name@,
                find_id(self@, name@, 0) == find_id(self@, name@, i as int),
            decreases self.entries.len() - i,
        {
            if self.entries[i].0 == wanted {
                return Some(&self.entries[i].1);
            }
            i += 1;
        }
        None
    }

    /// The names, in their order.
    pub fn names(&self) -> (r: Vec<String>)
        ensures
            r@.len() == self@.len(),
            forall|i: int| 0 <= i < r@.len() ==> r@[i]@ == self@[i].0,
    {
        let mut names: Vec<String> = Vec::new();
        let mut i: usize = 0;
        while i < self.entries.len()
            invariant
                i <= self.entries.len(),
                names@.len() == i,
                forall|k: int| 0 <= k < i ==> names@[k]@ == self@[k].0,
            decreases self.entries.len() - i,
        {
            names.push(self.entries[i].0.clone());
            i += 1;
        }
        names
    }
}

impl Clone for HintIds {
    fn clone(&self) -> (r: HintIds)
        ensures
            r@ == self@,
    {
        let mut entries: Vec<(String, FieldInt)> = Vec::new();
        let mut i: usize = 0;
        while i < self.entries.len()
            invariant
                i <= self.entries.len(),
                entries@.len() == i,
                forall|k: int|
                    0 <= k < i ==> entries@[k].0@ == self.entries@[k].0@ && entries@[k].1@
                        == self.entries@[k].1@,
            decreases self.entries.len() - i,
        {
            entries.push((self.entries[i].0.clone(), self.entries[i].1.clone()));
            i += 1;
        }
        let r = HintIds { entries };
        proof {
            assert(r@ =~= self@);
        }
        r
    }
}

/// A hint of a program: which of the hints of the machine it is, the ids of
/// the references it names, and how far `ap` had moved where it was written
/// down.
#[derive(Debug)]
pub struct HintData {
    pub hint_code: String,
    pub ids: HintIds,
    pub ap_tracking_data: ApTracking,
}

/// The mathematical value of a [`HintData`].
pub struct HintDataView {
    pub hint_code: Seq<char>,
    pub ids: Seq<(Seq<char>, int)>,
    pub ap_tracking_data: ApTracking,
}

impl View for HintData {
    type V = HintDataView;

    open spec fn view(&self) -> HintDataView {
        HintDataView {
            hint_code: self.hint_code@,
            ids: self.ids@,
            ap_tracking_data: self.ap_tracking_data,
        }
    }
}

impl Clone for HintData {
    fn clone(&self) -> (r: HintData)
        ensures
            r@ == self@,
    {
        HintData {
            hint_code: self.hint_code.clone(),
            ids: self.ids.clone(),
            ap_tracking_data: self.ap_tracking_data,
        }
    }
}

/// The values of the hints of a list.
pub open spec fn hint_list_view(hints: Vec<HintData>) -> Seq<HintDataView> {
    Seq::new(hints@.len(), |i: int| hints@[i]@)
}

/// Where [`place_of`] finds a name, the name stands there and nowhere
/// before; where it finds none, the name stands nowhere from `from` on.
pub proof fn lemma_place_of(ids: Seq<(Seq<char>, int)>, name: Seq<char>, from: int)
    requires
        0 <= from,
    ensures
        match place_of(ids, name, from) {
            Some(place) => from <= place < ids.len() && ids[place].0 == name && forall|k: int|
                from <= k < place ==> (#[trigger] ids[k]).0 != name,
            None => forall|k: int| from <= k < ids.len() ==> (#[trigger] ids[k]).0 != name,
        },
    decreases ids.len() - from,
{
    if from < ids.len() && ids[from].0 != name {
        lemma_place_of(ids, name, from + 1);
    }
}

/// What is found under `other` from `from` on, after `id` was put under
/// `name`.
proof fn lemma_find_after_put(
    ids: Seq<(Seq<char>, int)>,
    name: Seq<char>,
    id: int,
    other: Seq<char>,
    from: int,
)
    requires
        0 <= from,
    ensures
        other != name ==> find_id(put_id(ids, name, id), other, from) == find_id(ids, other, from),
        (match place_of(ids, name, 0) {
            Some(place) => from <= place,
            None => from <= ids.len(),
        }) ==> find_id(put_id(ids, name, id), name, from) == Some(id),
    decreases ids.len() + 1 - from,
{
    lemma_place_of(ids, name, 0);
    let put = put_id(ids, name, id);
    if from < put.len() {
        lemma_find_after_put(ids, name, id, other, from + 1);
        if from < ids.len() {
            assert(put[from].0 == ids[from].0);
        }
    }
}

/// After `id` was put under `name`, it is what is found there, what is found
/// under every other name is what was found there before, and no name
/// stands twice where none did.
pub proof fn lemma_put_id(ids: Seq<(Seq<char>, int)>, name: Seq<char>, id: int, other: Seq<char>)
    ensures
        find_id(put_id(ids, name, id), name, 0) == Some(id),
        other != name ==> find_id(put_id(ids, name, id), other, 0) == find_id(ids, other, 0),
        names_differ(ids) ==> names_differ(put_id(ids, name, id)),
{
    lemma_place_of(ids, name, 0);
    lemma_find_after_put(ids, name, id, other, 0);
    let put = put_id(ids, name, id);
    if names_differ(ids) {
        assert forall|i: int, j: int| 0 <= i < j < put.len() implies (#[trigger] put[i]).0 != (
        #[trigger] put[j]).0 by {
            if i < ids.len() {
                assert(put[i].0 == ids[i].0);
            }
            if j < ids.len() {
                assert(put[j].0 == ids[j].0);
                assert(ids[i].0 != ids[j].0);
            }
        }
    }
}

} // verus!
