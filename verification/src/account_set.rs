//! A finite set of account identifiers.

use vstd::prelude::*;

verus! {

/// The text of each identifier of `ids`, in order.
pub open spec fn names_of(ids: Seq<String>) -> Seq<Seq<char>> {
    ids.map_values(|id: String| id@)
}

/// A finite set of account identifiers. No identifier is held twice, so the number
/// of entries is the number of members.
pub struct AccountSet {
    ids: Vec<String>,
}

impl View for AccountSet {
    type V = Set<Seq<char>>;

    closed spec fn view(&self) -> Set<Seq<char>> {
        names_of(self.ids@).to_set()
    }
}

/// Pushing an identifier onto a sequence adds its text to the set of names.
proof fn lemma_names_push(ids: Seq<String>, id: String)
    ensures
        names_of(ids.push(id)) == names_of(ids).push(id@),
        names_of(ids.push(id)).to_set() == names_of(ids).to_set().insert(id@),
{
    assert(names_of(ids.push(id)) =~= names_of(ids).push(id@));
    names_of(ids).lemma_push_to_set_commute(id@);
}

/// Taking the entry at `i` out of a sequence without duplicates removes exactly
/// its text from the set of names, and leaves no duplicates behind.
proof fn lemma_names_remove(ids: Seq<String>, i: int)
    requires
        0 <= i < ids.len(),
        names_of(ids).no_duplicates(),
    ensures
        names_of(ids.remove(i)).no_duplicates(),
        names_of(ids.remove(i)).to_set() == names_of(ids).to_set().remove(ids[i]@),
{
    let before = names_of(ids);
    let after = names_of(ids.remove(i));
    assert(after =~= before.remove(i));
    assert(before[i] == ids[i]@);
    assert forall|a: Seq<char>| after.contains(a) <==> (before.contains(a) && a != ids[i]@) by {
        if after.contains(a) {
            let k = choose|k: int| 0 <= k < after.len() && after[k] == a;
            let k0 = if k < i { k } else { k + 1 };
            assert(before[k0] == a);
            assert(k0 != i);
        }
        if before.contains(a) && a != ids[i]@ {
            let k = choose|k: int| 0 <= k < before.len() && before[k] == a;
            let k1 = if k < i { k } else { k - 1 };
            assert(after[k1] == a);
        }
    }
    assert(after.to_set() =~= before.to_set().remove(ids[i]@));
}

impl AccountSet {
    #[verifier::type_invariant]
    spec fn distinct(&self) -> bool {
        names_of(self.ids@).no_duplicates()
    }

    /// A set is finite.
    pub proof fn lemma_finite(&self)
        ensures
            self@.finite(),
    {
        vstd::seq_lib::seq_to_set_is_finite(names_of(self.ids@));
    }

    /// The empty set.
    pub fn new() -> (set: Self)
        ensures
            set@ == Set::<Seq<char>>::empty(),
    {
        let set = AccountSet { ids: Vec::new() };
        assert(names_of(set.ids@).to_set() =~= Set::<Seq<char>>::empty());
        set
    }

    /// Where `id` is held, if it is.
    fn position(&self, id: &String) -> (at: Option<usize>)
        ensures
            match at {
                Some(i) => i < self.ids@.len() && self.ids@[i as int]@ == id@,
                None => !self@.contains(id@),
            },
    {
        let mut i: usize = 0;
        while i < self.ids.len()
            invariant
                i <= self.ids@.len(),
                forall|j: int| 0 <= j < i ==> self.ids@[j]@ != id@,
            decreases self.ids@.len() - i,
        {
            if self.ids[i] == *id {
                return Some(i);
            }
            i += 1;
        }
        None
    }

    /// The number of members.
    pub fn len(&self) -> (n: usize)
        ensures
            self@.finite(),
            n == self@.len(),
    {
        proof {
            use_type_invariant(self);
            self.lemma_finite();
            names_of(self.ids@).unique_seq_to_set();
        }
        self.ids.len()
    }

    /// Whether `id` is a member.
    pub fn contains(&self, id: &String) -> (found: bool)
        ensures
            found == self@.contains(id@),
    {
        match self.position(id) {
            Some(i) => {
                assert(names_of(self.ids@)[i as int] == id@);
                true
            },
            None => false,
        }
    }

    /// Adds `id`, and says whether it was absent before.
    pub fn insert(&mut self, id: &String) -> (fresh: bool)
        ensures
            final(self)@ == old(self)@.insert(id@),
            fresh == !old(self)@.contains(id@),
    {
        proof {
            use_type_invariant(&*self);
        }
        if self.contains(id) {
            assert(self@.insert(id@) =~= self@);
            false
        } else {
            let mut ids: Vec<String> = Vec::new();
            std::mem::swap(&mut self.ids, &mut ids);
            proof {
                lemma_names_push(ids@, *id);
            }
            ids.push(id.clone());
            std::mem::swap(&mut self.ids, &mut ids);
            true
        }
    }

    /// Takes `id` out, and says whether it was a member before.
    pub fn remove(&mut self, id: &String) -> (present: bool)
        ensures
            final(self)@ == old(self)@.remove(id@),
            present == old(self)@.contains(id@),
    {
        proof {
            use_type_invariant(&*self);
        }
        match self.position(id) {
            Some(i) => {
                let mut ids: Vec<String> = Vec::new();
                std::mem::swap(&mut self.ids, &mut ids);
                proof {
                    assert(names_of(ids@)[i as int] == id@);
                    lemma_names_remove(ids@, i as int);
                }
                ids.remove(i);
                std::mem::swap(&mut self.ids, &mut ids);
                true
            },
            None => {
                assert(self@.remove(id@) =~= self@);
                false
            },
        }
    }

    /// The members, each once, in no particular order.
    pub fn to_vec(&self) -> (ids: Vec<String>)
        ensures
            names_of(ids@).no_duplicates(),
            names_of(ids@).to_set() == self@,
    {
        proof {
            use_type_invariant(self);
        }
        let mut ids: Vec<String> = Vec::new();
        let mut i: usize = 0;
        while i < self.ids.len()
            invariant
                i <= self.ids@.len(),
                ids@ == self.ids@.take(i as int),
            decreases self.ids@.len() - i,
        {
            ids.push(self.ids[i].clone());
            assert(self.ids@.take(i + 1) =~= self.ids@.take(i as int).push(self.ids@[i as int]));
            i += 1;
        }
        assert(self.ids@.take(i as int) =~= self.ids@);
        ids
    }

    /// The set of the identifiers in `ids`.
    pub fn from_vec(ids: Vec<String>) -> (set: Self)
        ensures
            set@ == names_of(ids@).to_set(),
    {
        let mut set = AccountSet::new();
        let mut i: usize = 0;
        while i < ids.len()
            invariant
                i <= ids@.len(),
                set@ == names_of(ids@.take(i as int)).to_set(),
            decreases ids@.len() - i,
        {
            proof {
                lemma_names_push(ids@.take(i as int), ids@[i as int]);
                assert(ids@.take(i + 1) =~= ids@.take(i as int).push(ids@[i as int]));
            }
            set.insert(&ids[i]);
            i += 1;
        }
        assert(ids@.take(i as int) =~= ids@);
        set
    }
}

} // verus!
