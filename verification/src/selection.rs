//! The set of package names ticked in the views' select mode.
use vstd::prelude::*;
use crate::backend::strings_view;

verus! {

/// A set of package names, kept as a vector in which no name occurs twice.
pub struct Selection {
    names: Vec<String>,
}

impl Selection {
    #[verifier::type_invariant]
    closed spec fn no_repeats(self) -> bool {
        forall|i: int, j: int|
            0 <= i < j < self.names@.len() ==> #[trigger] self.names@[i]@ != #[trigger] self.names@[j]@
    }

    /// The names selected.
    pub closed spec fn names_set(self) -> Set<Seq<char>> {
        Set::new(|x: Seq<char>| strings_view(self.names@).contains(x))
    }

    pub fn new() -> (s: Selection)
        ensures
            s.names_set() == Set::<Seq<char>>::empty(),
    {
        let s = Selection { names: Vec::new() };
        assert(s.names_set() =~= Set::<Seq<char>>::empty());
        s
    }

    fn position(&self, name: &str) -> (r: Option<usize>)
        ensures
            r matches Some(i) ==> i < self.names@.len() && self.names@[i as int]@ == name@,
            r is None ==> !self.names_set().contains(name@),
    {
        let mut i: usize = 0;
        while i < self.names.len()
            invariant
                i <= self.names@.len(),
                forall|k: int| 0 <= k < i ==> self.names@[k]@ != name@,
            decreases self.names@.len() - i,
        {
            if self.names[i] == name.to_owned() {
                return Some(i);
            }
            i += 1;
        }
        assert forall|k: int| 0 <= k < strings_view(self.names@).len() implies strings_view(self.names@)[k] != name@ by {
            assert(strings_view(self.names@)[k] == self.names@[k]@);
        }
        None
    }

    /// Whether `name` is selected.
    pub fn contains(&self, name: &str) -> (b: bool)
        ensures
            b == self.names_set().contains(name@),
    {
        match self.position(name) {
            Some(i) => {
                assert(strings_view(self.names@)[i as int] == name@);
                true
            },
            None => false,
        }
    }

    /// The number of names selected.
    pub fn len(&self) -> (n: usize)
        ensures
            n == self.names_set().len(),
    {
        proof {
            use_type_invariant(self);
            self.lemma_len();
        }
        self.names.len()
    }

    proof fn lemma_len(self)
        requires
            self.no_repeats(),
        ensures
            self.names_set().len() == self.names@.len(),
            self.names_set().finite(),
    {
        let sv = strings_view(self.names@);
        assert(sv.no_duplicates()) by {
            assert forall|i: int, j: int| 0 <= i < sv.len() && 0 <= j < sv.len() && i != j implies sv[i] != sv[j] by {
                if i < j {
                    assert(self.names@[i]@ != self.names@[j]@);
                } else {
                    assert(self.names@[j]@ != self.names@[i]@);
                }
            }
        }
        sv.unique_seq_to_set();
        assert(self.names_set() =~= sv.to_set());
    }

    /// Ticks (`checked`) or unticks `name`.
    pub fn set_checked(&mut self, name: &str, checked: bool)
        ensures
            final(self).names_set() == if checked {
                old(self).names_set().insert(name@)
            } else {
                old(self).names_set().remove(name@)
            },
    {
        proof { use_type_invariant(&*self); }
        let pos = self.position(name);
        if checked {
            if pos.is_none() {
                let ghost before = self.names@;
                let mut v: Vec<String> = Vec::new();
                std::mem::swap(&mut v, &mut self.names);
                v.push(name.to_owned());
                assert forall|a: int, b: int| 0 <= a < b < v@.len() implies #[trigger] v@[a]@ != #[trigger] v@[b]@ by {
                    if b == before.len() {
                        assert(strings_view(before)[a] == before[a]@);
                    } else {
                        assert(before[a]@ != before[b]@);
                    }
                }
                self.names = v;
                let ghost sv = strings_view(self.names@);
                assert(sv =~= strings_view(before).push(name@));
                assert forall|x: Seq<char>| #[trigger] self.names_set().contains(x) <==> old(self).names_set().insert(name@).contains(x) by {
                    if sv.contains(x) {
                        let k = choose|k: int| 0 <= k < sv.len() && sv[k] == x;
                        if k < before.len() {
                            assert(strings_view(before)[k] == x);
                        }
                    }
                    if strings_view(before).contains(x) {
                        let k = choose|k: int| 0 <= k < strings_view(before).len() && strings_view(before)[k] == x;
                        assert(sv[k] == x);
                    }
                    if x == name@ {
                        assert(sv[before.len() as int] == x);
                    }
                }
            }
            assert(self.names_set() =~= old(self).names_set().insert(name@)) by {
                if pos.is_some() {
                    let i = pos.unwrap();
                    assert(strings_view(self.names@)[i as int] == name@);
                }
            }
        } else {
            match pos {
                Some(i) => {
                    let ghost before = self.names@;
                    let mut rest: Vec<String> = Vec::new();
                    std::mem::swap(&mut rest, &mut self.names);
                    let removed = rest.remove(i);
                    let ghost after = rest@;
                    assert(after =~= before.remove(i as int));
                    assert forall|a: int, b: int| 0 <= a < b < after.len() implies #[trigger] after[a]@ != #[trigger] after[b]@ by {
                        let a0 = if a < i { a } else { a + 1 };
                        let b0 = if b < i { b } else { b + 1 };
                        assert(before[a0] == after[a]);
                        assert(before[b0] == after[b]);
                    }
                    self.names = rest;
                    assert(self.names_set() =~= old(self).names_set().remove(name@)) by {
                        assert forall|x: Seq<char>| #[trigger] self.names_set().contains(x) <==> old(self).names_set().remove(name@).contains(x) by {
                            if self.names_set().contains(x) {
                                let k = choose|k: int| 0 <= k < strings_view(after).len() && strings_view(after)[k] == x;
                                let k0 = if k < i { k } else { k + 1 };
                                assert(before[k0] == after[k]);
                                assert(strings_view(before)[k0] == x);
                                assert(k0 != i);
                            }
                            if old(self).names_set().remove(name@).contains(x) {
                                let k = choose|k: int| 0 <= k < strings_view(before).len() && strings_view(before)[k] == x;
                                assert(k != i);
                                let k1 = if k < i { k } else { k - 1 };
                                assert(after[k1] == before[k]);
                                assert(strings_view(after)[k1] == x);
                            }
                        }
                    }
                },
                None => {
                    assert(self.names_set() =~= old(self).names_set().remove(name@));
                },
            }
        }
    }

    /// Empties the selection, handing out the names it held, each once.
    pub fn take_all(&mut self) -> (r: Vec<String>)
        ensures
            final(self).names_set() == Set::<Seq<char>>::empty(),
            strings_view(r@).no_duplicates(),
            strings_view(r@).to_set() == old(self).names_set(),
    {
        proof { use_type_invariant(&*self); }
        let mut r: Vec<String> = Vec::new();
        std::mem::swap(&mut r, &mut self.names);
        assert(self.names_set() =~= Set::<Seq<char>>::empty());
        let ghost sv = strings_view(r@);
        assert(sv.no_duplicates()) by {
            assert forall|i: int, j: int| 0 <= i < sv.len() && 0 <= j < sv.len() && i != j implies sv[i] != sv[j] by {
                if i < j {
                    assert(r@[i]@ != r@[j]@);
                } else {
                    assert(r@[j]@ != r@[i]@);
                }
            }
        }
        assert(sv.to_set() =~= old(self).names_set());
        r
    }
}

} // verus!
