//! Faction membership and the derived alliance relation.

use vstd::prelude::*;

use crate::entity::{names_of, Character, CharacterView};

verus! {

/// The faction identifiers a character belongs to; empty when it belongs to
/// no faction.
pub open spec fn faction_names(c: CharacterView) -> Seq<Seq<char>> {
    match c.factions {
        Some(fs) => fs,
        None => Seq::empty(),
    }
}

/// The given faction identifiers with every occurrence of `name` removed,
/// order preserved.
pub open spec fn names_without(names: Seq<Seq<char>>, name: Seq<char>) -> Seq<Seq<char>> {
    names.filter(|n: Seq<char>| n != name)
}

/// Two characters are allied exactly when some faction of one appears among
/// the factions of the other; a character with no factions is allied with
/// nobody.
pub open spec fn spec_allied(a: CharacterView, b: CharacterView) -> bool {
    exists|i: int, j: int|
        #![trigger faction_names(a)[i], faction_names(b)[j]]
        0 <= i < faction_names(a).len() && 0 <= j < faction_names(b).len()
            && faction_names(a)[i] == faction_names(b)[j]
}

/// Alliance is symmetric: whichever side the shared faction is found from,
/// the relation holds of both orders of its arguments.
pub proof fn lemma_alliance_symmetric(a: CharacterView, b: CharacterView)
    ensures
        spec_allied(a, b) == spec_allied(b, a),
{
    if spec_allied(a, b) {
        let (i, j): (int, int) = choose|i: int, j: int|
            #![trigger faction_names(a)[i], faction_names(b)[j]]
            0 <= i < faction_names(a).len() && 0 <= j < faction_names(b).len()
                && faction_names(a)[i] == faction_names(b)[j];
        assert(faction_names(b)[j] == faction_names(a)[i]);
    }
    if spec_allied(b, a) {
        let (i, j): (int, int) = choose|i: int, j: int|
            #![trigger faction_names(b)[i], faction_names(a)[j]]
            0 <= i < faction_names(b).len() && 0 <= j < faction_names(a).len()
                && faction_names(b)[i] == faction_names(a)[j];
        assert(faction_names(a)[j] == faction_names(b)[i]);
    }
}

/// Content equality of two string slices, through owned copies.
fn str_eq(a: &str, b: &str) -> (r: bool)
    ensures
        r == (a@ == b@),
{
    let owned_a: String = a.to_owned();
    let owned_b: String = b.to_owned();
    owned_a == owned_b
}

/// A fresh vector holding the same string slices as the given one.
pub(crate) fn copy_factions(v: &Vec<&'static str>) -> (r: Vec<&'static str>)
    ensures
        r@ == v@,
{
    let mut r: Vec<&'static str> = Vec::new();
    let mut i: usize = 0;
    while i < v.len()
        invariant
            i <= v.len(),
            r@ == v@.subrange(0, i as int),
        decreases v.len() - i,
    {
        r.push(v[i]);
        proof {
            assert(v@.subrange(0, i as int).push(v@[i as int]) =~= v@.subrange(0, i + 1));
        }
        i += 1;
    }
    proof {
        assert(v@.subrange(0, v@.len() as int) =~= v@);
    }
    r
}

/// Appending one identifier to a sequence appends its name to the sequence
/// of names.
proof fn lemma_names_of_push(v: Seq<&'static str>, s: &'static str)
    ensures
        names_of(v.push(s)) == names_of(v).push(s@),
{
    assert(names_of(v.push(s)) =~= names_of(v).push(s@));
}

/// Filtering a sequence extended by one element keeps the element exactly
/// when it differs from the removed name.
proof fn lemma_names_without_push(names: Seq<Seq<char>>, last: Seq<char>, name: Seq<char>)
    ensures
        names_without(names.push(last), name) == (if last != name {
            names_without(names, name).push(last)
        } else {
            names_without(names, name)
        }),
{
    reveal_with_fuel(Seq::filter, 2);
    assert(names.push(last).drop_last() =~= names);
}

impl Character {
    /// Returns a new snapshot whose faction collection is the prior one with
    /// `faction` appended at the end; duplicates are permitted. All other
    /// fields are unchanged.
    pub fn join_faction(&self, faction: &'static str) -> (r: Self)
        ensures
            r@.factions == Some(faction_names(self@).push(faction@)),
            r@.health == self@.health,
            r@.level == self@.level,
            r@.alive == self@.alive,
            r@.class == self@.class,
            r@.attack_range == self@.attack_range,
            self@.wf() ==> r@.wf(),
    {
        let mut factions: Vec<&'static str> = match &self.factions {
            Some(v) => copy_factions(v),
            None => Vec::new(),
        };
        proof {
            assert(names_of(factions@) =~= faction_names(self@));
        }
        let ghost before = factions@;
        factions.push(faction);
        proof {
            lemma_names_of_push(before, faction);
        }
        Self {
            health: self.health,
            level: self.level,
            alive: self.alive,
            class: self.class,
            attack_range: self.attack_range,
            factions: Some(factions),
        }
    }

    /// Returns a new snapshot whose faction collection has every occurrence
    /// of `faction` removed; when nothing is left the character belongs to no
    /// faction at all. All other fields are unchanged.
    pub fn leave_faction(&self, faction: &'static str) -> (r: Self)
        ensures
            faction_names(r@) == names_without(faction_names(self@), faction@),
            (r@.factions is None) <==> names_without(faction_names(self@), faction@).len() == 0,
            r@.health == self@.health,
            r@.level == self@.level,
            r@.alive == self@.alive,
            r@.class == self@.class,
            r@.attack_range == self@.attack_range,
            self@.wf() ==> r@.wf(),
    {
        let factions: Option<Vec<&'static str>> = match &self.factions {
            Some(v) => {
                let mut kept: Vec<&'static str> = Vec::new();
                let mut i: usize = 0;
                while i < v.len()
                    invariant
                        i <= v.len(),
                        names_of(kept@) == names_without(
                            names_of(v@.subrange(0, i as int)),
                            faction@,
                        ),
                    decreases v.len() - i,
                {
                    let ghost names_so_far = names_of(v@.subrange(0, i as int));
                    let ghost kept_before = kept@;
                    let entry = v[i];
                    if !str_eq(entry, faction) {
                        kept.push(entry);
                        proof {
                            lemma_names_of_push(kept_before, entry);
                        }
                    }
                    proof {
                        assert(v@.subrange(0, i as int).push(v@[i as int]) =~= v@.subrange(
                            0,
                            i + 1,
                        ));
                        lemma_names_of_push(v@.subrange(0, i as int), entry);
                        lemma_names_without_push(names_so_far, entry@, faction@);
                    }
                    i += 1;
                }
                proof {
                    assert(v@.subrange(0, v@.len() as int) =~= v@);
                }
                if kept.is_empty() {
                    proof {
                        assert(names_of(kept@) =~= Seq::<Seq<char>>::empty());
                    }
                    None
                } else {
                    Some(kept)
                }
            },
            None => None,
        };
        proof {
            if self.factions is None {
                assert(names_without(faction_names(self@), faction@) =~= Seq::<Seq<char>>::empty());
            }
        }
        Self {
            health: self.health,
            level: self.level,
            alive: self.alive,
            class: self.class,
            attack_range: self.attack_range,
            factions,
        }
    }

    /// Whether this character shares at least one faction with the other;
    /// characters without factions are allied with nobody.
    pub fn is_allied_with(&self, other_character: &Character) -> (r: bool)
        ensures
            r == spec_allied(self@, other_character@),
    {
        let mine: &Vec<&'static str> = match &self.factions {
            Some(v) => v,
            None => {
                return false;
            },
        };
        let theirs: &Vec<&'static str> = match &other_character.factions {
            Some(v) => v,
            None => {
                return false;
            },
        };
        let mut i: usize = 0;
        while i < mine.len()
            invariant
                i <= mine.len(),
                faction_names(self@) == names_of(mine@),
                faction_names(other_character@) == names_of(theirs@),
                forall|p: int, q: int|
                    0 <= p < i && 0 <= q < theirs@.len() ==> faction_names(self@)[p]
                        != faction_names(other_character@)[q],
            decreases mine.len() - i,
        {
            let mut j: usize = 0;
            while j < theirs.len()
                invariant
                    i < mine.len(),
                    j <= theirs.len(),
                    faction_names(self@) == names_of(mine@),
                    faction_names(other_character@) == names_of(theirs@),
                    forall|q: int|
                        0 <= q < j ==> faction_names(self@)[i as int]
                            != faction_names(other_character@)[q],
                decreases theirs.len() - j,
            {
                if str_eq(mine[i], theirs[j]) {
                    proof {
                        assert(faction_names(self@)[i as int] == faction_names(
                            other_character@,
                        )[j as int]);
                    }
                    return true;
                }
                j += 1;
            }
            i += 1;
        }
        false
    }
}

} // verus!
