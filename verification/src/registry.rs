//! Per-entity metadata and the process-scoped descriptor registry: one
//! immutable descriptor per registered entity type, keyed by entity name,
//! with the table name derived from the entity name by a snake-case
//! transform unless an override is given.

use vstd::prelude::*;

use crate::text::{is_ascii_uppercase_char, is_upper, lower_char, push_char, to_ascii_lowercase_char};
use crate::value::ValueKind;
use crate::CanyonError;

verus! {

/// What the snake-case transform appends for one character after the
/// first: an underscore plus the lowercased letter for ASCII uppercase,
/// the character itself for everything else.
pub open spec fn snake_step(c: char) -> Seq<char> {
    if is_ascii_uppercase_char(c) {
        seq!['_', lower_char(c)]
    } else {
        seq![c]
    }
}

/// The snake-case transform of everything after the first character.
pub open spec fn snake_tail(s: Seq<char>) -> Seq<char>
    decreases s.len(),
{
    if s.len() == 0 {
        Seq::empty()
    } else {
        snake_tail(s.drop_last()) + snake_step(s.last())
    }
}

/// The snake-case transform of an entity name: the first character is
/// lowercased; every later ASCII uppercase character gets an underscore
/// inserted before its lowercased form; non-letters pass through
/// unchanged.
pub open spec fn snake_of(s: Seq<char>) -> Seq<char> {
    if s.len() == 0 {
        Seq::empty()
    } else {
        seq![lower_char(s[0])] + snake_tail(s.skip(1))
    }
}

/// The table name a registration stores: the override when one is given,
/// otherwise the snake-case transform of the entity name.
pub open spec fn derived_table_name(entity_name: Seq<char>, override_name: Option<Seq<char>>) -> Seq<
    char,
> {
    match override_name {
        Some(t) => t,
        None => snake_of(entity_name),
    }
}

/// The view of an optional table-name override.
pub open spec fn override_view(o: Option<String>) -> Option<Seq<char>> {
    match o {
        Some(t) => Some(t@),
        None => None,
    }
}

/// Law: a registration that gives no table-name override derives the table
/// name by exactly the snake-case transform of the entity name.
pub proof fn lemma_default_table_name_is_snake_case(entity_name: Seq<char>)
    ensures
        derived_table_name(entity_name, None) == snake_of(entity_name),
{
}

/// Applies the snake-case transform to an entity name.
pub fn snake_case(name: &String) -> (r: String)
    ensures
        r@ == snake_of(name@),
{
    let n = name.as_str().unicode_len();
    let mut out = String::new();
    let mut i: usize = 0;
    while i < n
        invariant
            n == name@.len(),
            i <= n,
            out@ == snake_of(name@.take(i as int)),
        decreases n - i,
    {
        let c = name.as_str().get_char(i);
        if i == 0 {
            push_char(&mut out, to_ascii_lowercase_char(c));
        } else if is_upper(c) {
            push_char(&mut out, '_');
            push_char(&mut out, to_ascii_lowercase_char(c));
        } else {
            push_char(&mut out, c);
        }
        proof {
            let t1 = name@.take(i as int + 1);
            let t0 = name@.take(i as int);
            if i == 0 {
                assert(t1.skip(1) =~= Seq::<char>::empty());
                assert(out@ =~= snake_of(t1));
            } else {
                assert(t1.skip(1).drop_last() =~= t0.skip(1));
                assert(t1.skip(1).last() == name@[i as int]);
                assert(snake_tail(t1.skip(1)) == snake_tail(t0.skip(1)) + snake_step(
                    name@[i as int],
                ));
                assert(out@ =~= snake_of(t1));
            }
        }
        i += 1;
    }
    proof {
        assert(name@.take(n as int) =~= name@);
    }
    out
}

/// Declared metadata for one field of an entity: its name and the kind of
/// value it holds.
#[derive(Debug, PartialEq)]
pub struct FieldMeta {
    pub name: String,
    pub kind: ValueKind,
}

/// Immutable per-entity metadata: the entity's name, the table it maps to,
/// and its declared fields in declared order.
#[derive(Debug, PartialEq)]
pub struct EntityDescriptor {
    pub entity_name: String,
    pub table_name: String,
    pub fields: Vec<FieldMeta>,
}

/// The process-scoped table of entity descriptors, keyed by entity name.
///
/// Registration happens during an initialization phase; afterwards the
/// registry is read-only. Callers that share it across threads keep it
/// behind their own read lock; descriptors are immutable once published.
#[derive(Debug)]
pub struct EntityRegistry {
    entries: Vec<EntityDescriptor>,
}

impl EntityRegistry {
    /// Registered names are pairwise distinct.
    pub closed spec fn wf(self) -> bool {
        forall|i: int, j: int|
            0 <= i < j < self.entries@.len() ==> self.entries@[i].entity_name@
                != self.entries@[j].entity_name@
    }

    /// Whether some descriptor is registered under `name`.
    pub closed spec fn contains_name(self, name: Seq<char>) -> bool {
        exists|i: int|
            0 <= i < self.entries@.len() && #[trigger] self.entries@[i].entity_name@ == name
    }

    /// The descriptor registered under `name` (meaningful when
    /// [`EntityRegistry::contains_name`] holds).
    pub closed spec fn desc_at(self, name: Seq<char>) -> EntityDescriptor {
        self.entries@[choose|i: int|
            0 <= i < self.entries@.len() && #[trigger] self.entries@[i].entity_name@ == name]
    }

    proof fn lemma_desc_at_index(self, k: int)
        requires
            self.wf(),
            0 <= k < self.entries@.len(),
        ensures
            self.contains_name(self.entries@[k].entity_name@),
            self.desc_at(self.entries@[k].entity_name@) == self.entries@[k],
    {
        let n = self.entries@[k].entity_name@;
        assert(self.contains_name(n));
        let i = choose|i: int|
            0 <= i < self.entries@.len() && #[trigger] self.entries@[i].entity_name@ == n;
        if i != k {
            assert(self.entries@[i].entity_name@ != self.entries@[k].entity_name@);
        }
    }

    /// An empty registry, containing no entity at all.
    pub fn new() -> (r: EntityRegistry)
        ensures
            r.wf(),
            forall|n: Seq<char>| !r.contains_name(n),
    {
        EntityRegistry { entries: Vec::new() }
    }

    fn find_index(&self, name: &String) -> (r: Option<usize>)
        ensures
            match r {
                Some(i) => i < self.entries@.len() && self.entries@[i as int].entity_name@
                    == name@,
                None => !self.contains_name(name@),
            },
    {
        let mut i: usize = 0;
        while i < self.entries.len()
            invariant
                i <= self.entries@.len(),
                forall|j: int|
                    0 <= j < i ==> #[trigger] self.entries@[j].entity_name@ != name@,
            decreases self.entries@.len() - i,
        {
            if self.entries[i].entity_name == *name {
                return Some(i);
            }
            i += 1;
        }
        None
    }

    /// Inserts or replaces the descriptor for `entity_name`.
    ///
    /// The stored table name is the override when one is given, otherwise
    /// the snake-case transform of the entity name. Re-registering an
    /// already registered name overwrites silently by default; when
    /// `strict` is requested it fails with
    /// [`CanyonError::DuplicateRegistration`] and leaves the registry
    /// unchanged. Every other registered entity is unaffected either way.
    pub fn register(
        &mut self,
        entity_name: String,
        table_name_override: Option<String>,
        fields: Vec<FieldMeta>,
        strict: bool,
    ) -> (r: Result<(), CanyonError>)
        requires
            old(self).wf(),
        ensures
            final(self).wf(),
            match r {
                Err(e) => {
                    &&& e == CanyonError::DuplicateRegistration
                    &&& strict
                    &&& old(self).contains_name(entity_name@)
                    &&& *final(self) == *old(self)
                },
                Ok(()) => {
                    &&& !(strict && old(self).contains_name(entity_name@))
                    &&& final(self).contains_name(entity_name@)
                    &&& final(self).desc_at(entity_name@).entity_name@ == entity_name@
                    &&& final(self).desc_at(entity_name@).table_name@ == derived_table_name(
                        entity_name@,
                        override_view(table_name_override),
                    )
                    &&& final(self).desc_at(entity_name@).fields == fields
                    &&& forall|n: Seq<char>|
                        n != entity_name@ ==> (final(self).contains_name(n) <==> old(
                            self,
                        ).contains_name(n))
                    &&& forall|n: Seq<char>|
                        n != entity_name@ && old(self).contains_name(n)
                            ==> final(self).desc_at(n) == old(self).desc_at(n)
                },
            },
    {
        let found = self.find_index(&entity_name);
        if let Some(i) = found {
            if strict {
                return Err(CanyonError::DuplicateRegistration);
            }
            proof {
                old(self).lemma_desc_at_index(i as int);
            }
            self.entries.remove(i);
        }
        let table_name = match table_name_override {
            Some(t) => t,
            None => snake_case(&entity_name),
        };
        let desc = EntityDescriptor { entity_name, table_name, fields };
        self.entries.push(desc);
        proof {
            let oldv = old(self).entries@;
            let newv = self.entries@;
            let last = newv.len() - 1;
            let ghost removed: int = match found {
                Some(i) => i as int,
                None => oldv.len() as int,
            };
            // every earlier entry of the new vector is an old entry, shifted
            // past the removed slot; its name differs from the registered one
            assert forall|a: int| 0 <= a < last implies #[trigger] newv[a] == oldv[
                if a < removed {
                    a
                } else {
                    a + 1
                }
            ] by {
            }
            assert forall|a: int| 0 <= a < last implies #[trigger] newv[a].entity_name@
                != newv[last].entity_name@ by {
                let b: int = if a < removed {
                    a
                } else {
                    a + 1
                };
                if found is Some {
                    assert(b != removed);
                    assert(oldv[removed].entity_name@ == newv[last].entity_name@);
                } else {
                    assert(!old(self).contains_name(newv[last].entity_name@));
                }
            }
            assert(self.wf());
            self.lemma_desc_at_index(last);
            // other names: every old entry with a different name survives
            assert forall|n: Seq<char>|
                n != newv[last].entity_name@ && old(self).contains_name(n) implies
                self.contains_name(n) && self.desc_at(n) == old(self).desc_at(n) by {
                let b = choose|b: int|
                    0 <= b < oldv.len() && #[trigger] oldv[b].entity_name@ == n;
                old(self).lemma_desc_at_index(b);
                let a: int = if b < removed {
                    b
                } else {
                    b - 1
                };
                assert(b != removed);
                assert(newv[a] == oldv[b]);
                self.lemma_desc_at_index(a);
            }
            assert forall|n: Seq<char>|
                n != newv[last].entity_name@ && self.contains_name(n) implies old(
                self,
            ).contains_name(n) by {
                let a = choose|a: int|
                    0 <= a < newv.len() && #[trigger] newv[a].entity_name@ == n;
                assert(a != last);
                let b: int = if a < removed {
                    a
                } else {
                    a + 1
                };
                assert(oldv[b].entity_name@ == n);
            }
        }
        Ok(())
    }

    /// Looks the descriptor for `entity_name` up; read-only, never mutates.
    pub fn lookup(&self, entity_name: &String) -> (r: Option<&EntityDescriptor>)
        requires
            self.wf(),
        ensures
            match r {
                Some(d) => self.contains_name(entity_name@) && *d == self.desc_at(entity_name@),
                None => !self.contains_name(entity_name@),
            },
    {
        match self.find_index(entity_name) {
            Some(i) => {
                proof {
                    self.lemma_desc_at_index(i as int);
                }
                Some(&self.entries[i])
            },
            None => None,
        }
    }

    /// The table name registered for `entity_name`, or
    /// [`CanyonError::UnknownEntity`] when no such entity is registered.
    pub fn table_name_for(&self, entity_name: &String) -> (r: Result<String, CanyonError>)
        requires
            self.wf(),
        ensures
            match r {
                Ok(t) => self.contains_name(entity_name@) && t@ == self.desc_at(
                    entity_name@,
                ).table_name@,
                Err(e) => e == CanyonError::UnknownEntity && !self.contains_name(entity_name@),
            },
    {
        match self.lookup(entity_name) {
            Some(d) => Ok(d.table_name.clone()),
            None => Err(CanyonError::UnknownEntity),
        }
    }
}

} // verus!
