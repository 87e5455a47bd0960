//! The table schema: an ordered, append-only sequence of named fields.
//!
//! One field is appended per declared variable name. Redeclaring a name with
//! the same storage type is an idempotent no-op; redeclaring it with a
//! conflicting storage type is a fatal conflict. Field names are therefore
//! unique by construction.

use vstd::prelude::*;

use crate::DataType;
use crate::ReadStatError;

verus! {

/// One named column of the schema.
#[derive(Clone, Debug, PartialEq)]
pub struct Field {
    pub name: String,
    pub data_type: DataType,
}

impl Field {
    /// The field as a (name, storage type) pair.
    pub open spec fn model(self) -> (Seq<char>, DataType) {
        (self.name@, self.data_type)
    }

    pub fn new(name: String, data_type: DataType) -> (f: Field)
        ensures
            f.model() == (name@, data_type),
    {
        Field { name, data_type }
    }
}

/// An ordered sequence of named fields.
#[derive(Clone, Debug, PartialEq)]
pub struct Schema {
    pub fields: Vec<Field>,
}

impl Schema {
    /// The schema as a sequence of (name, storage type) pairs.
    pub open spec fn model(self) -> Seq<(Seq<char>, DataType)> {
        self.fields@.map(|i: int, f: Field| f.model())
    }

    /// Some field already carries this name.
    pub open spec fn has_field_name(self, name: Seq<char>) -> bool {
        exists|i: int| 0 <= i < self.model().len() && self.model()[i].0 == name
    }

    /// No two fields share a name.
    pub open spec fn names_distinct(self) -> bool {
        forall|i: int, j: int|
            0 <= i < j < self.model().len() ==> self.model()[i].0 != self.model()[j].0
    }

    /// An empty schema.
    pub fn new() -> (s: Schema)
        ensures
            s.model() == Seq::<(Seq<char>, DataType)>::empty(),
    {
        let s = Schema { fields: Vec::new() };
        proof {
            assert(s.model() =~= Seq::<(Seq<char>, DataType)>::empty());
        }
        s
    }

    /// How many fields the schema holds.
    pub fn len(&self) -> (n: usize)
        ensures
            n == self.model().len(),
    {
        self.fields.len()
    }

    /// A copy whose fields read the same.
    pub fn duplicate(&self) -> (s: Schema)
        ensures
            s.model() == self.model(),
    {
        let mut fields: Vec<Field> = Vec::new();
        let mut i: usize = 0;
        while i < self.fields.len()
            invariant
                i <= self.fields@.len(),
                fields@.len() == i,
                forall|j: int| 0 <= j < i ==> fields@[j].model() == #[trigger] self.fields@[j].model(),
            decreases self.fields@.len() - i,
        {
            let f = Field { name: self.fields[i].name.clone(), data_type: self.fields[i].data_type };
            fields.push(f);
            i += 1;
        }
        let s = Schema { fields };
        proof {
            assert(s.model() =~= self.model());
        }
        s
    }

    /// Appends a field under merge semantics: a fresh name is appended; a
    /// name already present with the same storage type leaves the schema
    /// unchanged; a name already present with a different storage type is a
    /// conflict and also leaves the schema unchanged.
    #[verifier::loop_isolation(false)]
    pub fn try_push_field(&mut self, f: Field) -> (r: Result<(), ReadStatError>)
        requires
            old(self).names_distinct(),
        ensures
            final(self).names_distinct(),
            r is Err ==> *final(self) == *old(self),
            old(self).has_field_name(f.name@) ==> *final(self) == *old(self),
            !old(self).has_field_name(f.name@) ==> r is Ok && final(self).model() == old(
                self,
            ).model().push(f.model()),
            (exists|i: int|
                0 <= i < old(self).model().len() && old(self).model()[i] == f.model()) ==> r is Ok
                && final(self).model() == old(self).model(),
            (exists|i: int|
                0 <= i < old(self).model().len() && old(self).model()[i].0 == f.name@ && old(
                    self,
                ).model()[i].1 != f.data_type) ==> final(self).model() == old(self).model() && (
            exists|i: int|
                0 <= i < old(self).model().len() && old(self).model()[i].0 == f.name@ && r == Result::<
                    (),
                    ReadStatError,
                >::Err(ReadStatError::SchemaConflict { existing: old(self).model()[i].1 })),
    {
        let ghost old_model = self.model();
        let mut i: usize = 0;
        while i < self.fields.len()
            invariant
                i <= self.fields@.len(),
                self.model() == old_model,
                forall|j: int| 0 <= j < i ==> #[trigger] self.model()[j].0 != f.name@,
            decreases self.fields@.len() - i,
        {
            if self.fields[i].name == f.name {
                proof {
                    assert(self.model()[i as int].0 == f.name@);
                    assert forall|j: int|
                        0 <= j < self.model().len() && #[trigger] self.model()[j].0
                            == f.name@ implies j == i as int by {
                        if j < i as int {
                            assert(self.model()[j].0 != self.model()[i as int].0);
                        } else if j > i as int {
                            assert(self.model()[i as int].0 != self.model()[j].0);
                        }
                    }
                }
                if self.fields[i].data_type == f.data_type {
                    proof {
                        assert(self.model()[i as int] == f.model());
                    }
                    return Ok(());
                } else {
                    return Err(
                        ReadStatError::SchemaConflict { existing: self.fields[i].data_type },
                    );
                }
            }
            i += 1;
        }
        proof {
            assert(!old(self).has_field_name(f.name@));
        }
        let ghost fm = f.model();
        self.fields.push(f);
        proof {
            assert(self.model() =~= old_model.push(fm));
            assert forall|a: int, b: int|
                0 <= a < b < self.model().len() implies self.model()[a].0 != self.model()[b].0 by {
                if b == self.model().len() - 1 {
                    assert(self.model()[a].0 != fm.0);
                }
            }
        }
        Ok(())
    }
}

} // verus!
