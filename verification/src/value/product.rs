//! Products: named records with an ordered list of named fields.
//!
//! A field is read by its name or by its place in the list, and written
//! by either.

use vstd::prelude::*;
use crate::machine::{Fault, FaultModel};
use crate::value::{
    Value, ValueModel, clone_fields, fields_model, lemma_fields_model_update,
};

verus! {

/// Whether no two fields have one name.
pub open spec fn distinct_names(fields: Seq<(Seq<char>, ValueModel)>) -> bool {
    forall|i: int, j: int| 0 <= i < j < fields.len() ==> fields[i].0 != fields[j].0
}

/// Whether no field before `until` has the name.
pub open spec fn absent_before(fields: Seq<(Seq<char>, ValueModel)>, name: Seq<char>, until: int)
    -> bool {
    forall|i: int| 0 <= i < until && i < fields.len() ==> (#[trigger] fields[i]).0 != name
}

/// The place of the first field of a name.
pub open spec fn place_of(fields: Seq<(Seq<char>, ValueModel)>, name: Seq<char>) -> Option<int> {
    if absent_before(fields, name, fields.len() as int) {
        None
    } else {
        Some(
            choose|i: int|
                0 <= i < fields.len() && fields[i].0 == name && absent_before(fields, name, i),
        )
    }
}

/// The place of the first field of a name is the one place with that
/// name that has no such field before it.
pub proof fn lemma_place_of(fields: Seq<(Seq<char>, ValueModel)>, name: Seq<char>, place: int)
    requires
        0 <= place < fields.len(),
        fields[place].0 == name,
        absent_before(fields, name, place),
    ensures
        place_of(fields, name) == Some(place),
{
    assert(!absent_before(fields, name, fields.len() as int));
    let chosen = choose|i: int|
        0 <= i < fields.len() && fields[i].0 == name && absent_before(fields, name, i);
    if chosen < place {
        assert(fields[chosen].0 != name);
    } else if place < chosen {
        assert(fields[place].0 != name);
    }
}

/// The fields with the value of one replaced.
pub open spec fn with_field(fields: Seq<(Seq<char>, ValueModel)>, place: int, value: ValueModel)
    -> Seq<(Seq<char>, ValueModel)> {
    fields.update(place, (fields[place].0, value))
}

/// Replacing a value keeps the names distinct.
pub proof fn lemma_with_field_distinct(
    fields: Seq<(Seq<char>, ValueModel)>,
    place: int,
    value: ValueModel,
)
    requires
        0 <= place < fields.len(),
        distinct_names(fields),
    ensures
        distinct_names(with_field(fields, place, value)),
{
}

/// The place of the first field of a name.
pub fn find_field(fields: &Vec<(String, Value)>, name: &str) -> (r: Option<usize>)
    ensures
        match r {
            Some(place) => place_of(fields_model(fields@), name@) == Some(place as int) && place
                < fields@.len(),
            None => place_of(fields_model(fields@), name@) is None,
        },
{
    let key = name.to_owned();
    let mut i: usize = 0;
    while i < fields.len()
        invariant
            i <= fields.len(),
            key@ == name@,
            absent_before(fields_model(fields@), name@, i as int),
        decreases fields.len() - i,
    {
        if fields[i].0 == key {
            proof {
                lemma_place_of(fields_model(fields@), name@, i as int);
            }
            return Some(i);
        }
        i = i + 1;
    }
    None
}

/// Whether no two fields have one name.
pub fn has_distinct_names(fields: &Vec<(String, Value)>) -> (r: bool)
    ensures
        r == distinct_names(fields_model(fields@)),
{
    let ghost model = fields_model(fields@);
    let mut j: usize = 0;
    while j < fields.len()
        invariant
            j <= fields.len(),
            model == fields_model(fields@),
            forall|a: int, b: int| 0 <= a < b < j ==> model[a].0 != model[b].0,
        decreases fields.len() - j,
    {
        let mut i: usize = 0;
        while i < j
            invariant
                i <= j < fields.len(),
                model == fields_model(fields@),
                forall|a: int| 0 <= a < i ==> model[a].0 != model[j as int].0,
            decreases j - i,
        {
            if fields[i].0 == fields[j].0 {
                assert(model[i as int].0 == model[j as int].0);
                return false;
            }
            i = i + 1;
        }
        j = j + 1;
    }
    true
}

/// A named record.
#[derive(Debug)]
pub struct ProductType {
    pub name: String,
    pub fields: Vec<(String, Value)>,
}

/// What a `ProductType` is.
pub struct ProductModel {
    pub name: Seq<char>,
    pub fields: Seq<(Seq<char>, ValueModel)>,
}

impl View for ProductType {
    type V = ProductModel;

    open spec fn view(&self) -> ProductModel {
        ProductModel { name: self.name@, fields: fields_model(self.fields@) }
    }
}

impl Clone for ProductType {
    fn clone(&self) -> (r: Self)
        ensures
            r@ == self@,
    {
        ProductType { name: self.name.clone(), fields: clone_fields(&self.fields) }
    }
}

impl ProductType {
    /// A record is well formed where no two of its fields have one name.
    pub open spec fn well_formed(&self) -> bool {
        distinct_names(self@.fields)
    }

    /// The record of a name with these fields in this order, or `None`
    /// where two of them have one name.
    pub fn new(name: String, fields: Vec<(String, Value)>) -> (r: Option<ProductType>)
        ensures
            match r {
                Some(product) => product@ == (ProductModel {
                    name: name@,
                    fields: fields_model(fields@),
                }) && product.well_formed(),
                None => !distinct_names(fields_model(fields@)),
            },
    {
        if has_distinct_names(&fields) {
            Some(ProductType { name, fields })
        } else {
            None
        }
    }

    /// The value of the field of a name.
    pub fn get(&self, name: &str) -> (r: Option<&Value>)
        ensures
            match r {
                Some(value) => place_of(self@.fields, name@) matches Some(place) && value@
                    == self@.fields[place].1,
                None => place_of(self@.fields, name@) is None,
            },
    {
        match find_field(&self.fields, name) {
            Some(place) => Some(&self.fields[place].1),
            None => None,
        }
    }

    /// The value of the field at a place.
    pub fn get_at(&self, index: usize) -> (r: Option<&Value>)
        ensures
            match r {
                Some(value) => index < self@.fields.len() && value@ == self@.fields[index as int].1,
                None => index >= self@.fields.len(),
            },
    {
        if index < self.fields.len() {
            Some(&self.fields[index].1)
        } else {
            None
        }
    }

    /// Replaces the value of the field at a place; `OutOfBounds` past
    /// the last field.
    pub fn set_at(&mut self, index: usize, value: Value) -> (r: Result<(), Fault>)
        ensures
            final(self)@.name == old(self)@.name,
            match r {
                Ok(_) => index < old(self)@.fields.len() && final(self)@.fields == with_field(
                    old(self)@.fields,
                    index as int,
                    value@,
                ),
                Err(fault) => index >= old(self)@.fields.len() && fault == Fault::OutOfBounds
                    && final(self)@ == old(self)@,
            },
            old(self).well_formed() ==> final(self).well_formed(),
    {
        if index < self.fields.len() {
            let name = self.fields[index].0.clone();
            proof {
                lemma_fields_model_update(self.fields@, index as int, (name, value));
                if self.well_formed() {
                    lemma_with_field_distinct(self@.fields, index as int, value@);
                }
            }
            self.fields[index] = (name, value);
            Ok(())
        } else {
            Err(Fault::OutOfBounds)
        }
    }

    /// Replaces the value of the field of a name; `NameNotFound` where
    /// there is no such field.
    pub fn set(&mut self, name: &str, value: Value) -> (r: Result<(), Fault>)
        ensures
            final(self)@.name == old(self)@.name,
            match r {
                Ok(_) => place_of(old(self)@.fields, name@) matches Some(place)
                    && final(self)@.fields == with_field(old(self)@.fields, place, value@),
                Err(fault) => place_of(old(self)@.fields, name@) is None && fault@
                    == FaultModel::NameNotFound(name@) && final(self)@ == old(self)@,
            },
            old(self).well_formed() ==> final(self).well_formed(),
    {
        match find_field(&self.fields, name) {
            Some(place) => {
                match self.set_at(place, value) {
                    Ok(_) => Ok(()),
                    Err(fault) => Err(fault),
                }
            },
            None => Err(Fault::NameNotFound(name.to_owned())),
        }
    }
}

} // verus!
