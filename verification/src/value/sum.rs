//! Sums: one chosen variant of a named union, with its tag and fields.

use vstd::prelude::*;
use crate::machine::{Fault, FaultModel};
use crate::value::product::{
    distinct_names, find_field, has_distinct_names, lemma_with_field_distinct, place_of,
    with_field,
};
use crate::value::{
    Value, ValueModel, clone_fields, fields_model, lemma_fields_model_update,
};

verus! {

/// One variant of a named union.
#[derive(Debug)]
pub struct SumType {
    pub name: String,
    pub tag: u8,
    pub fields: Vec<(String, Value)>,
}

/// What a `SumType` is.
pub struct SumModel {
    pub name: Seq<char>,
    pub tag: u8,
    pub fields: Seq<(Seq<char>, ValueModel)>,
}

impl View for SumType {
    type V = SumModel;

    open spec fn view(&self) -> SumModel {
        SumModel { name: self.name@, tag: self.tag, fields: fields_model(self.fields@) }
    }
}

impl Clone for SumType {
    fn clone(&self) -> (r: Self)
        ensures
            r@ == self@,
    {
        SumType { name: self.name.clone(), tag: self.tag, fields: clone_fields(&self.fields) }
    }
}

impl SumType {
    /// A variant is well formed where no two of its fields have one name.
    pub open spec fn well_formed(&self) -> bool {
        distinct_names(self@.fields)
    }

    /// The variant of a name and a tag with these fields in this order,
    /// or `None` where two of them have one name.
    pub fn new(name: String, tag: u8, fields: Vec<(String, Value)>) -> (r: Option<SumType>)
        ensures
            match r {
                Some(sum) => sum@ == (SumModel {
                    name: name@,
                    tag,
                    fields: fields_model(fields@),
                }) && sum.well_formed(),
                None => !distinct_names(fields_model(fields@)),
            },
    {
        if has_distinct_names(&fields) {
            Some(SumType { name, tag, fields })
        } else {
            None
        }
    }

    /// The value of the field of a name.
    pub fn get(&self, name: &str) -> (r: Option<&Value>)
        ensures
            match r {
                Some(value) => place_of(self@.fields, name@) matches Some(place) && value@
                    == self@.fields[place].1,
                None => place_of(self@.fields, name@) is None,
            },
    {
        match find_field(&self.fields, name) {
            Some(place) => Some(&self.fields[place].1),
            None => None,
        }
    }

    /// The value of the field at a place.
    pub fn get_at(&self, index: usize) -> (r: Option<&Value>)
        ensures
            match r {
                Some(value) => index < self@.fields.len() && value@ == self@.fields[index as int].1,
                None => index >= self@.fields.len(),
            },
    {
        if index < self.fields.len() {
            Some(&self.fields[index].1)
        } else {
            None
        }
    }

    /// Replaces the value of the field at a place; `OutOfBounds` past
    /// the last field.
    pub fn set_at(&mut self, index: usize, value: Value) -> (r: Result<(), Fault>)
        ensures
            final(self)@.name == old(self)@.name,
            final(self)@.tag == old(self)@.tag,
            match r {
                Ok(_) => index < old(self)@.fields.len() && final(self)@.fields == with_field(
                    old(self)@.fields,
                    index as int,
                    value@,
                ),
                Err(fault) => index >= old(self)@.fields.len() && fault == Fault::OutOfBounds
                    && final(self)@ == old(self)@,
            },
            old(self).well_formed() ==> final(self).well_formed(),
    {
        if index < self.fields.len() {
            let name = self.fields[index].0.clone();
            proof {
                lemma_fields_model_update(self.fields@, index as int, (name, value));
                if self.well_formed() {
                    lemma_with_field_distinct(self@.fields, index as int, value@);
                }
            }
            self.fields[index] = (name, value);
            Ok(())
        } else {
            Err(Fault::OutOfBounds)
        }
    }

    /// Replaces the value of the field of a name; `NameNotFound` where
    /// there is no such field.
    pub fn set(&mut self, name: &str, value: Value) -> (r: Result<(), Fault>)
        ensures
            final(self)@.name == old(self)@.name,
            final(self)@.tag == old(self)@.tag,
            match r {
                Ok(_) => place_of(old(self)@.fields, name@) matches Some(place)
                    && final(self)@.fields == with_field(old(self)@.fields, place, value@),
                Err(fault) => place_of(old(self)@.fields, name@) is None && fault@
                    == FaultModel::NameNotFound(name@) && final(self)@ == old(self)@,
            },
            old(self).well_formed() ==> final(self).well_formed(),
    {
        match find_field(&self.fields, name) {
            Some(place) => {
                match self.set_at(place, value) {
                    Ok(_) => Ok(()),
                    Err(fault) => Err(fault),
                }
            },
            None => Err(Fault::NameNotFound(name.to_owned())),
        }
    }
}

} // verus!
