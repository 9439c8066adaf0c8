//! Environments: the bindings of names to values within a frame.
//!
//! The bindings live in a hash map with the hasher of the `fxhash` crate.
//! Verus does not look inside such a map: what it holds is named by
//! `bindings`, and the functions marked `external_body` below say over that
//! name what each call does to the map. Their contracts are believed, not
//! proved.

use vstd::prelude::*;
use crate::value::{Value, ValueModel};

verus! {

/// The hasher of the `fxhash` crate, of which nothing is stated.
#[verifier::external_type_specification]
#[verifier::external_body]
pub struct ExFxHasher(fxhash::FxHasher);

/// The builder of default hashers of the standard library, of which
/// nothing is stated.
#[verifier::external_type_specification]
#[verifier::external_body]
#[verifier::reject_recursive_types(H)]
pub struct ExBuildHasherDefault<H>(std::hash::BuildHasherDefault<H>);

/// A mapping from names to values.
#[derive(Debug)]
pub struct Environment {
    pub hashmap: fxhash::FxHashMap<String, Value>,
}

/// What a map holds: the model of the value bound to each name.
pub uninterp spec fn bindings(map: fxhash::FxHashMap<String, Value>) -> Map<Seq<char>, ValueModel>;

/// The environment in which nothing is bound.
pub open spec fn no_bindings() -> Map<Seq<char>, ValueModel> {
    Map::empty()
}

/// Whether the names bound are finitely many, and this many.
pub open spec fn counts(count: usize, bound: Map<Seq<char>, ValueModel>) -> bool {
    bound.dom().finite() && count == bound.dom().len()
}

impl View for Environment {
    type V = Map<Seq<char>, ValueModel>;

    open spec fn view(&self) -> Map<Seq<char>, ValueModel> {
        bindings(self.hashmap)
    }
}

/// Makes an empty map with `FxHashMap::default`. Claimed: nothing is
/// bound in it.
#[verifier::external_body]
fn map_new() -> (r: fxhash::FxHashMap<String, Value>)
    ensures
        bindings(r) == no_bindings(),
{
    fxhash::FxHashMap::default()
}

/// Calls `HashMap::insert`. Claimed: afterwards the name is bound to the
/// value, and every other name to what it was bound to before.
#[verifier::external_body]
fn map_insert(map: &mut fxhash::FxHashMap<String, Value>, key: String, value: Value)
    ensures
        bindings(*final(map)) == bindings(*old(map)).insert(key@, value@),
{
    map.insert(key, value);
}

/// Calls `HashMap::get`. Claimed: it hands out the value bound to the
/// name, and `None` where the name is not bound.
#[verifier::external_body]
fn map_get<'a>(map: &'a fxhash::FxHashMap<String, Value>, key: &str) -> (r: Option<&'a Value>)
    ensures
        match r {
            Some(v) => bindings(*map).contains_key(key@) && bindings(*map)[key@] == v@,
            None => !bindings(*map).contains_key(key@),
        },
{
    map.get(key)
}

/// Calls `HashMap::get_mut`. Claimed: it hands out the value bound to the
/// name, and `None` where the name is not bound; once the caller is done
/// with the value handed out, the name is bound to what the caller left
/// in it, and every other name to what it was bound to before.
#[verifier::external_body]
fn map_get_mut<'a>(map: &'a mut fxhash::FxHashMap<String, Value>, key: &str) -> (r: Option<
    &'a mut Value,
>)
    ensures
        match r {
            Some(v) => bindings(*old(map)).contains_key(key@) && bindings(*old(map))[key@] == (*v)@
                && bindings(*final(map)) == bindings(*old(map)).insert(key@, (*final(v))@),
            None => !bindings(*old(map)).contains_key(key@) && bindings(*final(map)) == bindings(
                *old(map),
            ),
        },
{
    map.get_mut(key)
}

/// Calls `HashMap::contains_key`. Claimed: it says whether the name is
/// bound.
#[verifier::external_body]
fn map_contains_key(map: &fxhash::FxHashMap<String, Value>, key: &str) -> (r: bool)
    ensures
        r == bindings(*map).contains_key(key@),
{
    map.contains_key(key)
}

/// Calls `HashMap::remove`. Claimed: afterwards the name is not bound,
/// every other name is bound as before, and the value that was bound to
/// the name is handed out.
#[verifier::external_body]
fn map_remove(map: &mut fxhash::FxHashMap<String, Value>, key: &str) -> (r: Option<Value>)
    ensures
        bindings(*final(map)) == bindings(*old(map)).remove(key@),
        match r {
            Some(v) => bindings(*old(map)).contains_key(key@) && bindings(*old(map))[key@] == v@,
            None => !bindings(*old(map)).contains_key(key@),
        },
{
    map.remove(key)
}

/// Calls `HashMap::len`. Claimed: finitely many names are bound, and this
/// is their number.
#[verifier::external_body]
fn map_len(map: &fxhash::FxHashMap<String, Value>) -> (r: usize)
    ensures
        counts(r, bindings(*map)),
{
    map.len()
}

/// Calls `HashMap::clone`, which copies each value with `Value::clone`.
/// Claimed: the copy binds the same names to values with the same
/// models.
#[verifier::external_body]
fn map_clone(map: &fxhash::FxHashMap<String, Value>) -> (r: fxhash::FxHashMap<String, Value>)
    ensures
        bindings(r) == bindings(*map),
{
    map.clone()
}

/// Calls `HashMap::keys` and copies each name. Claimed: the list holds
/// each bound name once and no other name; nothing is claimed of their
/// order.
#[verifier::external_body]
fn map_names(map: &fxhash::FxHashMap<String, Value>) -> (r: Vec<String>)
    ensures
        forall|i: int| 0 <= i < r@.len() ==> bindings(*map).contains_key(#[trigger] r@[i]@),
        forall|name: Seq<char>|
            bindings(*map).contains_key(name) ==> exists|i: int|
                0 <= i < r@.len() && #[trigger] r@[i]@ == name,
        forall|i: int, j: int| 0 <= i < j < r@.len() ==> r@[i]@ != r@[j]@,
{
    map.keys().cloned().collect()
}

impl Environment {
    /// The environment in which nothing is bound.
    pub fn new() -> (r: Environment)
        ensures
            r@ == no_bindings(),
    {
        Environment { hashmap: map_new() }
    }

    /// Binds a name to a value, in place of what it was bound to.
    pub fn insert(&mut self, key: String, value: Value)
        ensures
            final(self)@ == old(self)@.insert(key@, value@),
    {
        map_insert(&mut self.hashmap, key, value);
    }

    /// The value bound to a name.
    pub fn get(&self, key: &str) -> (r: Option<&Value>)
        ensures
            match r {
                Some(v) => self@.contains_key(key@) && self@[key@] == v@,
                None => !self@.contains_key(key@),
            },
    {
        map_get(&self.hashmap, key)
    }

    /// The value bound to a name, to be changed in place: what the caller
    /// leaves in it is what the name is bound to afterwards.
    pub fn get_mut(&mut self, key: &str) -> (r: Option<&mut Value>)
        ensures
            match r {
                Some(v) => old(self)@.contains_key(key@) && old(self)@[key@] == (*v)@
                    && final(self)@ == old(self)@.insert(key@, (*final(v))@),
                None => !old(self)@.contains_key(key@) && final(self)@ == old(self)@,
            },
    {
        map_get_mut(&mut self.hashmap, key)
    }

    /// Whether a name is bound.
    pub fn contains_key(&self, key: &str) -> (r: bool)
        ensures
            r == self@.contains_key(key@),
    {
        map_contains_key(&self.hashmap, key)
    }

    /// Unbinds a name and hands out what it was bound to.
    pub fn remove(&mut self, key: &str) -> (r: Option<Value>)
        ensures
            final(self)@ == old(self)@.remove(key@),
            match r {
                Some(v) => old(self)@.contains_key(key@) && old(self)@[key@] == v@,
                None => !old(self)@.contains_key(key@),
            },
    {
        map_remove(&mut self.hashmap, key)
    }

    /// The number of names that are bound.
    pub fn len(&self) -> (r: usize)
        ensures
            counts(r, self@),
    {
        map_len(&self.hashmap)
    }

    /// Whether nothing is bound.
    pub fn is_empty(&self) -> (r: bool)
        ensures
            r == (self@ == Map::<Seq<char>, ValueModel>::empty()),
    {
        let n = self.len();
        proof {
            if n == 0 {
                assert(self@.dom() =~= Set::<Seq<char>>::empty());
                assert(self@ =~= Map::<Seq<char>, ValueModel>::empty());
            } else {
                assert(Map::<Seq<char>, ValueModel>::empty().dom().len() == 0);
            }
        }
        n == 0
    }

    /// A copy that binds the same names to copies of their values.
    pub fn duplicate(&self) -> (r: Environment)
        ensures
            r@ == self@,
    {
        Environment { hashmap: map_clone(&self.hashmap) }
    }

    /// The names that are bound, each once, in no stated order.
    pub fn names(&self) -> (r: Vec<String>)
        ensures
            forall|i: int| 0 <= i < r@.len() ==> self@.contains_key(#[trigger] r@[i]@),
            forall|name: Seq<char>|
                self@.contains_key(name) ==> exists|i: int|
                    0 <= i < r@.len() && #[trigger] r@[i]@ == name,
            forall|i: int, j: int| 0 <= i < j < r@.len() ==> r@[i]@ != r@[j]@,
    {
        map_names(&self.hashmap)
    }
}

impl Clone for Environment {
    fn clone(&self) -> (r: Self)
        ensures
            r@ == self@,
    {
        self.duplicate()
    }
}

/// The bindings after `other` was merged into an environment: what was
/// bound stays bound as it was, and what only `other` binds is added.
pub open spec fn merged(
    own: Map<Seq<char>, ValueModel>,
    other: Map<Seq<char>, ValueModel>,
) -> Map<Seq<char>, ValueModel> {
    other.union_prefer_right(own)
}

/// The bindings while the first `count` names of `other` are merged in.
spec fn merging(
    own: Map<Seq<char>, ValueModel>,
    other: Map<Seq<char>, ValueModel>,
    names: Seq<String>,
    count: int,
) -> Map<Seq<char>, ValueModel> {
    Map::new(
        |name: Seq<char>|
            own.contains_key(name) || exists|i: int|
                0 <= i < count && #[trigger] names[i]@ == name,
        |name: Seq<char>|
            if own.contains_key(name) {
                own[name]
            } else {
                other[name]
            },
    )
}

impl Environment {
    /// Merges the bindings of `other` in: a name that is bound already
    /// keeps its value.
    pub fn extend(&mut self, other: &Environment)
        ensures
            final(self)@ == merged(old(self)@, other@),
    {
        let names = other.names();
        let ghost own = self@;
        let mut i: usize = 0;
        proof {
            assert(merging(own, other@, names@, 0) =~= own);
        }
        while i < names.len()
            invariant
                i <= names.len(),
                self@ == merging(own, other@, names@, i as int),
                forall|k: int| 0 <= k < names@.len() ==> other@.contains_key(#[trigger] names@[k]@),
            decreases names.len() - i,
        {
            let name = &names[i];
            let ghost before = self@;
            if !self.contains_key(name.as_str()) {
                match other.get(name.as_str()) {
                    Some(value) => {
                        self.insert(name.clone(), value.clone());
                    },
                    None => {},
                }
            }
            proof {
                let after = merging(own, other@, names@, i + 1);
                assert forall|key: Seq<char>| #[trigger]
                    self@.contains_key(key) == after.contains_key(key) by {
                    if key == names@[i as int]@ {
                        assert(after.contains_key(key));
                    } else if before.contains_key(key) {
                        assert(after.contains_key(key));
                    } else if after.contains_key(key) {
                        if !own.contains_key(key) {
                            let k = choose|k: int|
                                0 <= k < i + 1 && #[trigger] names@[k]@ == key;
                            assert(k < i);
                        }
                    }
                }
                assert(self@ =~= after);
            }
            i = i + 1;
        }
        proof {
            let done = merging(own, other@, names@, names@.len() as int);
            assert forall|key: Seq<char>| #[trigger]
                done.contains_key(key) == merged(own, other@).contains_key(key) by {
                if other@.contains_key(key) && !own.contains_key(key) {
                    let k = choose|k: int| 0 <= k < names@.len() && #[trigger] names@[k]@ == key;
                    assert(names@[k]@ == key);
                }
            }
            assert(done =~= merged(own, other@));
        }
    }
}

} // verus!
