//! Modules: tables of named functions, a string table and sub-modules.

use vstd::prelude::*;
use crate::program::{FunctionPath, StringTablePath, texts};
use crate::value::function::{Function, FunctionModel};

verus! {

/// A module. Of two entries of a table under one name the later one
/// counts.
#[derive(Debug)]
pub struct Module {
    pub module_name: String,
    pub functions: Vec<(String, Function)>,
    pub string_table: Vec<String>,
    pub sub_modules: Vec<(String, Module)>,
}

/// What a `Module` is.
pub struct ModuleModel {
    pub name: Seq<char>,
    pub functions: Seq<(Seq<char>, FunctionModel)>,
    pub string_table: Seq<Seq<char>>,
    pub sub_modules: Seq<(Seq<char>, ModuleModel)>,
}

/// The models of a table of functions.
pub open spec fn functions_model(functions: Seq<(String, Function)>) -> Seq<
    (Seq<char>, FunctionModel),
> {
    Seq::new(functions.len(), |i: int| (functions[i].0@, functions[i].1@))
}

/// The models of a table of modules.
pub open spec fn modules_model(modules: Seq<(String, Module)>) -> Seq<(Seq<char>, ModuleModel)>
    decreases modules,
{
    Seq::new(
        modules.len(),
        |i: int|
            if 0 <= i < modules.len() {
                (modules[i].0@, module_model(modules[i].1))
            } else {
                arbitrary()
            },
    )
}

/// What a module is.
pub open spec fn module_model(module: Module) -> ModuleModel
    decreases module,
{
    ModuleModel {
        name: module.module_name@,
        functions: functions_model(module.functions@),
        string_table: texts(module.string_table@),
        sub_modules: modules_model(module.sub_modules@),
    }
}

impl View for Module {
    type V = ModuleModel;

    open spec fn view(&self) -> ModuleModel {
        module_model(*self)
    }
}

/// The function that a table holds under a name: the last entry with
/// that name.
pub open spec fn function_named(table: Seq<(Seq<char>, FunctionModel)>, name: Seq<char>) -> Option<
    FunctionModel,
>
    decreases table.len(),
{
    if table.len() == 0 {
        None
    } else if table.last().0 == name {
        Some(table.last().1)
    } else {
        function_named(table.drop_last(), name)
    }
}

/// The module that a table holds under a name: the last entry with that
/// name.
pub open spec fn module_named(table: Seq<(Seq<char>, ModuleModel)>, name: Seq<char>) -> Option<
    ModuleModel,
>
    decreases table.len(),
{
    if table.len() == 0 {
        None
    } else if table.last().0 == name {
        Some(table.last().1)
    } else {
        module_named(table.drop_last(), name)
    }
}

/// The module that a path of sub-module names leads to.
pub open spec fn module_at(module: ModuleModel, path: Seq<Seq<char>>) -> Option<ModuleModel>
    decreases path.len(),
{
    if path.len() == 0 {
        Some(module)
    } else {
        match module_named(module.sub_modules, path[0]) {
            Some(inner) => module_at(inner, path.drop_first()),
            None => None,
        }
    }
}

/// The function that a path names: its last segment is looked up in the
/// module that the segments before it lead to. The empty path names
/// nothing.
pub open spec fn function_at(module: ModuleModel, path: Seq<Seq<char>>) -> Option<FunctionModel> {
    if path.len() == 0 {
        None
    } else {
        match module_at(module, path.drop_last()) {
            Some(inner) => function_named(inner.functions, path.last()),
            None => None,
        }
    }
}

/// The string at an index of the table of the module that a path leads
/// to.
pub open spec fn string_at(module: ModuleModel, path: Seq<Seq<char>>, index: int) -> Option<
    Seq<char>,
> {
    match module_at(module, path) {
        Some(inner) => if 0 <= index < inner.string_table.len() {
            Some(inner.string_table[index])
        } else {
            None
        },
        None => None,
    }
}

/// Walking a path one segment further.
pub proof fn lemma_module_at_step(module: ModuleModel, path: Seq<Seq<char>>, taken: int)
    requires
        0 <= taken < path.len(),
    ensures
        module_at(module, path.subrange(0, taken + 1)) == match module_at(
            module,
            path.subrange(0, taken),
        ) {
            Some(inner) => module_named(inner.sub_modules, path[taken]),
            None => None,
        },
    decreases taken,
{
    let longer = path.subrange(0, taken + 1);
    let shorter = path.subrange(0, taken);
    if taken == 0 {
        assert(longer.drop_first() =~= Seq::<Seq<char>>::empty());
        assert(shorter =~= Seq::<Seq<char>>::empty());
        assert(longer[0] == path[0]);
        match module_named(module.sub_modules, path[0]) {
            Some(inner) => {
                assert(module_at(inner, longer.drop_first()) == Some(inner));
            },
            None => {},
        }
    } else {
        assert(longer[0] == path[0]);
        assert(shorter[0] == path[0]);
        match module_named(module.sub_modules, path[0]) {
            Some(inner) => {
                let rest = path.drop_first();
                lemma_module_at_step(inner, rest, taken - 1);
                assert(longer.drop_first() =~= rest.subrange(0, taken));
                assert(shorter.drop_first() =~= rest.subrange(0, taken - 1));
                assert(rest[taken - 1] == path[taken]);
            },
            None => {},
        }
    }
}

/// The last entry of a table of functions under a name.
fn find_function<'a>(table: &'a Vec<(String, Function)>, name: &String) -> (r: Option<
    &'a Function,
>)
    ensures
        match r {
            Some(f) => function_named(functions_model(table@), name@) == Some(f@),
            None => function_named(functions_model(table@), name@) is None,
        },
{
    let mut i: usize = table.len();
    let ghost all = functions_model(table@);
    proof {
        assert(all.subrange(0, i as int) =~= all);
    }
    while i > 0
        invariant
            i <= table.len(),
            all == functions_model(table@),
            function_named(all, name@) == function_named(all.subrange(0, i as int), name@),
        decreases i,
    {
        let ghost part = all.subrange(0, i as int);
        proof {
            assert(part.last() == all[i - 1]);
            assert(part.drop_last() =~= all.subrange(0, i - 1));
        }
        if table[i - 1].0 == *name {
            return Some(&table[i - 1].1);
        }
        i = i - 1;
    }
    proof {
        assert(all.subrange(0, 0) =~= Seq::<(Seq<char>, FunctionModel)>::empty());
    }
    None
}

/// The last entry of a table of modules under a name.
fn find_module<'a>(table: &'a Vec<(String, Module)>, name: &String) -> (r: Option<&'a Module>)
    ensures
        match r {
            Some(m) => module_named(modules_model(table@), name@) == Some(m@),
            None => module_named(modules_model(table@), name@) is None,
        },
{
    let mut i: usize = table.len();
    let ghost all = modules_model(table@);
    proof {
        assert(all.subrange(0, i as int) =~= all);
    }
    while i > 0
        invariant
            i <= table.len(),
            all == modules_model(table@),
            module_named(all, name@) == module_named(all.subrange(0, i as int), name@),
        decreases i,
    {
        let ghost part = all.subrange(0, i as int);
        proof {
            assert(part.last() == all[i - 1]);
            assert(part.drop_last() =~= all.subrange(0, i - 1));
        }
        if table[i - 1].0 == *name {
            return Some(&table[i - 1].1);
        }
        i = i - 1;
    }
    proof {
        assert(all.subrange(0, 0) =~= Seq::<(Seq<char>, ModuleModel)>::empty());
    }
    None
}

impl Module {
    /// The module of a name with these tables.
    pub fn new(
        module_name: &str,
        functions: Vec<(String, Function)>,
        string_table: Vec<String>,
        sub_modules: Vec<(String, Module)>,
    ) -> (r: Module)
        ensures
            r@.name == module_name@,
            r@.functions == functions_model(functions@),
            r@.string_table == texts(string_table@),
            r@.sub_modules == modules_model(sub_modules@),
    {
        Module { module_name: module_name.to_owned(), functions, string_table, sub_modules }
    }

    /// The module that the first `count` segments lead to.
    fn descend<'a>(&'a self, path: &Vec<String>, count: usize) -> (r: Option<&'a Module>)
        requires
            count <= path@.len(),
        ensures
            match r {
                Some(m) => module_at(self@, texts(path@).subrange(0, count as int)) == Some(m@),
                None => module_at(self@, texts(path@).subrange(0, count as int)) is None,
            },
    {
        let mut module: &Module = self;
        let mut i: usize = 0;
        proof {
            assert(texts(path@).subrange(0, 0) =~= Seq::<Seq<char>>::empty());
        }
        while i < count
            invariant
                i <= count <= path@.len(),
                module_at(self@, texts(path@).subrange(0, i as int)) == Some(module@),
            decreases count - i,
        {
            proof {
                lemma_module_at_step(self@, texts(path@), i as int);
            }
            match find_module(&module.sub_modules, &path[i]) {
                Some(inner) => {
                    module = inner;
                },
                None => {
                    proof {
                        lemma_module_at_none(self@, texts(path@), i as int + 1, count as int);
                    }
                    return None;
                },
            }
            i = i + 1;
        }
        Some(module)
    }

    /// The function that a path names.
    pub fn get_function(&self, path: &FunctionPath) -> (r: Option<&Function>)
        ensures
            match r {
                Some(f) => function_at(self@, path@) == Some(f@),
                None => function_at(self@, path@) is None,
            },
    {
        let count = path.path.len();
        if count == 0 {
            return None;
        }
        proof {
            assert(path@.drop_last() =~= texts(path.path@).subrange(0, count - 1));
        }
        match self.descend(&path.path, count - 1) {
            Some(module) => find_function(&module.functions, &path.path[count - 1]),
            None => None,
        }
    }

    /// The string at an index of the table that a path leads to.
    pub fn get_string(&self, path: &StringTablePath, index: usize) -> (r: Option<&String>)
        ensures
            match r {
                Some(s) => string_at(self@, path@, index as int) == Some(s@),
                None => string_at(self@, path@, index as int) is None,
            },
    {
        let count = path.path.len();
        proof {
            assert(path@ =~= texts(path.path@).subrange(0, count as int));
        }
        match self.descend(&path.path, count) {
            Some(module) => if index < module.string_table.len() {
                Some(&module.string_table[index])
            } else {
                None
            },
            None => None,
        }
    }

    /// Enters a function under a name; it takes the place of an earlier
    /// one of that name.
    pub fn add_function(&mut self, path: &str, function: Function)
        ensures
            final(self)@.functions == old(self)@.functions.push((path@, function@)),
            final(self)@.name == old(self)@.name,
            final(self)@.string_table == old(self)@.string_table,
            final(self)@.sub_modules == old(self)@.sub_modules,
            function_named(final(self)@.functions, path@) == Some(function@),
    {
        self.functions.push((path.to_owned(), function));
        proof {
            assert(final(self)@.functions =~= old(self)@.functions.push((path@, function@)));
        }
    }
}

/// Where a prefix of a path leads nowhere, no longer prefix leads
/// anywhere.
pub proof fn lemma_module_at_none(module: ModuleModel, path: Seq<Seq<char>>, short: int, long: int)
    requires
        0 <= short <= long <= path.len(),
        module_at(module, path.subrange(0, short)) is None,
    ensures
        module_at(module, path.subrange(0, long)) is None,
    decreases long - short,
{
    if short < long {
        lemma_module_at_step(module, path, short);
        lemma_module_at_none(module, path, short + 1, long);
    }
}

impl Default for Module {
    fn default() -> (r: Module)
        ensures
            r@.name == Seq::<char>::empty(),
            r@.functions == Seq::<(Seq<char>, FunctionModel)>::empty(),
            r@.string_table == Seq::<Seq<char>>::empty(),
            r@.sub_modules == Seq::<(Seq<char>, ModuleModel)>::empty(),
    {
        let functions: Vec<(String, Function)> = Vec::new();
        let string_table: Vec<String> = Vec::new();
        let sub_modules: Vec<(String, Module)> = Vec::new();
        let r = Module { module_name: String::new(), functions, string_table, sub_modules };
        proof {
            assert(r@.functions =~= Seq::<(Seq<char>, FunctionModel)>::empty());
            assert(r@.string_table =~= Seq::<Seq<char>>::empty());
            assert(r@.sub_modules =~= Seq::<(Seq<char>, ModuleModel)>::empty());
        }
        r
    }
}

/// A function that was entered under a name is the one that the path of
/// that name finds, whatever was entered under the name before.
pub proof fn law_added_function_is_found(
    module: ModuleModel,
    name: Seq<char>,
    function: FunctionModel,
)
    ensures
        function_at(
            ModuleModel {
                name: module.name,
                functions: module.functions.push((name, function)),
                string_table: module.string_table,
                sub_modules: module.sub_modules,
            },
            seq![name],
        ) == Some(function),
{
    let path = seq![name];
    assert(path.drop_last() =~= Seq::<Seq<char>>::empty());
}

} // verus!
