//! The symbol table that the passes work on, and the frozen context that
//! the generators read.

use vstd::prelude::*;
use vstd::string::*;
use crate::error::{CodegenError, CodegenErrorView};
use crate::rust_ast::Module;
use crate::schema::{
    distinct, is_first_match, lemma_position_absent, lemma_position_found, names_of, position,
    views, Schema, TypeDef, TypeDefView, TypeId,
};

verus! {

/// The definitions of the first `n` modules, in the order of their
/// declaration.
pub open spec fn all_items(mods: Seq<Module>, n: nat) -> Seq<TypeDefView>
    decreases n,
{
    if n == 0 || n > mods.len() {
        Seq::empty()
    } else {
        all_items(mods, (n - 1) as nat) + views(mods[n - 1].items@)
    }
}

/// The views of a list of names.
pub open spec fn texts(names: Seq<String>) -> Seq<Seq<char>> {
    Seq::new(names.len(), |i: int| names[i]@)
}

/// Whether `j` is the first place in `names` whose name stood earlier too.
pub open spec fn is_first_duplicate(names: Seq<Seq<char>>, j: int) -> bool {
    &&& 0 <= j < names.len()
    &&& distinct(names.take(j))
    &&& exists|i: int| 0 <= i < j && names[i] == names[j]
}

/// The first place below `end` at which `key` stands in `names`.
pub fn find_before(names: &Vec<String>, key: &String, end: usize) -> (found: Option<usize>)
    requires
        end <= names.len(),
    ensures
        match found {
            Some(i) => i < end && is_first_match(texts(names@), key@, i as int),
            None => forall|j: int| 0 <= j < end ==> texts(names@)[j] != key@,
        },
{
    let mut i: usize = 0;
    while i < end
        invariant
            i <= end <= names.len(),
            forall|j: int| 0 <= j < i ==> texts(names@)[j] != key@,
        decreases end - i,
    {
        if names[i] == *key {
            assert(texts(names@)[i as int] == key@);
            return Some(i);
        }
        assert(texts(names@)[i as int] != key@);
        i = i + 1;
    }
    None
}

/// The first place in `names` whose name stood earlier too, if any name
/// occurs twice.
pub fn first_duplicate(names: &Vec<String>) -> (found: Option<usize>)
    ensures
        match found {
            Some(j) => is_first_duplicate(texts(names@), j as int),
            None => distinct(texts(names@)),
        },
{
    let ghost shown = texts(names@);
    let mut j: usize = 0;
    while j < names.len()
        invariant
            j <= names.len(),
            shown == texts(names@),
            distinct(shown.take(j as int)),
        decreases names.len() - j,
    {
        match find_before(names, &names[j], j) {
            Some(i) => {
                assert(shown[i as int] == shown[j as int]);
                return Some(j);
            },
            None => {
                proof {
                    let next = shown.take(j + 1);
                    let prev = shown.take(j as int);
                    assert forall|a: int, b: int| 0 <= a < b < next.len() implies next[a]
                        != next[b] by {
                        if b < j {
                            assert(prev[a] != prev[b]);
                        }
                    }
                }
            },
        }
        j = j + 1;
    }
    assert(shown.take(names.len() as int) =~= shown);
    None
}

/// The symbol table: every definition under its identifier, and the index
/// from names to identifiers.
#[derive(Debug)]
pub struct EarlyCtx {
    /// The definitions; the identifier of a definition is its place here.
    pub ty_table: Vec<TypeDef>,
    /// The name of each definition, by identifier.
    pub ident_table: Vec<String>,
    /// The paths of the files that the definitions came from.
    pub mods: Vec<String>,
}

/// The frozen context of the generators.
#[derive(Debug)]
pub struct LateCtx {
    pub schema: Schema,
}

impl EarlyCtx {
    /// The definitions of the table.
    pub open spec fn defs(&self) -> Seq<TypeDefView> {
        views(self.ty_table@)
    }

    /// The names of the definitions, by identifier.
    pub open spec fn names(&self) -> Seq<Seq<char>> {
        names_of(self.defs())
    }

    /// The index holds the name of every definition under its identifier,
    /// and no two definitions share a name.
    pub open spec fn wf(&self) -> bool {
        &&& texts(self.ident_table@) == self.names()
        &&& distinct(self.names())
    }

    /// Builds the symbol table: every definition of every module gets the
    /// next identifier, in the order of the modules and of the declarations
    /// in them. Two definitions of one name are refused; the error names
    /// the first name that is declared a second time.
    pub fn new(mods: Vec<Module>) -> (ctx: Result<EarlyCtx, CodegenError>)
        ensures
            match ctx {
                Ok(ctx) => {
                    &&& ctx.wf()
                    &&& ctx.defs() == all_items(mods@, mods.len() as nat)
                    &&& ctx.mods.len() == mods.len()
                    &&& forall|m: int|
                        0 <= m < mods.len() ==> (#[trigger] ctx.mods[m])@ == mods[m].path@
                },
                Err(error) => exists|j: int|
                    {
                        &&& #[trigger] is_first_duplicate(
                            names_of(all_items(mods@, mods.len() as nat)),
                            j,
                        )
                        &&& error@ == (CodegenErrorView::DuplicateName {
                            name: names_of(all_items(mods@, mods.len() as nat))[j],
                        })
                    },
            },
    {
        let mut ty_table: Vec<TypeDef> = Vec::new();
        let mut ident_table: Vec<String> = Vec::new();
        let mut paths: Vec<String> = Vec::new();
        let mut m: usize = 0;
        while m < mods.len()
            invariant
                m <= mods.len(),
                paths.len() == m,
                forall|k: int| 0 <= k < m ==> (#[trigger] paths[k])@ == mods[k].path@,
                views(ty_table@) == all_items(mods@, m as nat),
                texts(ident_table@) == names_of(views(ty_table@)),
            decreases mods.len() - m,
        {
            let module = &mods[m];
            paths.push(module.path.clone());
            let mut j: usize = 0;
            while j < module.items.len()
                invariant
                    j <= module.items.len(),
                    m < mods.len(),
                    *module == mods[m as int],
                    views(ty_table@) == all_items(mods@, m as nat) + views(module.items@).take(
                        j as int,
                    ),
                    texts(ident_table@) == names_of(views(ty_table@)),
                decreases module.items.len() - j,
            {
                let def = module.items[j].duplicate();
                let ghost before = views(ty_table@);
                let ghost before_names = texts(ident_table@);
                ident_table.push(def.name.clone());
                ty_table.push(def);
                assert(views(ty_table@) =~= before.push(def@));
                assert(texts(ident_table@) =~= before_names.push(def@.name));
                assert(names_of(before.push(def@)) =~= names_of(before).push(def@.name));
                assert(views(module.items@).take(j + 1) =~= views(module.items@).take(
                    j as int,
                ).push(def@));
                assert(views(ty_table@) =~= all_items(mods@, m as nat) + views(
                    module.items@,
                ).take(j + 1));
                assert(texts(ident_table@) =~= names_of(views(ty_table@)));
                j = j + 1;
            }
            assert(views(module.items@).take(module.items.len() as int) =~= views(
                module.items@,
            ));
            m = m + 1;
        }
        match first_duplicate(&ident_table) {
            Some(j) => Err(CodegenError::DuplicateName { name: ident_table[j].clone() }),
            None => Ok(EarlyCtx { ty_table, ident_table, mods: paths }),
        }
    }

    /// Freezes the table into the context of the generators. The
    /// definitions are handed on as they are.
    pub fn into_late_ctx(self) -> (ctx: LateCtx)
        ensures
            ctx.schema.definitions == self.ty_table,
    {
        LateCtx { schema: Schema { definitions: self.ty_table } }
    }

    /// The identifier of the definition called `key`.
    pub fn type_id(&self, key: &String) -> (id: Option<TypeId>)
        requires
            self.wf(),
        ensures
            id == position(self.names(), key@),
            id matches Some(id) ==> id < self.ty_table.len() && self.ty_table[id as int].name@
                == key@,
    {
        let found = find_before(&self.ident_table, key, self.ident_table.len());
        proof {
            assert(self.names().len() == self.ty_table.len());
            match found {
                Some(i) => {
                    lemma_position_found(self.names(), key@, i as int);
                    assert(self.names()[i as int] == self.ty_table[i as int].name@);
                },
                None => {
                    lemma_position_absent(self.names(), key@);
                },
            }
        }
        found
    }

    /// The definition called `key`.
    pub fn find(&self, key: &String) -> (def: Option<&TypeDef>)
        requires
            self.wf(),
        ensures
            match def {
                Some(def) => position(self.names(), key@) matches Some(id) && id
                    < self.ty_table.len() && *def == self.ty_table[id as int],
                None => position(self.names(), key@) is None,
            },
    {
        match self.type_id(key) {
            Some(id) => Some(&self.ty_table[id]),
            None => None,
        }
    }

    /// The definition with the identifier `id`.
    pub fn ast_ref(&self, id: TypeId) -> (def: &TypeDef)
        requires
            id < self.ty_table.len(),
        ensures
            *def == self.ty_table[id as int],
    {
        &self.ty_table[id]
    }
}

impl LateCtx {
    /// The definition with the identifier `id`, if the schema has one.
    pub fn type_def(&self, id: TypeId) -> (def: Option<&TypeDef>)
        ensures
            match def {
                Some(def) => id < self.schema.definitions.len() && *def
                    == self.schema.definitions[id as int],
                None => id >= self.schema.definitions.len(),
            },
    {
        if id < self.schema.definitions.len() {
            Some(&self.schema.definitions[id])
        } else {
            None
        }
    }
}

/// Identifiers and names correspond one to one. The definition under an
/// identifier is found again by its name; a name that is found leads to the
/// definition that bears it; and two identifiers never share a name, so
/// every identifier below the number of definitions is used, and used once.
pub proof fn lemma_type_id_bijection(ctx: EarlyCtx, id: TypeId, other: TypeId, key: Seq<char>)
    requires
        ctx.wf(),
        id < ctx.ty_table.len(),
        other < ctx.ty_table.len(),
    ensures
        position(ctx.names(), ctx.names()[id as int]) == Some(id),
        position(ctx.names(), key) matches Some(found) ==> found < ctx.ty_table.len()
            && ctx.names()[found as int] == key,
        other != id ==> ctx.names()[other as int] != ctx.names()[id as int],
{
    let names = ctx.names();
    assert(names.len() == ctx.ty_table.len());
    assert(is_first_match(names, names[id as int], id as int));
    lemma_position_found(names, names[id as int], id as int);
    if position(names, key) is Some {
        let chosen = choose|i: int| is_first_match(names, key, i);
        assert(is_first_match(names, key, chosen));
    }
}

} // verus!
