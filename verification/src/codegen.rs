//! The orchestrator: loads the definition files, builds the symbol table,
//! runs the passes and then the generators, and stops at the first failure.

use vstd::prelude::*;
use vstd::string::*;
use crate::context::{all_items, is_first_duplicate, EarlyCtx};
use crate::error::{CodegenError, CodegenErrorView};
use crate::generators::{generator_result, Generator};
use crate::output::{path_views, GeneratorOutput, GeneratorOutputView};
use crate::calc_layout::{
    all_sized, is_first_mismatch, is_sized, members_closed, mismatch_error, table_closed,
};
use crate::emit::lemma_no_flag;
use crate::layout::layouts;
use crate::passes::{
    first_unlinked, layout_result, lemma_all_closed, lemma_first_mismatch_pair,
    lemma_linked_is_closed, link_result, pass_result, unsized_flags, Pass,
};
use crate::schema::def_closed;
use crate::linker::link_error;
use crate::rust_ast::{load_result, loaded, Module};
use crate::schema::{distinct, names_of, views, Schema, TypeDefView};

verus! {

/// What a run of the generators ended with: the frozen schema and the
/// output of every generator under the generator's name, in the order in
/// which the generators were registered.
#[derive(Debug, PartialEq, Eq)]
pub struct CodegenResult {
    pub schema: Schema,
    pub outputs: Vec<(&'static str, GeneratorOutput)>,
}

pub struct CodegenResultView {
    pub schema: Seq<TypeDefView>,
    pub outputs: Seq<(Seq<char>, GeneratorOutputView)>,
}

/// The views of named outputs.
pub open spec fn output_views(outputs: Seq<(&'static str, GeneratorOutput)>) -> Seq<
    (Seq<char>, GeneratorOutputView),
> {
    Seq::new(outputs.len(), |i: int| (outputs[i].0@, outputs[i].1@))
}

impl View for CodegenResult {
    type V = CodegenResultView;

    open spec fn view(&self) -> CodegenResultView {
        CodegenResultView {
            schema: views(self.schema.definitions@),
            outputs: output_views(self.outputs@),
        }
    }
}

/// The outcome of a run by its views.
pub open spec fn result_view(result: Result<CodegenResult, CodegenError>) -> Result<
    CodegenResultView,
    CodegenErrorView,
> {
    match result {
        Ok(result) => Ok(result@),
        Err(error) => Err(error@),
    }
}

/// The first name that is declared a second time.
pub open spec fn first_duplicate_of(names: Seq<Seq<char>>) -> Option<int> {
    if exists|j: int| is_first_duplicate(names, j) {
        Some(choose|j: int| is_first_duplicate(names, j))
    } else {
        None
    }
}

/// The symbol table of definitions in the order of their declaration: the
/// definitions themselves, or the error for the first name that is
/// declared a second time.
pub open spec fn table_of(defs: Seq<TypeDefView>) -> Result<Seq<TypeDefView>, CodegenErrorView> {
    match first_duplicate_of(names_of(defs)) {
        Some(j) => Err(CodegenErrorView::DuplicateName { name: names_of(defs)[j] }),
        None => Ok(defs),
    }
}

/// The symbol table of a set of modules: all their definitions in order,
/// or the error for the first name that is declared a second time.
pub open spec fn table_result(mods: Seq<Module>) -> Result<Seq<TypeDefView>, CodegenErrorView> {
    table_of(all_items(mods, mods.len()))
}

/// What the first `n` passes make of a table, one after the other; the
/// first pass that fails ends the run.
pub open spec fn run_passes(passes: Seq<Pass>, n: nat, defs: Seq<TypeDefView>) -> Result<
    Seq<TypeDefView>,
    CodegenErrorView,
>
    decreases n,
{
    if n == 0 || n > passes.len() {
        Ok(defs)
    } else {
        match run_passes(passes, (n - 1) as nat, defs) {
            Ok(table) => pass_result(passes[n - 1], table),
            Err(error) => Err(error),
        }
    }
}

/// What the first `n` generators give for a schema, each under its name;
/// the first generator that fails ends the run.
pub open spec fn run_generators(generators: Seq<Generator>, n: nat, defs: Seq<TypeDefView>)
    -> Result<Seq<(Seq<char>, GeneratorOutputView)>, CodegenErrorView>
    decreases n,
{
    if n == 0 || n > generators.len() {
        Ok(Seq::empty())
    } else {
        match run_generators(generators, (n - 1) as nat, defs) {
            Ok(outputs) => match generator_result(generators[n - 1], defs) {
                Ok(output) => Ok(outputs.push((generators[n - 1].name_text(), output))),
                Err(error) => Err(error),
            },
            Err(error) => Err(error),
        }
    }
}

/// What a run makes of definitions in the order of their declaration: the
/// symbol table is built, the passes run on it in order, the table is
/// frozen, and the generators run on the schema in order. The first
/// failure is the outcome of the run.
pub open spec fn run_result(
    passes: Seq<Pass>,
    generators: Seq<Generator>,
    defs: Seq<TypeDefView>,
) -> Result<CodegenResultView, CodegenErrorView> {
    match table_of(defs) {
        Err(error) => Err(error),
        Ok(defs) => match run_passes(passes, passes.len(), defs) {
            Err(error) => Err(error),
            Ok(table) => match run_generators(generators, generators.len(), table) {
                Err(error) => Err(error),
                Ok(outputs) => Ok(CodegenResultView { schema: table, outputs }),
            },
        },
    }
}

/// What a run makes of a set of modules: what `run_result` makes of all
/// their definitions in order.
pub open spec fn codegen_result(passes: Seq<Pass>, generators: Seq<Generator>, mods: Seq<Module>)
    -> Result<CodegenResultView, CodegenErrorView> {
    run_result(passes, generators, all_items(mods, mods.len()))
}

/// What was read of the file at place `i`: its content, or the message of
/// the error that reading it gave. A file without an entry was not read.
pub open spec fn read_of(texts: Seq<Result<String, String>>, i: int) -> Result<
    Seq<char>,
    Seq<char>,
> {
    if 0 <= i < texts.len() {
        match texts[i] {
            Ok(text) => Ok(text@),
            Err(message) => Err(message@),
        }
    } else {
        Err("no content"@)
    }
}

/// What one file gives: the definitions that its content loads to, or the
/// error of reading it, which names its path.
pub open spec fn file_result(path: Seq<char>, read: Result<Seq<char>, Seq<char>>) -> Result<
    Seq<TypeDefView>,
    CodegenErrorView,
> {
    match read {
        Ok(text) => load_result(path, text),
        Err(message) => Err(CodegenErrorView::Io { path, message }),
    }
}

/// What the first `n` files give, one after the other: all their
/// definitions in order, or the error of the first file that was not read
/// or does not load.
pub open spec fn load_all(
    files: Seq<Seq<char>>,
    texts: Seq<Result<String, String>>,
    n: nat,
) -> Result<Seq<TypeDefView>, CodegenErrorView>
    decreases n,
{
    if n == 0 || n > files.len() {
        Ok(Seq::empty())
    } else {
        match load_all(files, texts, (n - 1) as nat) {
            Ok(defs) => match file_result(files[n - 1], read_of(texts, n - 1)) {
                Ok(items) => Ok(defs + items),
                Err(error) => Err(error),
            },
            Err(error) => Err(error),
        }
    }
}

/// What a run makes of the definition files and of what was read of them:
/// the files are loaded in order, and `run_result` makes the rest of their
/// definitions. The first failure is the outcome of the run.
pub open spec fn generate_result(
    files: Seq<Seq<char>>,
    texts: Seq<Result<String, String>>,
    passes: Seq<Pass>,
    generators: Seq<Generator>,
) -> Result<CodegenResultView, CodegenErrorView> {
    match load_all(files, texts, files.len()) {
        Ok(defs) => run_result(passes, generators, defs),
        Err(error) => Err(error),
    }
}

/// A file that fails ends the loading of all files with its error.
pub proof fn lemma_load_all_fails(
    files: Seq<Seq<char>>,
    texts: Seq<Result<String, String>>,
    n: nat,
    m: nat,
)
    requires
        n <= m <= files.len(),
        load_all(files, texts, n) is Err,
    ensures
        load_all(files, texts, m) == load_all(files, texts, n),
    decreases m,
{
    if n < m {
        lemma_load_all_fails(files, texts, n, (m - 1) as nat);
    }
}

/// The definitions of the first `n` modules are those of any list that
/// begins with the same modules.
pub proof fn lemma_all_items_prefix(a: Seq<Module>, b: Seq<Module>, n: nat)
    requires
        n <= a.len(),
        n <= b.len(),
        forall|k: int| 0 <= k < n ==> a[k] == b[k],
    ensures
        all_items(a, n) == all_items(b, n),
    decreases n,
{
    if n > 0 {
        lemma_all_items_prefix(a, b, (n - 1) as nat);
    }
}

/// There is one first name that is declared a second time.
pub proof fn lemma_first_duplicate(names: Seq<Seq<char>>, j: int)
    requires
        is_first_duplicate(names, j),
    ensures
        first_duplicate_of(names) == Some(j),
{
    let chosen = choose|k: int| is_first_duplicate(names, k);
    assert(is_first_duplicate(names, chosen));
    if chosen < j {
        let i = choose|i: int| 0 <= i < chosen && names[i] == names[chosen];
        assert(names.take(j)[i] == names.take(j)[chosen]);
    }
    if j < chosen {
        let i = choose|i: int| 0 <= i < j && names[i] == names[j];
        assert(names.take(chosen)[i] == names.take(chosen)[j]);
    }
}

/// Names that are distinct hold no duplicate.
pub proof fn lemma_no_duplicate(names: Seq<Seq<char>>)
    requires
        distinct(names),
    ensures
        first_duplicate_of(names) is None,
{
}

/// A pass that fails ends the run of all passes with its error.
pub proof fn lemma_passes_fail(passes: Seq<Pass>, n: nat, m: nat, defs: Seq<TypeDefView>)
    requires
        n <= m <= passes.len(),
        run_passes(passes, n, defs) is Err,
    ensures
        run_passes(passes, m, defs) == run_passes(passes, n, defs),
    decreases m,
{
    if n < m {
        lemma_passes_fail(passes, n, (m - 1) as nat, defs);
    }
}

/// A generator that fails ends the run of all generators with its error.
pub proof fn lemma_generators_fail(
    generators: Seq<Generator>,
    n: nat,
    m: nat,
    defs: Seq<TypeDefView>,
)
    requires
        n <= m <= generators.len(),
        run_generators(generators, n, defs) is Err,
    ensures
        run_generators(generators, m, defs) == run_generators(generators, n, defs),
    decreases m,
{
    if n < m {
        lemma_generators_fail(generators, n, (m - 1) as nat, defs);
    }
}

/// The schema compiler: the definition files to load, the passes to run on
/// the symbol table and the generators to run on the schema.
#[derive(Debug)]
pub struct AstCodegen {
    pub files: Vec<String>,
    pub passes: Vec<Pass>,
    pub builders: Vec<Generator>,
}

impl Default for AstCodegen {
    fn default() -> (codegen: Self)
        ensures
            codegen.files@.len() == 0,
            codegen.passes@.len() == 0,
            codegen.builders@.len() == 0,
    {
        AstCodegen { files: Vec::new(), passes: Vec::new(), builders: Vec::new() }
    }
}

impl AstCodegen {
    /// The same compiler with one more definition file.
    #[must_use]
    pub fn add_file(self, path: &str) -> (codegen: Self)
        ensures
            path_views(codegen.files@) == path_views(self.files@).push(path@),
            codegen.passes == self.passes,
            codegen.builders == self.builders,
    {
        let mut codegen = self;
        let ghost before = path_views(codegen.files@);
        codegen.files.push(String::from_str(path));
        assert(path_views(codegen.files@) =~= before.push(path@));
        codegen
    }

    /// The same compiler with one more pass.
    #[must_use]
    pub fn pass(self, pass: Pass) -> (codegen: Self)
        ensures
            codegen.passes@ == self.passes@.push(pass),
            codegen.files == self.files,
            codegen.builders == self.builders,
    {
        let mut codegen = self;
        codegen.passes.push(pass);
        codegen
    }

    /// The same compiler with one more generator.
    #[must_use]
    pub fn gen(self, generator: Generator) -> (codegen: Self)
        ensures
            codegen.builders@ == self.builders@.push(generator),
            codegen.files == self.files,
            codegen.passes == self.passes,
    {
        let mut codegen = self;
        codegen.builders.push(generator);
        codegen
    }

    /// Runs the passes and the generators on the definitions of `mods`.
    /// The outcome is the one that `codegen_result` states: the schema and
    /// every output, or the first failure and nothing else.
    pub fn generate_from(&self, mods: Vec<Module>) -> (result: Result<
        CodegenResult,
        CodegenError,
    >)
        ensures
            result_view(result) == codegen_result(self.passes@, self.builders@, mods@),
    {
        let ghost all = all_items(mods@, mods.len() as nat);
        let mut ctx = match EarlyCtx::new(mods) {
            Ok(ctx) => {
                proof {
                    lemma_no_duplicate(names_of(all));
                }
                ctx
            },
            Err(error) => {
                proof {
                    let j = choose|j: int|
                        {
                            &&& #[trigger] is_first_duplicate(names_of(all), j)
                            &&& error@ == (CodegenErrorView::DuplicateName {
                                name: names_of(all)[j],
                            })
                        };
                    lemma_first_duplicate(names_of(all), j);
                }
                return Err(error);
            },
        };
        let mut k: usize = 0;
        while k < self.passes.len()
            invariant
                k <= self.passes.len(),
                ctx.wf(),
                table_result(mods@) == Ok::<Seq<TypeDefView>, CodegenErrorView>(all),
                run_passes(self.passes@, k as nat, all) == Ok::<
                    Seq<TypeDefView>,
                    CodegenErrorView,
                >(ctx.defs()),
            decreases self.passes.len() - k,
        {
            let pass = self.passes[k];
            match pass.run(&mut ctx) {
                Ok(()) => {},
                Err(error) => {
                    proof {
                        assert(run_passes(self.passes@, (k + 1) as nat, all) == Err::<
                            Seq<TypeDefView>,
                            CodegenErrorView,
                        >(error@));
                        lemma_passes_fail(
                            self.passes@,
                            (k + 1) as nat,
                            self.passes@.len(),
                            all,
                        );
                    }
                    return Err(error);
                },
            }
            k = k + 1;
        }
        let ghost table = ctx.defs();
        let late = ctx.into_late_ctx();
        let mut outputs: Vec<(&'static str, GeneratorOutput)> = Vec::new();
        assert(output_views(outputs@) =~= Seq::empty());
        let mut g: usize = 0;
        while g < self.builders.len()
            invariant
                g <= self.builders.len(),
                table == views(late.schema.definitions@),
                table_result(mods@) == Ok::<Seq<TypeDefView>, CodegenErrorView>(all),
                run_passes(self.passes@, self.passes@.len(), all) == Ok::<
                    Seq<TypeDefView>,
                    CodegenErrorView,
                >(table),
                run_generators(self.builders@, g as nat, table) == Ok::<
                    Seq<(Seq<char>, GeneratorOutputView)>,
                    CodegenErrorView,
                >(output_views(outputs@)),
            decreases self.builders.len() - g,
        {
            let generator = self.builders[g];
            match generator.run(&late) {
                Ok(output) => {
                    let ghost before = output_views(outputs@);
                    outputs.push((generator.name(), output));
                    assert(output_views(outputs@) =~= before.push(
                        (generator.name_text(), output@),
                    ));
                },
                Err(error) => {
                    proof {
                        assert(run_generators(self.builders@, (g + 1) as nat, table) == Err::<
                            Seq<(Seq<char>, GeneratorOutputView)>,
                            CodegenErrorView,
                        >(error@));
                        lemma_generators_fail(
                            self.builders@,
                            (g + 1) as nat,
                            self.builders@.len(),
                            table,
                        );
                    }
                    return Err(error);
                },
            }
            g = g + 1;
        }
        Ok(CodegenResult { schema: late.schema, outputs })
    }

    /// Loads every definition file from its text and runs the passes and
    /// the generators. `texts` holds, for each file in order, its content
    /// or the message of the error that reading it gave; a file without an
    /// entry counts as not read. The outcome is the one that
    /// `generate_result` states: the first file that was not read or does
    /// not load ends the run with its error, and otherwise the outcome is
    /// that of `generate_from` on the modules that were loaded.
    pub fn generate(&self, texts: &Vec<Result<String, String>>) -> (result: Result<
        CodegenResult,
        CodegenError,
    >)
        ensures
            result_view(result) == generate_result(
                path_views(self.files@),
                texts@,
                self.passes@,
                self.builders@,
            ),
    {
        let ghost files = path_views(self.files@);
        let mut mods: Vec<Module> = Vec::new();
        let mut i: usize = 0;
        while i < self.files.len()
            invariant
                i <= self.files.len(),
                files == path_views(self.files@),
                files.len() == self.files.len(),
                mods.len() == i,
                load_all(files, texts@, i as nat) == Ok::<Seq<TypeDefView>, CodegenErrorView>(
                    all_items(mods@, i as nat),
                ),
            decreases self.files.len() - i,
        {
            let path = self.files[i].clone();
            assert(files[i as int] == path@);
            let module = if i < texts.len() {
                match &texts[i] {
                    Ok(text) => Module::load(path, text.as_str()),
                    Err(message) => Err(CodegenError::Io { path, message: message.clone() }),
                }
            } else {
                Err(CodegenError::Io { path, message: String::from_str("no content") })
            };
            assert(loaded(
                module,
                files[i as int],
                file_result(files[i as int], read_of(texts@, i as int)),
            ));
            match module {
                Ok(module) => {
                    let ghost before = mods@;
                    mods.push(module);
                    proof {
                        lemma_all_items_prefix(before, mods@, i as nat);
                        assert(load_all(files, texts@, (i + 1) as nat) == Ok::<
                            Seq<TypeDefView>,
                            CodegenErrorView,
                        >(all_items(mods@, (i + 1) as nat)));
                    }
                },
                Err(error) => {
                    proof {
                        assert(load_all(files, texts@, (i + 1) as nat) == Err::<
                            Seq<TypeDefView>,
                            CodegenErrorView,
                        >(error@));
                        lemma_load_all_fails(files, texts@, (i + 1) as nat, files.len());
                    }
                    return Err(error);
                },
            }
            i = i + 1;
        }
        self.generate_from(mods)
    }
}

/// Idempotence from the files on: a run is a function of the files, of
/// what was read of them, of the passes and of the generators. Two runs on
/// the same files with the same content end alike, output for output and
/// byte for byte, or with the same error.
pub proof fn lemma_generate_idempotent(
    files: Seq<Seq<char>>,
    texts: Seq<Result<String, String>>,
    passes: Seq<Pass>,
    generators: Seq<Generator>,
    first: Result<CodegenResult, CodegenError>,
    second: Result<CodegenResult, CodegenError>,
)
    requires
        result_view(first) == generate_result(files, texts, passes, generators),
        result_view(second) == generate_result(files, texts, passes, generators),
    ensures
        result_view(first) == result_view(second),
{
}

/// Idempotence: a run is a function of the passes, the generators and the
/// definitions. Two runs on the same definitions end alike, output for
/// output and byte for byte.
pub proof fn lemma_idempotent(
    passes: Seq<Pass>,
    generators: Seq<Generator>,
    mods: Seq<Module>,
    first: Result<CodegenResult, CodegenError>,
    second: Result<CodegenResult, CodegenError>,
)
    requires
        result_view(first) == codegen_result(passes, generators, mods),
        result_view(second) == codegen_result(passes, generators, mods),
    ensures
        result_view(first) == result_view(second),
{
}

/// A reference to a name that no definition and no leaf type has fails
/// the run in the linker: where the linker runs first, the outcome of the
/// run is the error that names the definition, the member and the name,
/// and no output is produced.
pub proof fn lemma_unresolved_fails(
    passes: Seq<Pass>,
    generators: Seq<Generator>,
    mods: Seq<Module>,
    i: int,
    j: int,
)
    requires
        table_result(mods) is Ok,
        passes.len() > 0,
        passes[0] == Pass::Linker,
        first_unlinked(table_result(mods)->Ok_0) == Some((i, j)),
    ensures
        codegen_result(passes, generators, mods) == Err::<CodegenResultView, CodegenErrorView>(
            link_error(
                table_result(mods)->Ok_0[i],
                table_result(mods)->Ok_0[i].members[j],
            ),
        ),
{
    let defs = table_result(mods)->Ok_0;
    assert(run_passes(passes, 0, defs) == Ok::<Seq<TypeDefView>, CodegenErrorView>(defs));
    assert(run_passes(passes, 1, defs) == link_result(defs));
    lemma_passes_fail(passes, 1, passes.len(), defs);
}

/// A family that disagrees fails the run in the layout pass: where the
/// linker and the layout pass run in this order on definitions that link
/// and all have a size, and `j` is the first definition whose layout
/// differs from that of `i`, the first of its family, the outcome of the
/// run is the error that names both and gives both layouts, and no
/// generator has run.
pub proof fn lemma_mismatch_fails(
    generators: Seq<Generator>,
    defs: Seq<TypeDefView>,
    i: int,
    j: int,
)
    requires
        table_of(defs) is Ok,
        link_result(defs) is Ok,
        all_sized(
            layouts(link_result(defs)->Ok_0),
            link_result(defs)->Ok_0.len() as int,
        ),
        is_first_mismatch(link_result(defs)->Ok_0, layouts(link_result(defs)->Ok_0), i, j),
    ensures
        run_result(seq![Pass::Linker, Pass::CalcLayout], generators, defs) == Err::<
            CodegenResultView,
            CodegenErrorView,
        >(mismatch_error(link_result(defs)->Ok_0, layouts(link_result(defs)->Ok_0), i, j)),
{
    let passes = seq![Pass::Linker, Pass::CalcLayout];
    let linked = link_result(defs)->Ok_0;
    let table = layouts(linked);
    lemma_linked_is_closed(defs);
    assert(table_closed(linked, linked.len() as int)) by {
        assert forall|k: int| 0 <= k < linked.len() implies members_closed(
            #[trigger] linked[k],
            linked[k].members.len() as int,
            linked.len(),
        ) by {
            assert(def_closed(linked[k], linked.len()));
        }
    }
    lemma_all_closed(linked);
    let flags = unsized_flags(table);
    assert forall|k: int| 0 <= k < flags.len() implies !flags[k] by {
        assert(is_sized(table[k]));
    }
    lemma_no_flag(flags);
    lemma_first_mismatch_pair(linked, table, i, j);
    assert(layout_result(linked) == Err::<Seq<TypeDefView>, CodegenErrorView>(
        mismatch_error(linked, table, i, j),
    ));
    assert(run_passes(passes, 0, defs) == Ok::<Seq<TypeDefView>, CodegenErrorView>(defs));
    assert(run_passes(passes, 1, defs) == link_result(defs));
    assert(run_passes(passes, 2, defs) == layout_result(linked));
}

} // verus!
