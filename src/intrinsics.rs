//! Discovery of the hook functions that a module imports or exports, and of
//! constants that exported functions return.

use vstd::prelude::*;
use vstd::string::StringSliceAdditionalSpecFns;
use crate::module::{
    ExportKind, Export, Func, FunctionBody, Import, ImportKind, Module, Terminator, Type, Value,
    ValueDef,
};

verus! {

/// The import of `name` from the hook namespace.
pub open spec fn is_hook_import(im: Import, name: Seq<char>) -> bool {
    im.module@ == "weval"@ && im.name@ == name
}

/// What the first import of `name` from the hook namespace brings in.
pub open spec fn lookup_import(imports: Seq<Import>, name: Seq<char>) -> Option<ImportKind>
    decreases imports.len(),
{
    if imports.len() == 0 {
        None
    } else if is_hook_import(imports[0], name) {
        Some(imports[0].kind)
    } else {
        lookup_import(imports.drop_first(), name)
    }
}

/// What the first export named `name` exposes.
pub open spec fn lookup_export(exports: Seq<Export>, name: Seq<char>) -> Option<ExportKind>
    decreases exports.len(),
{
    if exports.len() == 0 {
        None
    } else if exports[0].name@ == name {
        Some(exports[0].kind)
    } else {
        lookup_export(exports.drop_first(), name)
    }
}

/// Function `f` takes exactly `ins` and returns exactly `outs`.
pub open spec fn sig_is(module: Module, f: Func, ins: Seq<Type>, outs: Seq<Type>) -> bool {
    let sig = module.signatures@[module.funcs@[f as int].sig as int];
    sig.params@ == ins && sig.returns@ == outs
}

/// The function imported as hook `name`, if its signature is `ins -> outs`.
pub open spec fn imported_intrinsic(module: Module, name: Seq<char>, ins: Seq<Type>, outs: Seq<Type>) -> Option<Func> {
    match lookup_import(module.imports@, name) {
        Some(ImportKind::Func(f)) => if sig_is(module, f, ins, outs) {
            Some(f)
        } else {
            None
        },
        _ => None,
    }
}

/// The function exported as `name`, if its signature is `ins -> outs`.
pub open spec fn exported_func(module: Module, name: Seq<char>, ins: Seq<Type>, outs: Seq<Type>) -> Option<Func> {
    match lookup_export(module.exports@, name) {
        Some(ExportKind::Func(f)) => if sig_is(module, f, ins, outs) {
            Some(f)
        } else {
            None
        },
        _ => None,
    }
}

/// Whether two strings hold the same characters.
fn str_eq(a: &str, b: &str) -> (r: bool)
    ensures
        r == (a@ == b@),
{
    broadcast use vstd::utf8::encode_utf8_decode_utf8;

    let ab = a.as_bytes();
    let bb = b.as_bytes();
    if ab.len() != bb.len() {
        return false;
    }
    let mut i: usize = 0;
    while i < ab.len()
        invariant
            ab@.len() == bb@.len(),
            a@ == b@ ==> ab@ == bb@,
            0 <= i <= ab@.len(),
            forall|j: int| 0 <= j < i ==> ab@[j] == bb@[j],
        decreases ab@.len() - i,
    {
        if ab[i] != bb[i] {
            return false;
        }
        i = i + 1;
    }
    assert(ab@ =~= bb@);
    assert(vstd::utf8::decode_utf8(a.spec_bytes()) == a@);
    assert(vstd::utf8::decode_utf8(b.spec_bytes()) == b@);
    true
}

/// Whether two type lists are equal, element by element.
fn types_eq(a: &[Type], b: &[Type]) -> (r: bool)
    ensures
        r == (a@ == b@),
{
    if a.len() != b.len() {
        return false;
    }
    let mut i: usize = 0;
    while i < a.len()
        invariant
            a@.len() == b@.len(),
            0 <= i <= a@.len(),
            forall|j: int| 0 <= j < i ==> a@[j] == b@[j],
        decreases a@.len() - i,
    {
        if a[i] != b[i] {
            return false;
        }
        i = i + 1;
    }
    assert(a@ =~= b@);
    true
}

/// Whether function `f` takes exactly `in_tys` and returns exactly `out_tys`.
fn sig_matches(module: &Module, f: Func, in_tys: &[Type], out_tys: &[Type]) -> (r: bool)
    requires
        module.wf(),
        f < module.funcs@.len(),
    ensures
        r == sig_is(*module, f, in_tys@, out_tys@),
{
    let sig = &module.signatures[module.funcs[f].sig];
    types_eq(sig.params.as_slice(), in_tys) && types_eq(sig.returns.as_slice(), out_tys)
}

/// The function that the module imports from the hook namespace under
/// `name`, provided its signature is exactly `in_tys -> out_tys`; only the
/// first such import is considered.
pub fn find_imported_intrinsic(module: &Module, name: &str, in_tys: &[Type], out_tys: &[Type]) -> (r: Option<Func>)
    requires
        module.wf(),
    ensures
        r == imported_intrinsic(*module, name@, in_tys@, out_tys@),
        r matches Some(f) ==> f < module.funcs@.len(),
{
    let ghost all = module.imports@;
    let mut i: usize = 0;
    assert(all.subrange(0, all.len() as int) =~= all);
    while i < module.imports.len()
        invariant
            module.wf(),
            all == module.imports@,
            0 <= i <= all.len(),
            lookup_import(all, name@) == lookup_import(all.subrange(i as int, all.len() as int), name@),
        decreases all.len() - i,
    {
        let im = &module.imports[i];
        assert(all.subrange(i as int, all.len() as int).drop_first() =~= all.subrange(i + 1, all.len() as int));
        if str_eq(im.module.as_str(), "weval") && str_eq(im.name.as_str(), name) {
            return match im.kind {
                ImportKind::Func(f) => if sig_matches(module, f, in_tys, out_tys) {
                    Some(f)
                } else {
                    None
                },
                ImportKind::Other => None,
            };
        }
        i = i + 1;
    }
    None
}

/// The function that the module exports under `name`, provided its signature
/// is exactly `in_tys -> out_tys`; only the first such export is considered.
pub fn find_exported_func(module: &Module, name: &str, in_tys: &[Type], out_tys: &[Type]) -> (r: Option<Func>)
    requires
        module.wf(),
    ensures
        r == exported_func(*module, name@, in_tys@, out_tys@),
        r matches Some(f) ==> f < module.funcs@.len(),
{
    let ghost all = module.exports@;
    let mut i: usize = 0;
    assert(all.subrange(0, all.len() as int) =~= all);
    while i < module.exports.len()
        invariant
            module.wf(),
            all == module.exports@,
            0 <= i <= all.len(),
            lookup_export(all, name@) == lookup_export(all.subrange(i as int, all.len() as int), name@),
        decreases all.len() - i,
    {
        let ex = &module.exports[i];
        assert(all.subrange(i as int, all.len() as int).drop_first() =~= all.subrange(i + 1, all.len() as int));
        if str_eq(ex.name.as_str(), name) {
            return match ex.kind {
                ExportKind::Func(f) => if sig_matches(module, f, in_tys, out_tys) {
                    Some(f)
                } else {
                    None
                },
                ExportKind::Other => None,
            };
        }
        i = i + 1;
    }
    None
}

/// The literal `i32` that value `v` is defined as, if it is one.
pub open spec fn const_i32(body: FunctionBody, v: Value) -> Option<u32> {
    if v < body.values@.len() {
        match body.values@[v as int] {
            ValueDef::I32Const(c) => Some(c),
            ValueDef::Other => None,
        }
    } else {
        None
    }
}

/// Block `b` ends by returning exactly its first parameter.
pub open spec fn returns_own_param(body: FunctionBody, b: int) -> bool {
    let blk = body.blocks@[b];
    match blk.terminator {
        Terminator::Return { values } => values@.len() == 1 && blk.params@.len() >= 1 && values@[0] == blk.params@[0],
        _ => false,
    }
}

/// The literal that the body surely returns: either the entry block returns
/// one literal, or it branches with one literal argument to a block that
/// returns that parameter.
pub open spec fn returned_const(body: FunctionBody) -> Option<u32> {
    if body.entry >= body.blocks@.len() {
        None
    } else {
        match body.blocks@[body.entry as int].terminator {
            Terminator::Return { values } => if values@.len() == 1 {
                const_i32(body, values@[0])
            } else {
                None
            },
            Terminator::Br { target } => if target.args@.len() == 1 && target.block < body.blocks@.len()
                && returns_own_param(body, target.block as int) {
                const_i32(body, target.args@[0])
            } else {
                None
            },
            Terminator::Other => None,
        }
    }
}

/// The literal that `v` is defined as, if it is an `i32` constant.
fn value_const(body: &FunctionBody, v: Value) -> (r: Option<u32>)
    ensures
        r == const_i32(*body, v),
{
    if v < body.values.len() {
        match body.values[v] {
            ValueDef::I32Const(c) => Some(c),
            ValueDef::Other => None,
        }
    } else {
        None
    }
}

/// The literal that a function body returns unconditionally, recognised in
/// two shapes: a direct return of a literal, and a branch carrying one literal
/// to a block that returns its parameter. Any other shape, and any shape that
/// names a missing block or value, gives none.
pub fn constant_return(body: &FunctionBody) -> (r: Option<u32>)
    ensures
        r == returned_const(*body),
{
    if body.entry >= body.blocks.len() {
        return None;
    }
    match &body.blocks[body.entry].terminator {
        Terminator::Return { values } => {
            if values.len() == 1 {
                value_const(body, values[0])
            } else {
                None
            }
        },
        Terminator::Br { target } => {
            if target.args.len() != 1 || target.block >= body.blocks.len() {
                return None;
            }
            let val = match value_const(body, target.args[0]) {
                Some(c) => c,
                None => return None,
            };
            let blk = &body.blocks[target.block];
            match &blk.terminator {
                Terminator::Return { values } => {
                    if values.len() == 1 && blk.params.len() >= 1 && values[0] == blk.params[0] {
                        Some(val)
                    } else {
                        None
                    }
                },
                _ => None,
            }
        },
        Terminator::Other => None,
    }
}

/// The constant that the function exported as `name` returns, where that
/// function takes nothing, returns one `i32`, has a body, and the body
/// returns a literal in a shape that `constant_return` recognises.
pub fn find_global_data_by_exported_func(module: &Module, name: &str) -> (r: Option<u32>)
    requires
        module.wf(),
    ensures
        r == match exported_func(*module, name@, Seq::empty(), seq![Type::I32]) {
            Some(f) => match module.funcs@[f as int].body {
                Some(body) => returned_const(body),
                None => None,
            },
            None => None,
        },
{
    let ins: Vec<Type> = Vec::new();
    let mut outs: Vec<Type> = Vec::new();
    outs.push(Type::I32);
    assert(ins@ =~= Seq::<Type>::empty());
    assert(outs@ =~= seq![Type::I32]);
    let f = match find_exported_func(module, name, ins.as_slice(), outs.as_slice()) {
        Some(f) => f,
        None => return None,
    };
    match &module.funcs[f].body {
        Some(body) => constant_return(body),
        None => None,
    }
}


/// Looks up hook `name` with the signature `ins -> outs`.
fn find_hook(module: &Module, name: &str, ins: Vec<Type>, outs: Vec<Type>) -> (r: Option<Func>)
    requires
        module.wf(),
    ensures
        r == imported_intrinsic(*module, name@, ins@, outs@),
{
    find_imported_intrinsic(module, name, ins.as_slice(), outs.as_slice())
}

/// The hook functions that a module imports, one slot per hook.
#[derive(Clone, Debug)]
pub struct Intrinsics {
    pub assume_const_memory: Option<Func>,
    pub assume_const_memory_transitive: Option<Func>,
    pub read_reg: Option<Func>,
    pub write_reg: Option<Func>,
    pub push_context: Option<Func>,
    pub pop_context: Option<Func>,
    pub update_context: Option<Func>,
    pub context_bucket: Option<Func>,
    pub abort_specialization: Option<Func>,
    pub trace_line: Option<Func>,
    pub assert_const32: Option<Func>,
    pub assert_const_memory: Option<Func>,
    pub specialize_value: Option<Func>,
    pub print: Option<Func>,
}

impl Intrinsics {
    /// Looks up every hook among the module's imports, each with its fixed
    /// signature.
    pub fn find(module: &Module) -> (r: Intrinsics)
        requires
            module.wf(),
        ensures
            r.assume_const_memory == imported_intrinsic(*module, "assume.const.memory"@, seq![Type::I32], seq![Type::I32]),
            r.assume_const_memory_transitive == imported_intrinsic(*module, "assume.const.memory.transitive"@, seq![Type::I32], seq![Type::I32]),
            r.read_reg == imported_intrinsic(*module, "read.reg"@, seq![Type::I64], seq![Type::I64]),
            r.write_reg == imported_intrinsic(*module, "write.reg"@, seq![Type::I64, Type::I64], seq![]),
            r.push_context == imported_intrinsic(*module, "push.context"@, seq![Type::I32], seq![]),
            r.pop_context == imported_intrinsic(*module, "pop.context"@, seq![], seq![]),
            r.update_context == imported_intrinsic(*module, "update.context"@, seq![Type::I32], seq![]),
            r.context_bucket == imported_intrinsic(*module, "context.bucket"@, seq![Type::I32], seq![]),
            r.abort_specialization == imported_intrinsic(*module, "abort.specialization"@, seq![Type::I32, Type::I32], seq![]),
            r.trace_line == imported_intrinsic(*module, "trace.line"@, seq![Type::I32], seq![]),
            r.assert_const32 == imported_intrinsic(*module, "assert.const32"@, seq![Type::I32, Type::I32], seq![]),
            r.assert_const_memory == imported_intrinsic(*module, "assert.const.memory"@, seq![Type::I32, Type::I32], seq![]),
            r.specialize_value == imported_intrinsic(*module, "specialize.value"@, seq![Type::I32, Type::I32, Type::I32], seq![Type::I32]),
            r.print == imported_intrinsic(*module, "print"@, seq![Type::I32, Type::I32, Type::I32], seq![]),
    {
        let ins = vec![Type::I32];
        let outs = vec![Type::I32];
        assert(ins@ =~= seq![Type::I32]);
        assert(outs@ =~= seq![Type::I32]);
        let assume_const_memory = find_hook(module, "assume.const.memory", ins, outs);
        let ins = vec![Type::I32];
        let outs = vec![Type::I32];
        assert(ins@ =~= seq![Type::I32]);
        assert(outs@ =~= seq![Type::I32]);
        let assume_const_memory_transitive = find_hook(module, "assume.const.memory.transitive", ins, outs);
        let ins = vec![Type::I64];
        let outs = vec![Type::I64];
        assert(ins@ =~= seq![Type::I64]);
        assert(outs@ =~= seq![Type::I64]);
        let read_reg = find_hook(module, "read.reg", ins, outs);
        let ins = vec![Type::I64, Type::I64];
        let outs = vec![];
        assert(ins@ =~= seq![Type::I64, Type::I64]);
        assert(outs@ =~= seq![]);
        let write_reg = find_hook(module, "write.reg", ins, outs);
        let ins = vec![Type::I32];
        let outs = vec![];
        assert(ins@ =~= seq![Type::I32]);
        assert(outs@ =~= seq![]);
        let push_context = find_hook(module, "push.context", ins, outs);
        let ins = vec![];
        let outs = vec![];
        assert(ins@ =~= seq![]);
        assert(outs@ =~= seq![]);
        let pop_context = find_hook(module, "pop.context", ins, outs);
        let ins = vec![Type::I32];
        let outs = vec![];
        assert(ins@ =~= seq![Type::I32]);
        assert(outs@ =~= seq![]);
        let update_context = find_hook(module, "update.context", ins, outs);
        let ins = vec![Type::I32];
        let outs = vec![];
        assert(ins@ =~= seq![Type::I32]);
        assert(outs@ =~= seq![]);
        let context_bucket = find_hook(module, "context.bucket", ins, outs);
        let ins = vec![Type::I32, Type::I32];
        let outs = vec![];
        assert(ins@ =~= seq![Type::I32, Type::I32]);
        assert(outs@ =~= seq![]);
        let abort_specialization = find_hook(module, "abort.specialization", ins, outs);
        let ins = vec![Type::I32];
        let outs = vec![];
        assert(ins@ =~= seq![Type::I32]);
        assert(outs@ =~= seq![]);
        let trace_line = find_hook(module, "trace.line", ins, outs);
        let ins = vec![Type::I32, Type::I32];
        let outs = vec![];
        assert(ins@ =~= seq![Type::I32, Type::I32]);
        assert(outs@ =~= seq![]);
        let assert_const32 = find_hook(module, "assert.const32", ins, outs);
        let ins = vec![Type::I32, Type::I32];
        let outs = vec![];
        assert(ins@ =~= seq![Type::I32, Type::I32]);
        assert(outs@ =~= seq![]);
        let assert_const_memory = find_hook(module, "assert.const.memory", ins, outs);
        let ins = vec![Type::I32, Type::I32, Type::I32];
        let outs = vec![Type::I32];
        assert(ins@ =~= seq![Type::I32, Type::I32, Type::I32]);
        assert(outs@ =~= seq![Type::I32]);
        let specialize_value = find_hook(module, "specialize.value", ins, outs);
        let ins = vec![Type::I32, Type::I32, Type::I32];
        let outs = vec![];
        assert(ins@ =~= seq![Type::I32, Type::I32, Type::I32]);
        assert(outs@ =~= seq![]);
        let print = find_hook(module, "print", ins, outs);
        Intrinsics {
            assume_const_memory,
            assume_const_memory_transitive,
            read_reg,
            write_reg,
            push_context,
            pop_context,
            update_context,
            context_bucket,
            abort_specialization,
            trace_line,
            assert_const32,
            assert_const_memory,
            specialize_value,
            print,
        }
    }
}

} // verus!
