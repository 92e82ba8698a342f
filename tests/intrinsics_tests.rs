use wasm_snapshot::intrinsics::{
    constant_return, find_exported_func, find_global_data_by_exported_func,
    find_imported_intrinsic, Intrinsics,
};
use wasm_snapshot::module::{
    BlockData, BlockTarget, Export, ExportKind, FuncDecl, FunctionBody, Import, ImportKind,
    Module, SignatureData, Terminator, Type, ValueDef,
};

fn module_with_sigs(sigs: Vec<(Vec<Type>, Vec<Type>)>) -> Module {
    let n = sigs.len();
    Module {
        memories: vec![],
        globals: vec![],
        tables: vec![],
        funcs: (0..n).map(|i| FuncDecl { sig: i, body: None }).collect(),
        signatures: sigs
            .into_iter()
            .map(|(params, returns)| SignatureData { params, returns })
            .collect(),
        imports: vec![],
        exports: vec![],
    }
}

fn import(ns: &str, name: &str, f: usize) -> Import {
    Import { module: ns.to_string(), name: name.to_string(), kind: ImportKind::Func(f) }
}

#[test]
fn intrinsic_with_exact_signature_is_found() {
    let mut m = module_with_sigs(vec![(vec![Type::I32], vec![Type::I32])]);
    m.imports.push(import("weval", "assume.const.memory", 0));
    let r = find_imported_intrinsic(&m, "assume.const.memory", &[Type::I32], &[Type::I32]);
    assert_eq!(r, Some(0));
    let all = Intrinsics::find(&m);
    assert_eq!(all.assume_const_memory, Some(0));
    assert_eq!(all.assume_const_memory_transitive, None);
    assert_eq!(all.print, None);
}

#[test]
fn intrinsic_with_other_return_arity_is_not_found() {
    let mut m = module_with_sigs(vec![(vec![Type::I32], vec![])]);
    m.imports.push(import("weval", "assume.const.memory", 0));
    assert_eq!(find_imported_intrinsic(&m, "assume.const.memory", &[Type::I32], &[Type::I32]), None);
    assert_eq!(Intrinsics::find(&m).assume_const_memory, None);
}

#[test]
fn intrinsic_from_other_namespace_is_not_found() {
    let mut m = module_with_sigs(vec![(vec![Type::I32], vec![Type::I32])]);
    m.imports.push(import("env", "assume.const.memory", 0));
    assert_eq!(find_imported_intrinsic(&m, "assume.const.memory", &[Type::I32], &[Type::I32]), None);
}

#[test]
fn non_function_import_is_not_found() {
    let mut m = module_with_sigs(vec![]);
    m.imports.push(Import {
        module: "weval".to_string(),
        name: "print".to_string(),
        kind: ImportKind::Other,
    });
    assert_eq!(Intrinsics::find(&m).print, None);
}

#[test]
fn every_hook_is_found_with_its_signature() {
    let table: Vec<(&str, Vec<Type>, Vec<Type>)> = vec![
        ("assume.const.memory", vec![Type::I32], vec![Type::I32]),
        ("assume.const.memory.transitive", vec![Type::I32], vec![Type::I32]),
        ("read.reg", vec![Type::I64], vec![Type::I64]),
        ("write.reg", vec![Type::I64, Type::I64], vec![]),
        ("push.context", vec![Type::I32], vec![]),
        ("pop.context", vec![], vec![]),
        ("update.context", vec![Type::I32], vec![]),
        ("context.bucket", vec![Type::I32], vec![]),
        ("abort.specialization", vec![Type::I32, Type::I32], vec![]),
        ("trace.line", vec![Type::I32], vec![]),
        ("assert.const32", vec![Type::I32, Type::I32], vec![]),
        ("assert.const.memory", vec![Type::I32, Type::I32], vec![]),
        ("specialize.value", vec![Type::I32, Type::I32, Type::I32], vec![Type::I32]),
        ("print", vec![Type::I32, Type::I32, Type::I32], vec![]),
    ];
    let mut m = module_with_sigs(table.iter().map(|(_, p, r)| (p.clone(), r.clone())).collect());
    for (i, (name, _, _)) in table.iter().enumerate() {
        m.imports.push(import("weval", name, i));
    }
    let h = Intrinsics::find(&m);
    let got = vec![
        h.assume_const_memory, h.assume_const_memory_transitive, h.read_reg, h.write_reg,
        h.push_context, h.pop_context, h.update_context, h.context_bucket,
        h.abort_specialization, h.trace_line, h.assert_const32, h.assert_const_memory,
        h.specialize_value, h.print,
    ];
    let want: Vec<Option<usize>> = (0..14).map(Some).collect();
    assert_eq!(got, want);
}

#[test]
fn only_first_import_of_a_name_counts() {
    let mut m = module_with_sigs(vec![(vec![], vec![Type::I32]), (vec![], vec![])]);
    m.imports.push(import("weval", "pop.context", 0));
    m.imports.push(import("weval", "pop.context", 1));
    assert_eq!(Intrinsics::find(&m).pop_context, None);
}

#[test]
fn exported_function_is_found_by_name_and_signature() {
    let mut m = module_with_sigs(vec![(vec![Type::I64], vec![])]);
    m.exports.push(Export { name: "go".to_string(), kind: ExportKind::Func(0) });
    assert_eq!(find_exported_func(&m, "go", &[Type::I64], &[]), Some(0));
    assert_eq!(find_exported_func(&m, "go", &[Type::I32], &[]), None);
    assert_eq!(find_exported_func(&m, "gone", &[Type::I64], &[]), None);
}

fn const_body(terminator: Terminator, extra: Vec<BlockData>, values: Vec<ValueDef>) -> FunctionBody {
    let mut blocks = vec![BlockData { params: vec![], terminator }];
    blocks.extend(extra);
    FunctionBody { entry: 0, blocks, values }
}

fn module_exporting(body: FunctionBody) -> Module {
    let mut m = module_with_sigs(vec![(vec![], vec![Type::I32])]);
    m.funcs[0].body = Some(body);
    m.exports.push(Export { name: "size".to_string(), kind: ExportKind::Func(0) });
    m
}

#[test]
fn direct_literal_return_is_extracted() {
    let body = const_body(Terminator::Return { values: vec![0] }, vec![], vec![ValueDef::I32Const(42)]);
    assert_eq!(constant_return(&body), Some(42));
    assert_eq!(find_global_data_by_exported_func(&module_exporting(body), "size"), Some(42));
}

#[test]
fn branch_then_return_is_extracted() {
    let target = BlockData { params: vec![1], terminator: Terminator::Return { values: vec![1] } };
    let body = const_body(
        Terminator::Br { target: BlockTarget { block: 1, args: vec![0] } },
        vec![target],
        vec![ValueDef::I32Const(42), ValueDef::Other],
    );
    assert_eq!(find_global_data_by_exported_func(&module_exporting(body), "size"), Some(42));
}

#[test]
fn computed_return_gives_none() {
    let body = const_body(Terminator::Return { values: vec![0] }, vec![], vec![ValueDef::Other]);
    assert_eq!(find_global_data_by_exported_func(&module_exporting(body), "size"), None);
}

#[test]
fn branch_to_block_returning_other_value_gives_none() {
    let target = BlockData { params: vec![1], terminator: Terminator::Return { values: vec![2] } };
    let body = const_body(
        Terminator::Br { target: BlockTarget { block: 1, args: vec![0] } },
        vec![target],
        vec![ValueDef::I32Const(42), ValueDef::Other, ValueDef::I32Const(7)],
    );
    assert_eq!(constant_return(&body), None);
}

#[test]
fn other_terminator_gives_none() {
    let body = const_body(Terminator::Other, vec![], vec![]);
    assert_eq!(constant_return(&body), None);
}

#[test]
fn export_with_wrong_signature_gives_none() {
    let body = const_body(Terminator::Return { values: vec![0] }, vec![], vec![ValueDef::I32Const(42)]);
    let mut m = module_exporting(body);
    m.signatures[0].returns = vec![Type::I64];
    assert_eq!(find_global_data_by_exported_func(&m, "size"), None);
}

#[test]
fn export_without_body_gives_none() {
    let mut m = module_with_sigs(vec![(vec![], vec![Type::I32])]);
    m.exports.push(Export { name: "size".to_string(), kind: ExportKind::Func(0) });
    assert_eq!(find_global_data_by_exported_func(&m, "size"), None);
}

#[test]
fn well_formedness_checks_function_references() {
    let mut m = module_with_sigs(vec![(vec![], vec![])]);
    assert!(m.is_wf());
    m.exports.push(Export { name: "x".to_string(), kind: ExportKind::Func(3) });
    assert!(!m.is_wf());
    m.exports.clear();
    m.imports.push(import("weval", "print", 1));
    assert!(!m.is_wf());
    m.imports.clear();
    m.funcs.push(FuncDecl { sig: 5, body: None });
    assert!(!m.is_wf());
}
