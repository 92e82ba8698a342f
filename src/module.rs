//! The parts of a parsed module that the snapshot and the hook discovery read.
//!
//! Every entity is named by its index in the module's declaration order.

use vstd::prelude::*;

verus! {

/// Index of a linear memory.
pub type Memory = usize;

/// Index of a global variable.
pub type Global = usize;

/// Index of a table.
pub type Table = usize;

/// Index of a function.
pub type Func = usize;

/// Index of a function signature.
pub type Signature = usize;

/// Index of a basic block inside a function body.
pub type Block = usize;

/// Index of a value definition inside a function body.
pub type Value = usize;

/// A WebAssembly value type.
#[derive(Clone, Copy, Debug, PartialEq, Eq, Structural)]
pub enum Type {
    I32,
    I64,
    F32,
    F64,
    V128,
    FuncRef,
    /// A typed function reference: whether it is nullable, and its signature.
    TypedFuncRef(bool, u32),
}

/// Bytes that initialise a memory, starting at `offset`.
#[derive(Clone, Debug)]
pub struct MemorySegment {
    pub offset: usize,
    pub data: Vec<u8>,
}

/// A declared linear memory: its initial size in pages and its segments.
#[derive(Clone, Debug)]
pub struct MemoryData {
    pub initial_pages: usize,
    pub segments: Vec<MemorySegment>,
}

/// A declared global: its value type and, when known, its initial bits.
#[derive(Clone, Debug)]
pub struct GlobalData {
    pub ty: Type,
    pub value: Option<u64>,
}

/// A declared table and its function elements, if it holds functions.
#[derive(Clone, Debug)]
pub struct TableData {
    pub func_elements: Option<Vec<Func>>,
}

/// Parameter and result types of a function.
#[derive(Clone, Debug)]
pub struct SignatureData {
    pub params: Vec<Type>,
    pub returns: Vec<Type>,
}

/// What a value of a function body is defined as.
#[derive(Clone, Copy, Debug, PartialEq, Eq, Structural)]
pub enum ValueDef {
    /// The literal `i32.const value`.
    I32Const(u32),
    /// Any other definition: an operator on other values, a block parameter, ...
    Other,
}

/// A branch target: the block and the values handed to its parameters.
#[derive(Clone, Debug)]
pub struct BlockTarget {
    pub block: Block,
    pub args: Vec<Value>,
}

/// How a basic block ends.
#[derive(Clone, Debug)]
pub enum Terminator {
    /// Return these values from the function.
    Return { values: Vec<Value> },
    /// Jump unconditionally to a block.
    Br { target: BlockTarget },
    /// Any other ending (conditional branch, switch, trap, ...).
    Other,
}

/// A basic block: its parameters (as values) and its terminator.
#[derive(Clone, Debug)]
pub struct BlockData {
    pub params: Vec<Value>,
    pub terminator: Terminator,
}

/// A function body in control-flow form.
#[derive(Clone, Debug)]
pub struct FunctionBody {
    pub entry: Block,
    pub blocks: Vec<BlockData>,
    pub values: Vec<ValueDef>,
}

/// A declared function: its signature and, for a defined one, its body.
#[derive(Clone, Debug)]
pub struct FuncDecl {
    pub sig: Signature,
    pub body: Option<FunctionBody>,
}

/// What an import brings in.
#[derive(Clone, Copy, Debug, PartialEq, Eq, Structural)]
pub enum ImportKind {
    Func(Func),
    Other,
}

/// An import: its namespace, its name and what it brings in.
#[derive(Clone, Debug)]
pub struct Import {
    pub module: String,
    pub name: String,
    pub kind: ImportKind,
}

/// What an export exposes.
#[derive(Clone, Copy, Debug, PartialEq, Eq, Structural)]
pub enum ExportKind {
    Func(Func),
    Other,
}

/// An export: its name and what it exposes.
#[derive(Clone, Debug)]
pub struct Export {
    pub name: String,
    pub kind: ExportKind,
}

/// A parsed module.
#[derive(Clone, Debug)]
pub struct Module {
    pub memories: Vec<MemoryData>,
    pub globals: Vec<GlobalData>,
    pub tables: Vec<TableData>,
    pub funcs: Vec<FuncDecl>,
    pub signatures: Vec<SignatureData>,
    pub imports: Vec<Import>,
    pub exports: Vec<Export>,
}

impl Module {
    /// Every function names an existing signature, and every imported or
    /// exported function exists.
    pub open spec fn wf(&self) -> bool {
        &&& forall|f: int| 0 <= f < self.funcs@.len() ==> (#[trigger] self.funcs@[f]).sig < self.signatures@.len()
        &&& forall|i: int| 0 <= i < self.imports@.len() ==> ((#[trigger] self.imports@[i]).kind matches ImportKind::Func(f) ==> f < self.funcs@.len())
        &&& forall|i: int| 0 <= i < self.exports@.len() ==> ((#[trigger] self.exports@[i]).kind matches ExportKind::Func(f) ==> f < self.funcs@.len())
    }

    /// Whether the module is well formed in the sense of `wf`.
    pub fn is_wf(&self) -> (r: bool)
        ensures
            r == self.wf(),
    {
        let mut f: usize = 0;
        while f < self.funcs.len()
            invariant
                0 <= f <= self.funcs@.len(),
                forall|j: int| 0 <= j < f ==> (#[trigger] self.funcs@[j]).sig < self.signatures@.len(),
            decreases self.funcs@.len() - f,
        {
            if self.funcs[f].sig >= self.signatures.len() {
                return false;
            }
            f = f + 1;
        }
        let mut i: usize = 0;
        while i < self.imports.len()
            invariant
                0 <= i <= self.imports@.len(),
                forall|j: int| 0 <= j < i ==> ((#[trigger] self.imports@[j]).kind matches ImportKind::Func(g) ==> g < self.funcs@.len()),
            decreases self.imports@.len() - i,
        {
            if let ImportKind::Func(g) = self.imports[i].kind {
                if g >= self.funcs.len() {
                    return false;
                }
            }
            i = i + 1;
        }
        let mut i: usize = 0;
        while i < self.exports.len()
            invariant
                0 <= i <= self.exports@.len(),
                forall|j: int| 0 <= j < i ==> ((#[trigger] self.exports@[j]).kind matches ExportKind::Func(g) ==> g < self.funcs@.len()),
            decreases self.exports@.len() - i,
        {
            if let ExportKind::Func(g) = self.exports[i].kind {
                if g >= self.funcs.len() {
                    return false;
                }
            }
            i = i + 1;
        }
        true
    }
}

} // verus!
