//! Blocks and functions, their verification, and the builders that append
//! nodes to them.
use vstd::prelude::*;
use crate::ir::nodes::{FunctionType, IrNode, IrNodeView, VerifyError, VerifyErrorView};
use crate::ir::types::{TypeMetadata, Var, VarView, vars_view};
use crate::text::{decimal, push_decimal};

verus! {

/// How a symbol is seen from other object files.
#[derive(Debug, Clone, Copy, PartialEq, Eq, Hash, Structural)]
pub enum Linkage {
    /// Defined elsewhere.
    Extern,
    /// Seen inside its object file only.
    Internal,
    /// Defined here unless another definition is found.
    Weak,
}

/// The name of the variable with a number: a percent sign and the number
/// in decimal.
pub open spec fn var_name(n: nat) -> Seq<char> {
    seq!['%'] + decimal(n)
}

/// A block: a named sequence of nodes.
#[derive(Debug, PartialEq, Eq)]
pub struct Block {
    /// The name of the block.
    pub name: String,
    /// The nodes of the block, in order.
    pub nodes: Vec<IrNode>,
    /// The number of the next variable that is made in the block.
    pub varCount: usize,
}

/// What a block denotes.
pub struct BlockView {
    pub name: Seq<char>,
    pub nodes: Seq<IrNodeView>,
    pub var_count: usize,
}

/// What a list of nodes denotes.
pub open spec fn nodes_view(s: Seq<IrNode>) -> Seq<IrNodeView> {
    s.map_values(|n: IrNode| n@)
}

impl View for Block {
    type V = BlockView;

    open spec fn view(&self) -> BlockView {
        BlockView { name: self.name@, nodes: nodes_view(self.nodes@), var_count: self.varCount }
    }
}

/// What a list of blocks denotes.
pub open spec fn blocks_view(s: Seq<Block>) -> Seq<BlockView> {
    s.map_values(|b: Block| b@)
}

/// The error of the first node that does not verify, if there is one.
pub open spec fn first_node_error(nodes: Seq<IrNodeView>, ret: TypeMetadata) -> Option<
    VerifyErrorView,
>
    decreases nodes.len(),
{
    if nodes.len() == 0 {
        None
    } else {
        match first_node_error(nodes.drop_last(), ret) {
            Some(e) => Some(e),
            None => nodes.last().verify_error(ret),
        }
    }
}

/// Whether the terminator of a block is where it belongs: the last node is
/// one, and no node in front of it is.
pub open spec fn terminator_in_place(nodes: Seq<IrNodeView>) -> bool {
    &&& nodes.len() > 0
    &&& nodes.last().is_terminator()
    &&& forall|i: int| 0 <= i < nodes.len() - 1 ==> !(#[trigger] nodes[i]).is_terminator()
}

impl BlockView {
    /// The error that verification finds in the block, if it finds one:
    /// the error of the first node that does not verify, else a misplaced
    /// terminator.
    pub open spec fn verify_error(self, ret: TypeMetadata) -> Option<VerifyErrorView> {
        match first_node_error(self.nodes, ret) {
            Some(e) => Some(e),
            None => if terminator_in_place(self.nodes) {
                None
            } else {
                Some(VerifyErrorView::TerminatorMisplaced)
            },
        }
    }

    /// The block with one more node at its end.
    pub open spec fn with_node(self, node: IrNodeView) -> BlockView {
        BlockView { nodes: self.nodes.push(node), ..self }
    }
}

impl Clone for Block {
    fn clone(&self) -> (r: Self)
        ensures
            r@ == self@,
    {
        let mut nodes: Vec<IrNode> = Vec::new();
        let mut i: usize = 0;
        while i < self.nodes.len()
            invariant
                i <= self.nodes@.len(),
                nodes_view(nodes@) == nodes_view(self.nodes@).take(i as int),
            decreases self.nodes@.len() - i,
        {
            let node = self.nodes[i].clone();
            let ghost before = nodes_view(nodes@);
            nodes.push(node);
            assert(nodes_view(nodes@) =~= before.push(node@));
            assert(before.push(node@) =~= nodes_view(self.nodes@).take(i + 1));
            i += 1;
        }
        assert(nodes_view(self.nodes@).take(self.nodes@.len() as int) =~= nodes_view(self.nodes@));
        Block { name: self.name.clone(), nodes, varCount: self.varCount }
    }
}

impl Block {
    /// An empty block whose variables are numbered from `first_var` on.
    pub fn new(name: String, first_var: usize) -> (r: Self)
        ensures
            r@ == (BlockView { name: name@, nodes: Seq::empty(), var_count: first_var }),
    {
        let r = Block { name, nodes: Vec::new(), varCount: first_var };
        assert(r@.nodes =~= Seq::empty());
        r
    }

    /// Adds a node to the end of the block
    pub fn push_ir(&mut self, node: IrNode)
        ensures
            final(self)@ == old(self)@.with_node(node@),
    {
        self.nodes.push(node);
        assert(nodes_view(self.nodes@) =~= nodes_view(old(self).nodes@).push(node@));
    }

    /// Requests a new variable name
    pub fn reqVarName(&mut self) -> (r: String)
        requires
            old(self).varCount < usize::MAX,
        ensures
            r@ == var_name(old(self).varCount as nat),
            final(self)@ == (BlockView { var_count: (old(self).varCount + 1) as usize,
                ..old(self)@ }),
    {
        let mut name = String::new();
        proof {
            reveal_strlit("%");
        }
        name.append("%");
        push_decimal(&mut name, self.varCount as u64);
        assert(name@ =~= var_name(self.varCount as nat));
        self.varCount = self.varCount + 1;
        name
    }

    /// Verifies the block inside a function of the given type: each node
    /// verifies, the last node ends the block and no other node does.
    pub fn verify(&self, ty: &FunctionType) -> (r: Result<(), VerifyError>)
        ensures
            match r {
                Ok(()) => self@.verify_error(ty.ret) is None,
                Err(e) => self@.verify_error(ty.ret) == Some(e@),
            },
    {
        let ghost nodes = nodes_view(self.nodes@);
        let n = self.nodes.len();
        let mut i: usize = 0;
        while i < n
            invariant
                i <= n,
                n == self.nodes@.len(),
                nodes == nodes_view(self.nodes@),
                first_node_error(nodes.take(i as int), ty.ret) is None,
            decreases n - i,
        {
            proof {
                assert(nodes.take(i + 1).drop_last() =~= nodes.take(i as int));
                assert(nodes.take(i + 1).last() == self.nodes@[i as int]@);
            }
            match self.nodes[i].verify(ty) {
                Ok(()) => {},
                Err(e) => {
                    proof {
                        lemma_node_error_stays(nodes, i + 1, ty.ret);
                    }
                    return Err(e);
                },
            }
            i += 1;
        }
        proof {
            assert(nodes.take(n as int) =~= nodes);
        }
        if n == 0 {
            return Err(VerifyError::TerminatorMisplaced);
        }
        assert(nodes.last() == self.nodes@[n - 1]@);
        if !self.nodes[n - 1].is_terminator() {
            return Err(VerifyError::TerminatorMisplaced);
        }
        let mut j: usize = 0;
        while j < n - 1
            invariant
                j <= n - 1,
                n == self.nodes@.len(),
                nodes == nodes_view(self.nodes@),
                first_node_error(nodes, ty.ret) is None,
                nodes.last().is_terminator(),
                forall|k: int| 0 <= k < j ==> !(#[trigger] nodes[k]).is_terminator(),
            decreases n - 1 - j,
        {
            assert(nodes[j as int] == self.nodes@[j as int]@);
            if self.nodes[j].is_terminator() {
                assert(nodes[j as int].is_terminator());
                assert(!terminator_in_place(nodes));
                return Err(VerifyError::TerminatorMisplaced);
            }
            j += 1;
        }
        Ok(())
    }
}

/// Once a node of a prefix does not verify, the first error of the whole
/// list is that of the prefix.
pub proof fn lemma_node_error_stays(nodes: Seq<IrNodeView>, n: int, ret: TypeMetadata)
    requires
        0 <= n <= nodes.len(),
        first_node_error(nodes.take(n), ret) is Some,
    ensures
        first_node_error(nodes, ret) == first_node_error(nodes.take(n), ret),
    decreases nodes.len(),
{
    if n == nodes.len() {
        assert(nodes.take(n) =~= nodes);
    } else {
        assert(nodes.drop_last().take(n) =~= nodes.take(n));
        lemma_node_error_stays(nodes.drop_last(), n, ret);
    }
}

/// A function: its name, its type, and its blocks, of which the first is
/// the entry.
#[derive(Debug, PartialEq, Eq)]
pub struct Function {
    /// The name of the function.
    pub name: String,
    /// The type of the function.
    pub ty: FunctionType,
    /// The blocks of the function.
    pub blocks: Vec<Block>,
    /// How the function is seen from other object files.
    pub linkage: Linkage,
}

/// What a function denotes.
pub struct FunctionView {
    pub name: Seq<char>,
    pub args: Seq<TypeMetadata>,
    pub ret: TypeMetadata,
    pub blocks: Seq<BlockView>,
    pub linkage: Linkage,
}

impl View for Function {
    type V = FunctionView;

    open spec fn view(&self) -> FunctionView {
        FunctionView {
            name: self.name@,
            args: self.ty.args@,
            ret: self.ty.ret,
            blocks: blocks_view(self.blocks@),
            linkage: self.linkage,
        }
    }
}

/// The variable that holds an argument: it is named by the position of the
/// argument.
pub open spec fn arg_var(args: Seq<TypeMetadata>, i: int) -> VarView {
    VarView { name: var_name(i as nat), ty: args[i] }
}

/// The variables that hold the arguments of a function.
pub open spec fn arg_vars(args: Seq<TypeMetadata>) -> Seq<VarView> {
    Seq::new(args.len(), |i: int| arg_var(args, i))
}

/// The first variable that a node reads before anything defines it:
/// `defined` holds what is defined in front of the nodes.
pub open spec fn first_undefined(defined: Seq<VarView>, nodes: Seq<IrNodeView>) -> Option<VarView>
    decreases nodes.len(),
{
    if nodes.len() == 0 {
        None
    } else {
        match first_missing(defined, nodes[0].inputs()) {
            Some(v) => Some(v),
            None => first_undefined(defined_after(defined, nodes[0]), nodes.drop_first()),
        }
    }
}

/// The first variable of a list that is not among the defined ones.
pub open spec fn first_missing(defined: Seq<VarView>, vars: Seq<VarView>) -> Option<VarView>
    decreases vars.len(),
{
    if vars.len() == 0 {
        None
    } else if !defined.contains(vars[0]) {
        Some(vars[0])
    } else {
        first_missing(defined, vars.drop_first())
    }
}

/// What is defined behind a node: what was defined in front of it, and its
/// output.
pub open spec fn defined_after(defined: Seq<VarView>, node: IrNodeView) -> Seq<VarView> {
    match node.output() {
        Some(out) => defined.push(out),
        None => defined,
    }
}

/// What is defined behind a list of nodes.
pub open spec fn defined_after_all(defined: Seq<VarView>, nodes: Seq<IrNodeView>) -> Seq<VarView>
    decreases nodes.len(),
{
    if nodes.len() == 0 {
        defined
    } else {
        defined_after_all(defined_after(defined, nodes[0]), nodes.drop_first())
    }
}

/// The first error in a list of blocks, taken in order, if there is one.
/// In each block a node that does not verify or a misplaced terminator
/// comes before a variable that is read but not defined; what one block
/// defines is defined in the blocks behind it.
pub open spec fn first_block_error(
    defined: Seq<VarView>,
    blocks: Seq<BlockView>,
    ret: TypeMetadata,
) -> Option<VerifyErrorView>
    decreases blocks.len(),
{
    if blocks.len() == 0 {
        None
    } else {
        match blocks[0].verify_error(ret) {
            Some(e) => Some(e),
            None => match first_undefined(defined, blocks[0].nodes) {
                Some(v) => Some(VerifyErrorView::UseOfUndefined(v)),
                None => first_block_error(
                    defined_after_all(defined, blocks[0].nodes),
                    blocks.drop_first(),
                    ret,
                ),
            },
        }
    }
}

impl FunctionView {
    /// The error that verification finds in the function, if it finds one.
    pub open spec fn verify_error(self) -> Option<VerifyErrorView> {
        first_block_error(arg_vars(self.args), self.blocks, self.ret)
    }
}

fn holds(defined: &Vec<Var>, var: &Var) -> (r: bool)
    ensures
        r == vars_view(defined@).contains(var@),
{
    let mut i: usize = 0;
    while i < defined.len()
        invariant
            i <= defined@.len(),
            forall|j: int| 0 <= j < i ==> vars_view(defined@)[j] != var@,
        decreases defined@.len() - i,
    {
        if defined[i] == *var {
            assert(vars_view(defined@)[i as int] == var@);
            return true;
        }
        i += 1;
    }
    false
}

fn find_missing(defined: &Vec<Var>, vars: &Vec<Var>) -> (r: Option<Var>)
    ensures
        match r {
            Some(v) => first_missing(vars_view(defined@), vars_view(vars@)) == Some(v@),
            None => first_missing(vars_view(defined@), vars_view(vars@)) is None,
        },
{
    let ghost all = vars_view(vars@);
    assert(all.skip(0) =~= all);
    let mut i: usize = 0;
    while i < vars.len()
        invariant
            i <= vars@.len(),
            all == vars_view(vars@),
            first_missing(vars_view(defined@), all) == first_missing(
                vars_view(defined@),
                all.skip(i as int),
            ),
        decreases vars@.len() - i,
    {
        proof {
            assert(all.skip(i as int)[0] == vars@[i as int]@);
            assert(all.skip(i as int).drop_first() =~= all.skip(i + 1));
        }
        if !holds(defined, &vars[i]) {
            return Some(vars[i].clone());
        }
        i += 1;
    }
    proof {
        assert(all.skip(vars@.len() as int) =~= Seq::<VarView>::empty());
    }
    None
}

/// Checks the nodes of a block for variables that are read before they
/// are defined, and adds what the block defines to `defined`.
fn scan_block(defined: &mut Vec<Var>, nodes: &Vec<IrNode>) -> (r: Option<Var>)
    ensures
        match r {
            Some(v) => first_undefined(vars_view(old(defined)@), nodes_view(nodes@)) == Some(v@),
            None => first_undefined(vars_view(old(defined)@), nodes_view(nodes@)) is None
                && vars_view(final(defined)@) == defined_after_all(
                vars_view(old(defined)@),
                nodes_view(nodes@),
            ),
        },
{
    let ghost all = nodes_view(nodes@);
    let ghost start = vars_view(defined@);
    assert(all.skip(0) =~= all);
    let mut i: usize = 0;
    while i < nodes.len()
        invariant
            i <= nodes@.len(),
            all == nodes_view(nodes@),
            start == vars_view(old(defined)@),
            first_undefined(start, all) == first_undefined(vars_view(defined@), all.skip(i as int)),
            defined_after_all(start, all) == defined_after_all(
                vars_view(defined@),
                all.skip(i as int),
            ),
        decreases nodes@.len() - i,
    {
        proof {
            assert(all.skip(i as int)[0] == nodes@[i as int]@);
            assert(all.skip(i as int).drop_first() =~= all.skip(i + 1));
        }
        let inputs = nodes[i].inputs();
        let ghost rest = all.skip(i as int);
        match find_missing(defined, &inputs) {
            Some(v) => {
                assert(first_missing(vars_view(defined@), rest[0].inputs()) == Some(v@));
                assert(first_undefined(vars_view(defined@), rest) == Some(v@));
                return Some(v);
            },
            None => {},
        }
        match nodes[i].output() {
            Some(out) => {
                let ghost before = vars_view(defined@);
                defined.push(out);
                assert(vars_view(defined@) =~= before.push(out@));
            },
            None => {},
        }
        i += 1;
    }
    proof {
        assert(all.skip(nodes@.len() as int) =~= Seq::<IrNodeView>::empty());
    }
    None
}

impl Function {
    /// Creates a new function
    pub fn new(name: String, ty: FunctionType) -> (r: Self)
        ensures
            r@ == (FunctionView {
                name: name@,
                args: ty.args@,
                ret: ty.ret,
                blocks: Seq::empty(),
                linkage: Linkage::Internal,
            }),
    {
        let r = Function { name, ty, blocks: Vec::new(), linkage: Linkage::Internal };
        assert(r@.blocks =~= Seq::empty());
        r
    }

    /// The number from which the variables of a new block are counted: the
    /// number of arguments for the first block, and where the last block
    /// stopped for every other.
    pub open spec fn next_var(self) -> usize {
        if self.blocks@.len() == 0 {
            self.ty.args@.len() as usize
        } else {
            self.blocks@.last().varCount
        }
    }

    /// Adds a new block to the function
    pub fn addBlock(&mut self, name: String)
        ensures
            final(self)@ == (FunctionView {
                blocks: old(self)@.blocks.push(
                    BlockView { name: name@, nodes: Seq::empty(), var_count: old(self).next_var() },
                ),
                ..old(self)@
            }),
    {
        let first = if self.blocks.len() == 0 {
            self.ty.args.len()
        } else {
            self.blocks[self.blocks.len() - 1].varCount
        };
        let block = Block::new(name, first);
        self.blocks.push(block);
        assert(blocks_view(self.blocks@) =~= blocks_view(old(self).blocks@).push(block@));
    }

    /// Returns the variable that holds the argument at a position
    pub fn arg(&self, i: usize) -> (r: Var)
        requires
            i < self.ty.args@.len(),
        ensures
            r@ == arg_var(self.ty.args@, i as int),
    {
        let mut name = String::new();
        proof {
            reveal_strlit("%");
        }
        name.append("%");
        push_decimal(&mut name, i as u64);
        assert(name@ =~= var_name(i as nat));
        Var { name, ty: self.ty.args[i] }
    }

    /// Verifies the function: every block verifies, and every variable
    /// that a node reads is an argument or the output of a node in front
    /// of it.
    pub fn verify(&self) -> (r: Result<(), VerifyError>)
        ensures
            match r {
                Ok(()) => self@.verify_error() is None,
                Err(e) => self@.verify_error() == Some(e@),
            },
    {
        let mut defined: Vec<Var> = Vec::new();
        let mut a: usize = 0;
        while a < self.ty.args.len()
            invariant
                a <= self.ty.args@.len(),
                vars_view(defined@) == arg_vars(self.ty.args@).take(a as int),
            decreases self.ty.args@.len() - a,
        {
            let v = self.arg(a);
            let ghost before = vars_view(defined@);
            defined.push(v);
            assert(vars_view(defined@) =~= before.push(v@));
            assert(before.push(v@) =~= arg_vars(self.ty.args@).take(a + 1));
            a += 1;
        }
        proof {
            assert(arg_vars(self.ty.args@).take(self.ty.args@.len() as int) =~= arg_vars(
                self.ty.args@,
            ));
        }
        let ghost all = blocks_view(self.blocks@);
        assert(all.skip(0) =~= all);
        let mut i: usize = 0;
        while i < self.blocks.len()
            invariant
                i <= self.blocks@.len(),
                all == blocks_view(self.blocks@),
                self@.verify_error() == first_block_error(
                    vars_view(defined@),
                    all.skip(i as int),
                    self.ty.ret,
                ),
            decreases self.blocks@.len() - i,
        {
            proof {
                assert(all.skip(i as int)[0] == self.blocks@[i as int]@);
                assert(all.skip(i as int).drop_first() =~= all.skip(i + 1));
            }
            self.blocks[i].verify(&self.ty)?;
            match scan_block(&mut defined, &self.blocks[i].nodes) {
                Some(v) => {
                    return Err(VerifyError::UseOfUndefined(v));
                },
                None => {},
            }
            i += 1;
        }
        proof {
            assert(all.skip(self.blocks@.len() as int) =~= Seq::<BlockView>::empty());
        }
        Ok(())
    }
}

} // verus!
