//! Builders: they append nodes to the block that is being written.
use vstd::prelude::*;
use crate::ir::func::{Block, BlockView, Function, FunctionView, blocks_view, var_name};
use crate::ir::nodes::{IrNode, IrNodeView};
use crate::ir::types::{Type, TypeMetadata, Var, VarView};

verus! {

/// Writes nodes into one of its blocks, the current block.
#[derive(Debug, PartialEq, Eq)]
pub struct IRBuilder {
    /// The blocks that the builder writes.
    pub blocks: Vec<Block>,
    /// The position of the current block.
    pub curr: usize,
}

impl IRBuilder {
    /// Whether the builder has a current block.
    pub open spec fn has_current(self) -> bool {
        self.curr < self.blocks@.len()
    }

    /// The blocks of the builder after a node was appended to the current
    /// block.
    pub open spec fn with_node(self, node: IrNodeView) -> Seq<BlockView> {
        blocks_view(self.blocks@).update(
            self.curr as int,
            blocks_view(self.blocks@)[self.curr as int].with_node(node),
        )
    }

    /// Creates an new ir builder
    pub fn new() -> (r: Self)
        ensures
            r.blocks@.len() == 0,
            r.curr == 0,
    {
        IRBuilder { blocks: Vec::new(), curr: 0 }
    }

    /// Takes the block and positions the builder at its end: the block is
    /// the current block from now on.
    pub fn positionAtEnd(&mut self, block: Block)
        ensures
            final(self).blocks@ == old(self).blocks@.push(block),
            final(self).curr == old(self).blocks@.len(),
            final(self).has_current(),
    {
        self.curr = self.blocks.len();
        self.blocks.push(block);
    }

    /// Hands the blocks back.
    pub fn finish(self) -> (r: Vec<Block>)
        ensures
            r == self.blocks,
    {
        self.blocks
    }

    fn append(&mut self, node: IrNode)
        requires
            old(self).has_current(),
        ensures
            blocks_view(final(self).blocks@) == old(self).with_node(node@),
            final(self).curr == old(self).curr,
    {
        let mut block = self.blocks.remove(self.curr);
        block.push_ir(node);
        self.blocks.insert(self.curr, block);
        assert(blocks_view(self.blocks@) =~= old(self).with_node(node@));
    }
}

/// Trait for the cast instruction
/// Used for overloading the BuildCast function
pub trait BuildCast<T, U> {
    /// Whether there is a block to build into.
    spec fn cast_ready(&self) -> bool;

    /// builds an cast to form one variable into another type
    fn BuildCast(&mut self, var: T, ty: U) -> (out: Var)
        requires
            old(self).cast_ready(),
    ;
}

impl BuildCast<Var, TypeMetadata> for Function {
    /// The function has a block, and the variables of its last block are
    /// not used up.
    open spec fn cast_ready(&self) -> bool {
        self.blocks@.len() > 0 && self.blocks@.last().varCount < usize::MAX
    }

    /// Appends a cast of `var` to `ty` to the last block of the function.
    /// The result is a new variable of type `ty`, named by the next number
    /// of the block.
    fn BuildCast(&mut self, var: Var, ty: TypeMetadata) -> (out: Var)
        ensures
            out@ == (VarView { name: var_name(old(self).blocks@.last().varCount as nat), ty }),
            final(self)@ == (FunctionView {
                blocks: old(self)@.blocks.drop_last().push(
                    BlockView {
                        nodes: old(self)@.blocks.last().nodes.push(
                            IrNodeView::Cast { src: var@, ty, out: out@ },
                        ),
                        var_count: (old(self).blocks@.last().varCount + 1) as usize,
                        ..old(self)@.blocks.last()
                    },
                ),
                ..old(self)@
            }),
    {
        let mut block = match self.blocks.pop() {
            Some(b) => b,
            None => Block::new(String::new(), 0),
        };
        let name = block.reqVarName();
        let out = Var::new(name, ty);
        block.push_ir(IrNode::Cast { src: var, ty, out: out.clone() });
        self.blocks.push(block);
        assert(blocks_view(self.blocks@) =~= blocks_view(old(self).blocks@).drop_last().push(
            block@,
        ));
        out
    }
}

/// The `BuildStore` trait is used for overloading the `BuildStore` method
pub trait BuildStore<T, U> {
    /// Whether there is a block to build into.
    spec fn store_ready(&self) -> bool;

    /// the `store` node, stores a value into a allocted pointer
    fn BuildStore(&mut self, target: T, value: U)
        requires
            old(self).store_ready(),
    ;
}

impl BuildStore<Var, Var> for IRBuilder {
    open spec fn store_ready(&self) -> bool {
        self.has_current()
    }

    /// Appends a store of the variable `value` through the pointer
    /// `target` to the current block.
    fn BuildStore(&mut self, target: Var, value: Var)
        ensures
            blocks_view(final(self).blocks@) == old(self).with_node(
                IrNodeView::Store { ptr: target@, value: value@ },
            ),
            final(self).curr == old(self).curr,
    {
        self.append(IrNode::Store { ptr: target, value });
    }
}

impl BuildStore<Var, Type> for IRBuilder {
    open spec fn store_ready(&self) -> bool {
        self.has_current()
    }

    /// Appends a store of the constant `value` through the pointer
    /// `target` to the current block.
    fn BuildStore(&mut self, target: Var, value: Type)
        ensures
            blocks_view(final(self).blocks@) == old(self).with_node(
                IrNodeView::StoreConst { ptr: target@, constant: value },
            ),
            final(self).curr == old(self).curr,
    {
        self.append(IrNode::StoreConst { ptr: target, constant: value });
    }
}

} // verus!
