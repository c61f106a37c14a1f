//! Verification and allocation fit together: in a function that verifies,
//! every variable that a node names has a place by the time the node is
//! compiled.
use vstd::prelude::*;
use crate::codegen::compile::{compiled, compiled_all, first_unplaced, needed};
use crate::codegen::error::CompileErrorView;
use crate::codegen::reg_alloc::{
    RegAllocView, keeps_places, lemma_with_node_places, lemma_with_var_places, slot_name,
};
use crate::ir::func::{
    BlockView, FunctionView, arg_vars, defined_after, defined_after_all, first_block_error,
    first_missing, first_undefined,
};
use crate::ir::nodes::{IrNodeView, VerifyErrorView};
use crate::ir::types::{TypeMetadata, VarView};
use crate::target::backend::{frame_of, fresh_frame, with_blocks, with_vars};
use crate::target::triple::{Arch, CallConv};

verus! {

/// Whether every variable of a list has a place in a frame.
pub open spec fn all_placed(frame: RegAllocView, vars: Seq<VarView>) -> bool {
    forall|i: int| 0 <= i < vars.len() ==> frame.place_of((#[trigger] vars[i]).name) is Some
}

/// Whether a frame has a place for everything that a node defines: its
/// output, and the slot of a stack allocation.
pub open spec fn definitions_placed(frame: RegAllocView, node: IrNodeView) -> bool {
    &&& node.output() matches Some(out) ==> frame.place_of(out.name) is Some
    &&& node matches IrNodeView::Alloca { out, .. } ==> frame.place_of(slot_name(out.name)) is Some
}

/// Whether a report is that of an undefined variable.
pub open spec fn is_undefined_use(e: CompileErrorView) -> bool {
    e matches CompileErrorView::Verify(VerifyErrorView::UseOfUndefined(_))
}

/// The pass over a list of variables gives each of them a place and takes
/// none away.
pub proof fn lemma_vars_placed(state: RegAllocView, vars: Seq<VarView>)
    requires
        with_vars(state, vars) is Ok,
    ensures
        all_placed(with_vars(state, vars)->Ok_0, vars),
        keeps_places(state, with_vars(state, vars)->Ok_0),
    decreases vars.len(),
{
    if vars.len() > 0 {
        let mid = with_vars(state, vars.drop_last())->Ok_0;
        let next = with_vars(state, vars)->Ok_0;
        lemma_vars_placed(state, vars.drop_last());
        lemma_with_var_places(mid, vars.last());
        assert forall|i: int| 0 <= i < vars.len() implies next.place_of(
            (#[trigger] vars[i]).name,
        ) is Some by {
            if i < vars.len() - 1 {
                assert(vars.drop_last()[i] == vars[i]);
                assert(mid.place_of(vars[i].name) is Some);
            }
        }
        assert forall|name: Seq<char>| (#[trigger] state.place_of(name)) is Some
            implies next.place_of(
            name,
        ) is Some by {
            assert(mid.place_of(name) is Some);
        }
    }
}

/// The pass over a list of nodes gives everything that they define a
/// place and takes none away.
pub proof fn lemma_nodes_placed(state: RegAllocView, nodes: Seq<IrNodeView>)
    requires
        state.with_nodes(nodes) is Ok,
    ensures
        forall|j: int|
            0 <= j < nodes.len() ==> definitions_placed(
                state.with_nodes(nodes)->Ok_0,
                #[trigger] nodes[j],
            ),
        keeps_places(state, state.with_nodes(nodes)->Ok_0),
    decreases nodes.len(),
{
    if nodes.len() > 0 {
        let mid = state.with_nodes(nodes.drop_last())->Ok_0;
        let next = state.with_nodes(nodes)->Ok_0;
        lemma_nodes_placed(state, nodes.drop_last());
        lemma_with_node_places(mid, nodes.last());
        assert forall|j: int| 0 <= j < nodes.len() implies definitions_placed(
            next,
            #[trigger] nodes[j],
        ) by {
            if j < nodes.len() - 1 {
                assert(nodes.drop_last()[j] == nodes[j]);
                assert(definitions_placed(mid, nodes[j]));
                match nodes[j].output() {
                    Some(out) => {
                        assert(mid.place_of(out.name) is Some);
                        assert(mid.place_of(slot_name(out.name)) is Some ==> next.place_of(
                            slot_name(out.name),
                        ) is Some);
                    },
                    None => {},
                }
            }
        }
        assert forall|name: Seq<char>| (#[trigger] state.place_of(name)) is Some
            implies next.place_of(
            name,
        ) is Some by {
            assert(mid.place_of(name) is Some);
        }
    }
}

/// The pass over a list of blocks gives everything that their nodes
/// define a place and takes none away.
pub proof fn lemma_blocks_placed(state: RegAllocView, blocks: Seq<BlockView>)
    requires
        with_blocks(state, blocks) is Ok,
    ensures
        forall|b: int, j: int|
            0 <= b < blocks.len() && 0 <= j < blocks[b].nodes.len() ==> definitions_placed(
                with_blocks(state, blocks)->Ok_0,
                #[trigger] blocks[b].nodes[j],
            ),
        keeps_places(state, with_blocks(state, blocks)->Ok_0),
    decreases blocks.len(),
{
    if blocks.len() > 0 {
        let mid = with_blocks(state, blocks.drop_last())->Ok_0;
        let next = with_blocks(state, blocks)->Ok_0;
        lemma_blocks_placed(state, blocks.drop_last());
        lemma_nodes_placed(mid, blocks.last().nodes);
        assert forall|b: int, j: int|
            0 <= b < blocks.len() && 0 <= j < blocks[b].nodes.len() implies definitions_placed(
            next,
            #[trigger] blocks[b].nodes[j],
        ) by {
            let node = blocks[b].nodes[j];
            if b < blocks.len() - 1 {
                assert(blocks.drop_last()[b] == blocks[b]);
                assert(definitions_placed(mid, node));
                match node.output() {
                    Some(out) => {
                        assert(mid.place_of(out.name) is Some);
                        assert(mid.place_of(slot_name(out.name)) is Some ==> next.place_of(
                            slot_name(out.name),
                        ) is Some);
                    },
                    None => {},
                }
            }
        }
        assert forall|name: Seq<char>| (#[trigger] state.place_of(name)) is Some
            implies next.place_of(
            name,
        ) is Some by {
            assert(mid.place_of(name) is Some);
        }
    }
}

/// Where no variable of a list is missing among the defined ones, each
/// of them is defined.
pub proof fn lemma_none_missing(defined: Seq<VarView>, vars: Seq<VarView>, i: int)
    requires
        first_missing(defined, vars) is None,
        0 <= i < vars.len(),
    ensures
        defined.contains(vars[i]),
    decreases vars.len(),
{
    if i > 0 {
        lemma_none_missing(defined, vars.drop_first(), i - 1);
    }
}

/// In a list of nodes that read nothing undefined, every input of every
/// node has a place, given that everything defined in front of the list
/// and everything that the nodes define has one.
pub proof fn lemma_inputs_placed(frame: RegAllocView, defined: Seq<VarView>, nodes: Seq<IrNodeView>)
    requires
        all_placed(frame, defined),
        first_undefined(defined, nodes) is None,
        forall|j: int| 0 <= j < nodes.len() ==> definitions_placed(frame, #[trigger] nodes[j]),
    ensures
        forall|j: int| 0 <= j < nodes.len() ==> all_placed(frame, (#[trigger] nodes[j]).inputs()),
        all_placed(frame, defined_after_all(defined, nodes)),
    decreases nodes.len(),
{
    if nodes.len() > 0 {
        let node = nodes[0];
        let next = defined_after(defined, node);
        assert(definitions_placed(frame, node));
        assert forall|i: int| 0 <= i < next.len() implies frame.place_of(
            (#[trigger] next[i]).name,
        ) is Some by {
            if i < defined.len() {
                assert(next[i] == defined[i]);
            }
        }
        assert forall|j: int| 0 <= j < nodes.drop_first().len() implies definitions_placed(
            frame,
            #[trigger] nodes.drop_first()[j],
        ) by {
            assert(nodes.drop_first()[j] == nodes[j + 1]);
        }
        lemma_inputs_placed(frame, next, nodes.drop_first());
        assert forall|j: int| 0 <= j < nodes.len() implies all_placed(
            frame,
            (#[trigger] nodes[j]).inputs(),
        ) by {
            if j == 0 {
                assert forall|i: int| 0 <= i < node.inputs().len() implies frame.place_of(
                    (#[trigger] node.inputs()[i]).name,
                ) is Some by {
                    lemma_none_missing(defined, node.inputs(), i);
                    let v = node.inputs()[i];
                    let k = choose|k: int| 0 <= k < defined.len() && defined[k] == v;
                    assert(frame.place_of(defined[k].name) is Some);
                }
            } else {
                assert(nodes.drop_first()[j - 1] == nodes[j]);
            }
        }
    }
}

/// In a list of blocks without verification error, every input of every
/// node has a place, given that everything defined in front of the list
/// and everything that the nodes define has one.
pub proof fn lemma_block_inputs_placed(
    frame: RegAllocView,
    defined: Seq<VarView>,
    blocks: Seq<BlockView>,
    ret: TypeMetadata,
)
    requires
        all_placed(frame, defined),
        first_block_error(defined, blocks, ret) is None,
        forall|b: int, j: int|
            0 <= b < blocks.len() && 0 <= j < blocks[b].nodes.len() ==> definitions_placed(
                frame,
                #[trigger] blocks[b].nodes[j],
            ),
    ensures
        forall|b: int, j: int|
            0 <= b < blocks.len() && 0 <= j < blocks[b].nodes.len() ==> all_placed(
                frame,
                (#[trigger] blocks[b].nodes[j]).inputs(),
            ),
    decreases blocks.len(),
{
    if blocks.len() > 0 {
        let block = blocks[0];
        assert forall|j: int| 0 <= j < block.nodes.len() implies definitions_placed(
            frame,
            #[trigger] block.nodes[j],
        ) by {
            assert(definitions_placed(frame, blocks[0].nodes[j]));
        }
        lemma_inputs_placed(frame, defined, block.nodes);
        let rest = blocks.drop_first();
        assert forall|b: int, j: int|
            0 <= b < rest.len() && 0 <= j < rest[b].nodes.len() implies definitions_placed(
            frame,
            #[trigger] rest[b].nodes[j],
        ) by {
            assert(rest[b] == blocks[b + 1]);
            assert(definitions_placed(frame, blocks[b + 1].nodes[j]));
        }
        lemma_block_inputs_placed(frame, defined_after_all(defined, block.nodes), rest, ret);
        assert forall|b: int, j: int|
            0 <= b < blocks.len() && 0 <= j < blocks[b].nodes.len() implies all_placed(
            frame,
            (#[trigger] blocks[b].nodes[j]).inputs(),
        ) by {
            if b > 0 {
                assert(rest[b - 1] == blocks[b]);
                assert(all_placed(frame, rest[b - 1].nodes[j].inputs()));
            }
        }
    }
}

/// A node whose inputs and definitions have places is not reported for an
/// undefined variable.
pub proof fn lemma_placed_node_compiles(
    conv: CallConv,
    arch: Arch,
    frame: RegAllocView,
    node: IrNodeView,
)
    requires
        all_placed(frame, node.inputs()),
        definitions_placed(frame, node),
    ensures
        compiled(conv, arch, frame, node) matches Err(e) ==> !is_undefined_use(e),
{
    let vars = needed(node);
    assert forall|i: int| 0 <= i < vars.len() implies frame.place_of(
        (#[trigger] vars[i]).name,
    ) is Some by {
        if i < node.inputs().len() {
            assert(vars[i] == node.inputs()[i]);
        }
    }
    lemma_first_unplaced_none(frame, vars);
}

/// Where every variable of a list has a place, none is unplaced.
pub proof fn lemma_first_unplaced_none(frame: RegAllocView, vars: Seq<VarView>)
    requires
        all_placed(frame, vars),
    ensures
        first_unplaced(frame, vars) is None,
    decreases vars.len(),
{
    if vars.len() > 0 {
        assert(frame.place_of(vars[0].name) is Some);
        assert forall|i: int| 0 <= i < vars.drop_first().len() implies frame.place_of(
            (#[trigger] vars.drop_first()[i]).name,
        ) is Some by {
            assert(vars.drop_first()[i] == vars[i + 1]);
        }
        lemma_first_unplaced_none(frame, vars.drop_first());
    }
}

/// A list of nodes whose inputs and definitions have places is not
/// reported for an undefined variable.
pub proof fn lemma_placed_nodes_compile(
    conv: CallConv,
    arch: Arch,
    frame: RegAllocView,
    nodes: Seq<IrNodeView>,
)
    requires
        forall|j: int| 0 <= j < nodes.len() ==> all_placed(frame, (#[trigger] nodes[j]).inputs()),
        forall|j: int| 0 <= j < nodes.len() ==> definitions_placed(frame, #[trigger] nodes[j]),
    ensures
        compiled_all(conv, arch, frame, nodes) matches Err(e) ==> !is_undefined_use(e),
    decreases nodes.len(),
{
    if nodes.len() > 0 {
        assert forall|j: int| 0 <= j < nodes.drop_last().len() implies all_placed(
            frame,
            (#[trigger] nodes.drop_last()[j]).inputs(),
        ) by {
            assert(nodes.drop_last()[j] == nodes[j]);
        }
        assert forall|j: int| 0 <= j < nodes.drop_last().len() implies definitions_placed(
            frame,
            #[trigger] nodes.drop_last()[j],
        ) by {
            assert(nodes.drop_last()[j] == nodes[j]);
        }
        lemma_placed_nodes_compile(conv, arch, frame, nodes.drop_last());
        assert(all_placed(frame, nodes[nodes.len() - 1].inputs()));
        assert(definitions_placed(frame, nodes[nodes.len() - 1]));
        lemma_placed_node_compiles(conv, arch, frame, nodes.last());
    }
}

/// In a function that verifies, every variable that a node names has a
/// place in the frame of the function: no block of the function is
/// reported for an undefined variable when it is compiled.
pub proof fn lemma_verified_function_has_places(conv: CallConv, arch: Arch, f: FunctionView, b: int)
    requires
        f.verify_error() is None,
        frame_of(arch, f) is Ok,
        0 <= b < f.blocks.len(),
    ensures
        compiled_all(conv, arch, frame_of(arch, f)->Ok_0, f.blocks[b].nodes) matches Err(e)
            ==> !is_undefined_use(e),
{
    let frame = frame_of(arch, f)->Ok_0;
    let args = arg_vars(f.args);
    let placed = with_vars(fresh_frame(arch), args)->Ok_0;
    lemma_vars_placed(fresh_frame(arch), args);
    lemma_blocks_placed(placed, f.blocks);
    assert forall|i: int| 0 <= i < args.len() implies frame.place_of(
        (#[trigger] args[i]).name,
    ) is Some by {
        assert(placed.place_of(args[i].name) is Some);
    }
    lemma_block_inputs_placed(frame, args, f.blocks, f.ret);
    let nodes = f.blocks[b].nodes;
    assert forall|j: int| 0 <= j < nodes.len() implies all_placed(
        frame,
        (#[trigger] nodes[j]).inputs(),
    ) by {
        assert(all_placed(frame, f.blocks[b].nodes[j].inputs()));
    }
    assert forall|j: int| 0 <= j < nodes.len() implies definitions_placed(
        frame,
        #[trigger] nodes[j],
    ) by {
        assert(definitions_placed(frame, f.blocks[b].nodes[j]));
    }
    lemma_placed_nodes_compile(conv, arch, frame, nodes);
}

} // verus!
