//! The register allocator: one pass over a function that gives every
//! variable a place of its own, a register while there are free ones and
//! a slot of the stack frame after that. Nothing is ever given back, so
//! no two variables share storage.
use vstd::prelude::*;
use crate::codegen::machine::{MachineOperand, Reg};
use crate::ir::func::nodes_view;
use crate::ir::nodes::{IrNode, IrNodeView};
use crate::ir::types::{TypeMetadata, Var, VarView};
use crate::target::triple::Arch;
use crate::target::x64::reg::x64Reg;

verus! {

/// Why a variable got no place.
#[derive(Debug, Clone, Copy, PartialEq, Eq, Structural)]
pub enum AllocError {
    /// The frame would grow beyond the limit, which is given in bytes.
    OutOfStack(i64),
}

/// The largest limit that a frame can have.
pub const MAX_FRAME_LIMIT: i64 = 0x4000_0000;

/// The place and the type of one variable.
#[derive(Debug, PartialEq, Eq)]
pub struct FrameEntry {
    /// The name of the variable.
    pub name: String,
    /// Where the variable lives.
    pub loc: MachineOperand,
    /// The type of the variable.
    pub ty: TypeMetadata,
}

/// What an entry of the frame denotes.
pub struct FrameEntryView {
    pub name: Seq<char>,
    pub loc: MachineOperand,
    pub ty: TypeMetadata,
}

impl View for FrameEntry {
    type V = FrameEntryView;

    open spec fn view(&self) -> FrameEntryView {
        FrameEntryView { name: self.name@, loc: self.loc, ty: self.ty }
    }
}

/// What a list of entries denotes.
pub open spec fn entries_view(s: Seq<FrameEntry>) -> Seq<FrameEntryView> {
    s.map_values(|e: FrameEntry| e@)
}

/// Whether the architecture is WebAssembly, where a variable lives in a
/// numbered local and not at an address.
pub open spec fn is_wasm(arch: Arch) -> bool {
    arch == Arch::Wasm32 || arch == Arch::Wasm64
}

/// The size of the slot of a value: one local on WebAssembly, else the
/// bytes of the type, and eight bytes for a type without a width.
pub open spec fn slot_bytes(arch: Arch, ty: TypeMetadata) -> int {
    if is_wasm(arch) {
        1
    } else if ty.bits() == 0 {
        8
    } else {
        ty.bits() / 8
    }
}

/// The least multiple of `a` that is not below `x`.
pub open spec fn align_up(x: int, a: int) -> int {
    ((x + a - 1) / a) * a
}

/// The part of the frame that a slot covers, as a half open range: on
/// WebAssembly the one local at the offset, else the bytes below the
/// offset.
pub open spec fn slot_range(arch: Arch, off: int, ty: TypeMetadata) -> (int, int) {
    if is_wasm(arch) {
        (off, off + 1)
    } else {
        (off - slot_bytes(arch, ty), off)
    }
}

/// Whether two places share storage: two registers of one family, or two
/// slots whose ranges overlap.
pub open spec fn aliases(
    arch: Arch,
    a: MachineOperand,
    a_ty: TypeMetadata,
    b: MachineOperand,
    b_ty: TypeMetadata,
) -> bool {
    match (a, b) {
        (MachineOperand::Reg(Reg::x64(r1)), MachineOperand::Reg(Reg::x64(r2))) => r1.family()
            == r2.family(),
        (MachineOperand::Stack(o1), MachineOperand::Stack(o2)) => {
            let (lo1, hi1) = slot_range(arch, o1 as int, a_ty);
            let (lo2, hi2) = slot_range(arch, o2 as int, b_ty);
            lo1 < hi2 && lo2 < hi1
        },
        _ => false,
    }
}

/// The name under which the slot of a stack allocation is recorded: the
/// name of the variable that receives the address of the slot, and a
/// dollar sign.
pub open spec fn slot_name(name: Seq<char>) -> Seq<char> {
    name + seq!['$']
}

/// The state of the allocator as a value.
pub struct RegAllocView {
    pub arch: Arch,
    pub entries: Seq<FrameEntryView>,
    pub cursor: int,
    pub free: Seq<x64Reg>,
    pub limit: int,
}

impl RegAllocView {
    /// The position of the entry of a variable, if the variable has one.
    pub open spec fn position(self, name: Seq<char>) -> Option<int> {
        if exists|i: int| 0 <= i < self.entries.len() && self.entries[i].name == name {
            Some(choose|i: int| 0 <= i < self.entries.len() && self.entries[i].name == name)
        } else {
            None
        }
    }

    /// The place of a variable, if the variable has one.
    pub open spec fn place_of(self, name: Seq<char>) -> Option<MachineOperand> {
        match self.position(name) {
            Some(i) => Some(self.entries[i].loc),
            None => None,
        }
    }

    /// The recorded type of a variable, if the variable has a place.
    pub open spec fn type_of(self, name: Seq<char>) -> Option<TypeMetadata> {
        match self.position(name) {
            Some(i) => Some(self.entries[i].ty),
            None => None,
        }
    }

    /// The invariant of the allocator: the cursor is inside the limit; no
    /// name has two entries; no two entries share storage; every slot lies
    /// inside the part of the frame that is handed out; and no free
    /// register, nor two of them, belongs to the family of a register in
    /// use.
    pub open spec fn wf(self) -> bool {
        &&& 0 <= self.cursor <= self.limit <= MAX_FRAME_LIMIT
        &&& forall|i: int, j: int|
            0 <= i < self.entries.len() && 0 <= j < self.entries.len() && i != j
                ==> self.entries[i].name != self.entries[j].name
        &&& forall|i: int, j: int|
            0 <= i < self.entries.len() && 0 <= j < self.entries.len() && i != j ==> !aliases(
                self.arch,
                self.entries[i].loc,
                self.entries[i].ty,
                self.entries[j].loc,
                self.entries[j].ty,
            )
        &&& forall|i: int|
            0 <= i < self.entries.len() ==> self.in_frame(
                (#[trigger] self.entries[i]).loc,
                self.entries[i].ty,
            )
        &&& forall|i: int, k: int|
            0 <= i < self.entries.len() && 0 <= k < self.free.len() ==> !self.holds_family(
                (#[trigger] self.entries[i]).loc,
                #[trigger] self.free[k],
            )
        &&& forall|k: int, l: int|
            0 <= k < self.free.len() && 0 <= l < self.free.len() && k != l
                ==> self.free[k].family() != self.free[l].family()
    }

    /// Whether a place lies inside the part of the frame that is handed
    /// out. A register does; a constant is no place.
    pub open spec fn in_frame(self, loc: MachineOperand, ty: TypeMetadata) -> bool {
        match loc {
            MachineOperand::Stack(off) => {
                let (lo, hi) = slot_range(self.arch, off as int, ty);
                0 <= lo && hi <= self.cursor
            },
            MachineOperand::Reg(_) => true,
            MachineOperand::Imm(_) => false,
        }
    }

    /// Whether a place is a register of the family of `reg`.
    pub open spec fn holds_family(self, loc: MachineOperand, reg: x64Reg) -> bool {
        loc matches MachineOperand::Reg(Reg::x64(r)) && r.family() == reg.family()
    }

    /// Whether the next value of a type goes into a register: there is a
    /// free one, and the type is no floating point type.
    pub open spec fn takes_reg(self, ty: TypeMetadata) -> bool {
        self.free.len() > 0 && !ty.is_float()
    }

    /// The slot that the next value of a type gets where it has to live in
    /// memory, or nothing if the frame would grow beyond the limit.
    pub open spec fn next_slot(self, ty: TypeMetadata) -> Result<MachineOperand, AllocError> {
        if self.cursor_after(ty) > self.limit {
            Err(AllocError::OutOfStack(self.limit as i64))
        } else if is_wasm(self.arch) {
            Ok(MachineOperand::Stack(self.cursor as i64))
        } else {
            Ok(MachineOperand::Stack(self.cursor_after(ty) as i64))
        }
    }

    /// The allocator after a value of a type got a slot in memory, under
    /// a name.
    pub open spec fn with_slot(self, name: Seq<char>, ty: TypeMetadata) -> Result<
        RegAllocView,
        AllocError,
    > {
        match self.next_slot(ty) {
            Err(e) => Err(e),
            Ok(loc) => Ok(
                RegAllocView {
                    cursor: self.cursor_after(ty),
                    entries: self.recorded(name, loc, ty),
                    ..self
                },
            ),
        }
    }

    /// The cursor behind the slot of the next value of a type: on
    /// WebAssembly one more, else the cursor moved by the size of the slot
    /// and rounded up to a multiple of the size.
    pub open spec fn cursor_after(self, ty: TypeMetadata) -> int {
        if is_wasm(self.arch) {
            self.cursor + 1
        } else {
            align_up(self.cursor + slot_bytes(self.arch, ty), slot_bytes(self.arch, ty))
        }
    }

    /// The place that the next value of a type gets: the last free register
    /// in the alias of the type's width, else a new slot, or nothing if
    /// the frame would grow beyond the limit.
    pub open spec fn next_place(self, ty: TypeMetadata) -> Result<MachineOperand, AllocError> {
        if self.takes_reg(ty) {
            Ok(MachineOperand::Reg(Reg::x64(self.free.last().alias_for(ty))))
        } else {
            self.next_slot(ty)
        }
    }

    /// The allocator after the next value of a type got its place, before
    /// the place is recorded for a variable.
    pub open spec fn after_place(self, ty: TypeMetadata) -> RegAllocView {
        if self.takes_reg(ty) {
            RegAllocView { free: self.free.drop_last(), ..self }
        } else {
            RegAllocView { cursor: self.cursor_after(ty), ..self }
        }
    }

    /// The entries after a place was recorded for a variable: a variable
    /// that had an entry gets the new place in it, every other variable a
    /// new entry at the end.
    pub open spec fn recorded(self, name: Seq<char>, loc: MachineOperand, ty: TypeMetadata) -> Seq<
        FrameEntryView,
    > {
        let entry = FrameEntryView { name, loc, ty };
        match self.position(name) {
            Some(i) => self.entries.update(i, entry),
            None => self.entries.push(entry),
        }
    }

    /// The allocator after a variable of a type was given a place, or the
    /// error if there was none to give.
    pub open spec fn with_var(self, var: VarView) -> Result<RegAllocView, AllocError> {
        match self.next_place(var.ty) {
            Err(e) => Err(e),
            Ok(loc) => Ok(
                RegAllocView {
                    entries: self.after_place(var.ty).recorded(var.name, loc, var.ty),
                    ..self.after_place(var.ty)
                },
            ),
        }
    }

    /// The allocator after the pass over a node: the output of the node,
    /// if it has one, was given a place. For a stack allocation the slot
    /// that the node asks for was handed out first, under the slot name of
    /// the output.
    pub open spec fn with_node(self, node: IrNodeView) -> Result<RegAllocView, AllocError> {
        match node {
            IrNodeView::Alloca { out, ty } => match self.with_slot(slot_name(out.name), ty) {
                Err(e) => Err(e),
                Ok(state) => state.with_var(out),
            },
            _ => match node.output() {
                Some(out) => self.with_var(out),
                None => Ok(self),
            },
        }
    }

    /// The allocator after the pass over a list of nodes in order, or the
    /// first error.
    pub open spec fn with_nodes(self, nodes: Seq<IrNodeView>) -> Result<RegAllocView, AllocError>
        decreases nodes.len(),
    {
        if nodes.len() == 0 {
            Ok(self)
        } else {
            match self.with_nodes(nodes.drop_last()) {
                Err(e) => Err(e),
                Ok(state) => state.with_node(nodes.last()),
            }
        }
    }

    /// The size of the frame: the cursor rounded up to a multiple of eight.
    pub open spec fn frame_size(self) -> int {
        align_up(self.cursor, 8)
    }

    /// Two different variables with places do not share storage.
    pub proof fn lemma_places_do_not_alias(self, a: Seq<char>, b: Seq<char>)
        requires
            self.wf(),
            a != b,
            self.place_of(a) is Some,
            self.place_of(b) is Some,
        ensures
            !aliases(
                self.arch,
                self.place_of(a)->0,
                self.type_of(a)->0,
                self.place_of(b)->0,
                self.type_of(b)->0,
            ),
    {
    }

    /// Whether a place shares storage with no place that a variable has.
    pub open spec fn is_fresh(self, place: MachineOperand, ty: TypeMetadata) -> bool {
        forall|i: int|
            0 <= i < self.entries.len() ==> !aliases(
                self.arch,
                place,
                ty,
                (#[trigger] self.entries[i]).loc,
                self.entries[i].ty,
            ) && !aliases(self.arch, self.entries[i].loc, self.entries[i].ty, place, ty)
    }

    /// Whether a place is no register of the family of a free register.
    pub open spec fn is_taken(self, place: MachineOperand) -> bool {
        forall|k: int| 0 <= k < self.free.len() ==> !self.holds_family(place,
            #[trigger] self.free[k])
    }

    /// Recording a place that shares storage with no other, lies in the
    /// frame and is no free register keeps the invariant of the allocator.
    pub proof fn lemma_recorded_keeps_wf(
        self,
        name: Seq<char>,
        place: MachineOperand,
        ty: TypeMetadata,
    )
        requires
            self.wf(),
            self.in_frame(place, ty),
            self.is_fresh(place, ty),
            self.is_taken(place),
        ensures
            (RegAllocView { entries: self.recorded(name, place, ty), ..self }).wf(),
    {
        let next = RegAllocView { entries: self.recorded(name, place, ty), ..self };
        let entry = FrameEntryView { name, loc: place, ty };
        match self.position(name) {
            Some(p) => {
                assert(next.entries =~= self.entries.update(p, entry));
                assert forall|i: int| 0 <= i < next.entries.len() implies (
                #[trigger] next.entries[i]).name == self.entries[i].name by {}
                assert forall|i: int| 0 <= i < next.entries.len() && i != p implies (
                #[trigger] next.entries[i]) == self.entries[i] by {}
                Self::lemma_wf_parts(self, next, p);
            },
            None => {
                let n = self.entries.len() as int;
                assert(next.entries =~= self.entries.push(entry));
                assert forall|i: int| 0 <= i < n implies (#[trigger] next.entries[i])
                    == self.entries[i] by {}
                assert forall|i: int| 0 <= i < n implies self.entries[i].name != name by {}
                Self::lemma_wf_parts(self, next, n);
            },
        }
    }

    /// The invariant holds of a state that differs from a state in order
    /// in one entry only, which is new or has the name it had, and whose
    /// place shares storage with no other, lies in the frame and is no
    /// free register.
    proof fn lemma_wf_parts(state: RegAllocView, next: RegAllocView, p: int)
        requires
            state.wf(),
            next.arch == state.arch,
            next.cursor == state.cursor,
            next.limit == state.limit,
            next.free == state.free,
            0 <= p < next.entries.len(),
            next.entries.len() == state.entries.len() || (next.entries.len() == state.entries.len()
                + 1 && p == state.entries.len()),
            forall|i: int|
                0 <= i < next.entries.len() && i != p ==> (#[trigger] next.entries[i])
                    == state.entries[i],
            forall|i: int|
                0 <= i < next.entries.len() && i != p ==> (#[trigger] next.entries[i]).name
                    != next.entries[p].name,
            next.in_frame(next.entries[p].loc, next.entries[p].ty),
            state.is_fresh(next.entries[p].loc, next.entries[p].ty),
            state.is_taken(next.entries[p].loc),
        ensures
            next.wf(),
    {
        let e = next.entries[p];
        assert forall|i: int, j: int|
            0 <= i < next.entries.len() && 0 <= j < next.entries.len() && i != j
                implies next.entries[i].name
            != next.entries[j].name by {
            if i != p && j != p {
                assert(state.entries[i].name != state.entries[j].name);
            }
        }
        assert forall|i: int, j: int|
            0 <= i < next.entries.len() && 0 <= j < next.entries.len() && i != j implies !aliases(
            next.arch,
            next.entries[i].loc,
            next.entries[i].ty,
            next.entries[j].loc,
            next.entries[j].ty,
        ) by {
            if i != p && j != p {
                assert(!aliases(
                    state.arch,
                    state.entries[i].loc,
                    state.entries[i].ty,
                    state.entries[j].loc,
                    state.entries[j].ty,
                ));
            } else if i == p {
                assert(next.entries[j] == state.entries[j]);
            } else {
                assert(next.entries[i] == state.entries[i]);
            }
        }
        assert forall|i: int| 0 <= i < next.entries.len() implies next.in_frame(
            (#[trigger] next.entries[i]).loc,
            next.entries[i].ty,
        ) by {
            if i != p {
                assert(state.in_frame(state.entries[i].loc, state.entries[i].ty));
            }
        }
        assert forall|i: int, k: int|
            0 <= i < next.entries.len() && 0 <= k < next.free.len() implies !next.holds_family(
            (#[trigger] next.entries[i]).loc,
            #[trigger] next.free[k],
        ) by {
            if i != p {
                assert(!state.holds_family(state.entries[i].loc, state.free[k]));
            } else {
                assert(!state.holds_family(e.loc, state.free[k]));
            }
        }
    }

    /// Moving the cursor forward keeps the invariant of the allocator.
    pub proof fn lemma_cursor_keeps_wf(self, cursor: int)
        requires
            self.wf(),
            self.cursor <= cursor <= self.limit,
        ensures
            (RegAllocView { cursor, ..self }).wf(),
    {
        let next = RegAllocView { cursor, ..self };
        assert forall|i: int| 0 <= i < next.entries.len() implies next.in_frame(
            (#[trigger] next.entries[i]).loc,
            next.entries[i].ty,
        ) by {
            assert(self.in_frame(self.entries[i].loc, self.entries[i].ty));
        }
    }

    /// Taking the last free register keeps the invariant of the allocator.
    pub proof fn lemma_taking_keeps_wf(self)
        requires
            self.wf(),
            self.free.len() > 0,
        ensures
            (RegAllocView { free: self.free.drop_last(), ..self }).wf(),
    {
        let next = RegAllocView { free: self.free.drop_last(), ..self };
        assert forall|i: int| 0 <= i < next.entries.len() implies next.in_frame(
            (#[trigger] next.entries[i]).loc,
            next.entries[i].ty,
        ) by {
            assert(self.in_frame(self.entries[i].loc, self.entries[i].ty));
        }
        assert forall|i: int, k: int|
            0 <= i < next.entries.len() && 0 <= k < next.free.len() implies !next.holds_family(
            (#[trigger] next.entries[i]).loc,
            #[trigger] next.free[k],
        ) by {
            assert(next.free[k] == self.free[k]);
            assert(!self.holds_family(self.entries[i].loc, self.free[k]));
        }
        assert forall|k: int, l: int|
            0 <= k < next.free.len() && 0 <= l < next.free.len() && k != l
                implies next.free[k].family()
            != next.free[l].family() by {
            assert(next.free[k] == self.free[k]);
            assert(next.free[l] == self.free[l]);
        }
    }

    /// The slot that the next value gets lies in the frame behind the
    /// slot and shares storage with no place that a variable has.
    pub proof fn lemma_next_slot_is_fresh(self, ty: TypeMetadata)
        requires
            self.wf(),
            self.next_slot(ty) is Ok,
        ensures
            self.cursor <= self.cursor_after(ty) <= self.limit,
            (RegAllocView { cursor: self.cursor_after(ty), ..self }).in_frame(
                self.next_slot(ty)->Ok_0,
                ty,
            ),
            self.is_fresh(self.next_slot(ty)->Ok_0, ty),
            self.is_taken(self.next_slot(ty)->Ok_0),
    {
        lemma_align_up(self.cursor + slot_bytes(self.arch, ty), slot_bytes(self.arch, ty));
        let place = self.next_slot(ty)->Ok_0;
        assert forall|i: int| 0 <= i < self.entries.len() implies !aliases(
            self.arch,
            place,
            ty,
            (#[trigger] self.entries[i]).loc,
            self.entries[i].ty,
        ) && !aliases(self.arch, self.entries[i].loc, self.entries[i].ty, place, ty) by {
            assert(self.in_frame(self.entries[i].loc, self.entries[i].ty));
        }
    }

    /// The place that the next value gets shares storage with no place
    /// that a variable has, and it is no register that stays free.
    pub proof fn lemma_next_place_is_fresh(self, ty: TypeMetadata)
        requires
            self.wf(),
            self.next_place(ty) is Ok,
        ensures
            self.after_place(ty).wf(),
            self.after_place(ty).in_frame(self.next_place(ty)->Ok_0, ty),
            self.after_place(ty).is_fresh(self.next_place(ty)->Ok_0, ty),
            self.after_place(ty).is_taken(self.next_place(ty)->Ok_0),
    {
        let place = self.next_place(ty)->Ok_0;
        let next = self.after_place(ty);
        if self.takes_reg(ty) {
            let last = self.free.len() - 1;
            let reg = self.free[last];
            self.lemma_taking_keeps_wf();
            x64Reg::lemma_alias_family(reg, ty);
            assert forall|i: int| 0 <= i < next.entries.len() implies !aliases(
                next.arch,
                place,
                ty,
                (#[trigger] next.entries[i]).loc,
                next.entries[i].ty,
            ) && !aliases(next.arch, next.entries[i].loc, next.entries[i].ty, place, ty) by {
                assert(!self.holds_family(self.entries[i].loc, self.free[last]));
            }
            assert forall|k: int| 0 <= k < next.free.len() implies !next.holds_family(
                place,
                #[trigger] next.free[k],
            ) by {
                assert(next.free[k] == self.free[k]);
                assert(self.free[k].family() != self.free[last].family());
            }
        } else {
            self.lemma_next_slot_is_fresh(ty);
            self.lemma_cursor_keeps_wf(self.cursor_after(ty));
        }
    }

    /// Giving a value a slot under a name keeps the invariant of the
    /// allocator.
    pub proof fn lemma_with_slot_keeps_wf(self, name: Seq<char>, ty: TypeMetadata)
        requires
            self.wf(),
            self.with_slot(name, ty) is Ok,
        ensures
            self.with_slot(name, ty)->Ok_0.wf(),
    {
        let place = self.next_slot(ty)->Ok_0;
        let mid = RegAllocView { cursor: self.cursor_after(ty), ..self };
        self.lemma_next_slot_is_fresh(ty);
        self.lemma_cursor_keeps_wf(self.cursor_after(ty));
        assert(mid.is_fresh(place, ty));
        assert(mid.is_taken(place));
        assert(mid.position(name) == self.position(name));
        mid.lemma_recorded_keeps_wf(name, place, ty);
    }

    /// Giving a variable a place keeps the invariant of the allocator.
    pub proof fn lemma_with_var_keeps_wf(self, var: VarView)
        requires
            self.wf(),
            self.with_var(var) is Ok,
        ensures
            self.with_var(var)->Ok_0.wf(),
    {
        let place = self.next_place(var.ty)->Ok_0;
        let mid = self.after_place(var.ty);
        self.lemma_next_place_is_fresh(var.ty);
        mid.lemma_recorded_keeps_wf(var.name, place, var.ty);
    }
}

/// Whether every variable that has a place in one state of the allocator
/// has a place in another.
pub open spec fn keeps_places(a: RegAllocView, b: RegAllocView) -> bool {
    forall|name: Seq<char>| (#[trigger] a.place_of(name)) is Some ==> b.place_of(name) is Some
}

/// Recording a place for a name gives the name a place and takes none
/// away.
pub proof fn lemma_recorded_places(
    state: RegAllocView,
    name: Seq<char>,
    place: MachineOperand,
    ty: TypeMetadata,
    next: RegAllocView,
)
    requires
        next.entries == state.recorded(name, place, ty),
    ensures
        next.place_of(name) is Some,
        keeps_places(state, next),
{
    let entry = FrameEntryView { name, loc: place, ty };
    match state.position(name) {
        Some(p) => {
            assert(next.entries[p].name == name);
            assert forall|other: Seq<char>| (#[trigger] state.place_of(other)) is Some
                implies next.place_of(
                other,
            ) is Some by {
                let q = state.position(other)->0;
                assert(next.entries[q].name == other);
            }
        },
        None => {
            assert(next.entries[state.entries.len() as int].name == name);
            assert forall|other: Seq<char>| (#[trigger] state.place_of(other)) is Some
                implies next.place_of(
                other,
            ) is Some by {
                let q = state.position(other)->0;
                assert(next.entries[q].name == other);
            }
        },
    }
}

/// Giving a variable a place gives it one and takes none away.
pub proof fn lemma_with_var_places(state: RegAllocView, var: VarView)
    requires
        state.with_var(var) is Ok,
    ensures
        state.with_var(var)->Ok_0.place_of(var.name) is Some,
        keeps_places(state, state.with_var(var)->Ok_0),
{
    let mid = state.after_place(var.ty);
    let next = state.with_var(var)->Ok_0;
    lemma_recorded_places(mid, var.name, state.next_place(var.ty)->Ok_0, var.ty, next);
    assert(mid.entries == state.entries);
    assert forall|other: Seq<char>| (#[trigger] state.place_of(other)) is Some
        implies next.place_of(
        other,
    ) is Some by {
        assert(mid.position(other) == state.position(other));
        assert(mid.place_of(other) is Some);
    }
}

/// The pass over a node gives its output a place and takes none away.
pub proof fn lemma_with_node_places(state: RegAllocView, node: IrNodeView)
    requires
        state.with_node(node) is Ok,
    ensures
        node.output() matches Some(out) ==> state.with_node(node)->Ok_0.place_of(out.name) is Some,
        node matches IrNodeView::Alloca { out, .. } ==> state.with_node(node)->Ok_0.place_of(
            slot_name(out.name),
        ) is Some,
        keeps_places(state, state.with_node(node)->Ok_0),
{
    let next = state.with_node(node)->Ok_0;
    match node {
        IrNodeView::Alloca { out, ty } => {
            let mid = state.with_slot(slot_name(out.name), ty)->Ok_0;
            lemma_recorded_places(state, slot_name(out.name), state.next_slot(ty)->Ok_0, ty, mid);
            lemma_with_var_places(mid, out);
            assert(mid.place_of(slot_name(out.name)) is Some);
            assert forall|other: Seq<char>| (#[trigger] state.place_of(other)) is Some
                implies next.place_of(
                other,
            ) is Some by {
                assert(mid.place_of(other) is Some);
            }
        },
        _ => match node.output() {
            Some(out) => {
                lemma_with_var_places(state, out);
            },
            None => {},
        },
    }
}

/// The pass over a list of nodes takes no place away.
pub proof fn lemma_with_nodes_places(state: RegAllocView, nodes: Seq<IrNodeView>)
    requires
        state.with_nodes(nodes) is Ok,
    ensures
        keeps_places(state, state.with_nodes(nodes)->Ok_0),
    decreases nodes.len(),
{
    if nodes.len() > 0 {
        let mid = state.with_nodes(nodes.drop_last())->Ok_0;
        let next = state.with_nodes(nodes)->Ok_0;
        lemma_with_nodes_places(state, nodes.drop_last());
        lemma_with_node_places(mid, nodes.last());
        assert forall|other: Seq<char>| (#[trigger] state.place_of(other)) is Some
            implies next.place_of(
            other,
        ) is Some by {
            assert(mid.place_of(other) is Some);
        }
    }
}

/// Rounding up to a multiple of a positive number gives a multiple that
/// is at least the number rounded and less than one step further.
pub proof fn lemma_align_up(x: int, a: int)
    requires
        a > 0,
    ensures
        x <= align_up(x, a) < x + a,
        align_up(x, a) % a == 0,
{
    let q = (x + a - 1) / a;
    assert(q * a <= x + a - 1 < q * a + a) by (nonlinear_arith)
        requires
            a > 0,
            q == (x + a - 1) / a,
    ;
    assert((q * a) % a == 0) by (nonlinear_arith)
        requires
            a > 0,
    ;
}

/// The register allocator.
#[derive(Debug, PartialEq, Eq)]
pub struct RegAlloc {
    /// The architecture that places are given for.
    pub arch: Arch,
    /// The variables that have a place.
    pub vars: Vec<FrameEntry>,
    /// The stack cursor: how much of the frame is handed out.
    pub stack_off: i64,
    /// The registers that are free, each in its alias of 64 bits.
    pub free_regs: Vec<x64Reg>,
    /// The largest value that the cursor may take.
    pub limit: i64,
}

impl View for RegAlloc {
    type V = RegAllocView;

    open spec fn view(&self) -> RegAllocView {
        RegAllocView {
            arch: self.arch,
            entries: entries_view(self.vars@),
            cursor: self.stack_off as int,
            free: self.free_regs@,
            limit: self.limit as int,
        }
    }
}

/// The registers that the allocator hands out on an architecture, the
/// last first: `r10` to `r15` on x86-64, none elsewhere. The registers
/// that carry arguments and the scratch registers of the lowering are
/// not among them.
pub open spec fn allocatable(arch: Arch) -> Seq<x64Reg> {
    if arch == Arch::X86_64 {
        seq![x64Reg::R15, x64Reg::R14, x64Reg::R13, x64Reg::R12, x64Reg::R11, x64Reg::R10]
    } else {
        seq![]
    }
}

/// The limit of a frame where none is asked for: the largest limit, and
/// on WebAssembly 50000 locals.
pub open spec fn default_limit(arch: Arch) -> int {
    if is_wasm(arch) {
        50000
    } else {
        MAX_FRAME_LIMIT as int
    }
}

impl RegAlloc {
    /// Whether the allocator is in order.
    pub open spec fn wf(self) -> bool {
        self@.wf()
    }

    /// Creates a new allocator for an architecture
    pub fn new(arch: Arch) -> (r: Self)
        ensures
            r.wf(),
            r@ == (RegAllocView {
                arch,
                entries: Seq::empty(),
                cursor: 0,
                free: allocatable(arch),
                limit: default_limit(arch),
            }),
    {
        let limit = match arch {
            Arch::Wasm32 | Arch::Wasm64 => 50000,
            _ => MAX_FRAME_LIMIT,
        };
        Self::with_limit(arch, limit)
    }

    /// Creates a new allocator whose frame stays within a limit
    pub fn with_limit(arch: Arch, limit: i64) -> (r: Self)
        requires
            0 <= limit <= MAX_FRAME_LIMIT,
        ensures
            r.wf(),
            r@ == (RegAllocView {
                arch,
                entries: Seq::empty(),
                cursor: 0,
                free: allocatable(arch),
                limit: limit as int,
            }),
    {
        let mut free_regs: Vec<x64Reg> = Vec::new();
        match arch {
            Arch::X86_64 => {
                free_regs.push(x64Reg::R15);
                free_regs.push(x64Reg::R14);
                free_regs.push(x64Reg::R13);
                free_regs.push(x64Reg::R12);
                free_regs.push(x64Reg::R11);
                free_regs.push(x64Reg::R10);
            },
            _ => {},
        }
        let r = RegAlloc { arch, vars: Vec::new(), stack_off: 0, free_regs, limit };
        assert(r@.entries =~= Seq::empty());
        assert(r@.free =~= allocatable(arch));
        r
    }

    fn on_wasm(&self) -> (r: bool)
        ensures
            r == is_wasm(self.arch),
    {
        match self.arch {
            Arch::Wasm32 | Arch::Wasm64 => true,
            _ => false,
        }
    }

    fn bytes_of(&self, ty: TypeMetadata) -> (r: i64)
        ensures
            r == slot_bytes(self.arch, ty),
            1 <= r <= 8,
    {
        if self.on_wasm() {
            1
        } else {
            let bits = ty.bitSize();
            if bits == 0 {
                8
            } else {
                (bits / 8) as i64
            }
        }
    }

    /// Returns the position of the entry of a variable
    pub fn find(&self, name: &String) -> (r: Option<usize>)
        ensures
            match r {
                Some(i) => i < self.vars@.len() && self.vars@[i as int].name@ == name@,
                None => self@.position(name@) is None,
            },
            self.wf() ==> (match r {
                Some(i) => Some(i as int),
                None => None,
            }) == self@.position(name@),
    {
        let mut i: usize = 0;
        while i < self.vars.len()
            invariant
                i <= self.vars@.len(),
                forall|j: int| 0 <= j < i ==> self@.entries[j].name != name@,
            decreases self.vars@.len() - i,
        {
            if self.vars[i].name == *name {
                assert(self@.entries[i as int].name == name@);
                return Some(i);
            }
            i += 1;
        }
        None
    }

    /// Returns the place of a variable
    pub fn place(&self, name: &String) -> (r: Option<MachineOperand>)
        requires
            self.wf(),
        ensures
            r == self@.place_of(name@),
    {
        match self.find(name) {
            Some(i) => Some(self.vars[i].loc),
            None => None,
        }
    }

    /// Returns the recorded type of a variable
    pub fn type_of(&self, name: &String) -> (r: Option<TypeMetadata>)
        requires
            self.wf(),
        ensures
            r == self@.type_of(name@),
    {
        match self.find(name) {
            Some(i) => Some(self.vars[i].ty),
            None => None,
        }
    }

    /// Gives the next value of a type a place of its own: a free register
    /// if there is one, else a new slot of the frame.
    pub fn alloc_rv(&mut self, ty: TypeMetadata) -> (r: Result<MachineOperand, AllocError>)
        requires
            old(self).wf(),
        ensures
            r == old(self)@.next_place(ty),
            r is Ok ==> final(self)@ == old(self)@.after_place(ty),
            r is Err ==> *final(self) == *old(self),
            final(self).wf(),
    {
        proof {
            if old(self)@.next_place(ty) is Ok {
                old(self)@.lemma_next_place_is_fresh(ty);
            }
        }
        if self.free_regs.len() > 0 && !ty.float() {
            let reg = match self.free_regs.pop() {
                Some(reg) => reg,
                None => x64Reg::Rax,
            };
            assert(self.free_regs@ =~= old(self).free_regs@.drop_last());
            return Ok(MachineOperand::Reg(Reg::x64(reg.sub_ty(ty))));
        }
        self.alloc_stack(ty)
    }

    /// Gives the next value of a type a new slot of the frame.
    pub fn alloc_stack(&mut self, ty: TypeMetadata) -> (r: Result<MachineOperand, AllocError>)
        requires
            old(self).wf(),
        ensures
            r == old(self)@.next_slot(ty),
            r is Ok ==> final(self)@ == (RegAllocView {
                cursor: old(self)@.cursor_after(ty),
                ..old(self)@
            }),
            r is Err ==> *final(self) == *old(self),
            final(self).wf(),
    {
        proof {
            if old(self)@.next_slot(ty) is Ok {
                old(self)@.lemma_next_slot_is_fresh(ty);
                old(self)@.lemma_cursor_keeps_wf(old(self)@.cursor_after(ty));
            }
        }
        let size = self.bytes_of(ty);
        if self.on_wasm() {
            if self.stack_off + 1 > self.limit {
                return Err(AllocError::OutOfStack(self.limit));
            }
            let slot = self.stack_off;
            self.stack_off = self.stack_off + 1;
            Ok(MachineOperand::Stack(slot))
        } else {
            let total = self.stack_off + size;
            let steps = (total + size - 1) / size;
            proof {
                lemma_align_up(total as int, size as int);
                assert(steps * size == align_up(total as int, size as int));
            }
            let end = steps * size;
            if end > self.limit {
                return Err(AllocError::OutOfStack(self.limit));
            }
            self.stack_off = end;
            Ok(MachineOperand::Stack(end))
        }
    }

    /// Records the place and the type of a variable. A variable that has a
    /// place already gets the new one in its stead.
    pub fn insert(&mut self, name: String, loc: MachineOperand, ty: TypeMetadata)
        requires
            old(self).wf(),
        ensures
            final(self)@ == (RegAllocView {
                entries: old(self)@.recorded(name@, loc, ty),
                ..old(self)@
            }),
    {
        let found = self.find(&name);
        let entry = FrameEntry { name, loc, ty };
        match found {
            Some(i) => {
                self.vars.set(i, entry);
                assert(entries_view(self.vars@) =~= old(self)@.entries.update(i as int, entry@));
            },
            None => {
                self.vars.push(entry);
                assert(entries_view(self.vars@) =~= old(self)@.entries.push(entry@));
            },
        }
    }

    /// Gives a variable a place.
    pub fn prep_var(&mut self, var: &Var) -> (r: Result<(), AllocError>)
        requires
            old(self).wf(),
        ensures
            match r {
                Ok(()) => old(self)@.with_var(var@) == Ok::<RegAllocView, AllocError>(final(self)@)
                    && final(self).wf(),
                Err(e) => old(self)@.with_var(var@) == Err::<RegAllocView, AllocError>(e)
                    && *final(self) == *old(self),
            },
    {
        let location = self.alloc_rv(var.ty)?;
        proof {
            old(self)@.lemma_with_var_keeps_wf(var@);
        }
        self.insert(var.name.clone(), location, var.ty);
        Ok(())
    }

    /// Gives a value of a type a slot of the frame and records it under a
    /// name.
    pub fn prep_slot(&mut self, name: String, ty: TypeMetadata) -> (r: Result<(), AllocError>)
        requires
            old(self).wf(),
        ensures
            match r {
                Ok(()) => old(self)@.with_slot(name@, ty) == Ok::<RegAllocView, AllocError>(
                    final(self)@,
                ) && final(self).wf(),
                Err(e) => old(self)@.with_slot(name@, ty) == Err::<RegAllocView, AllocError>(e)
                    && *final(self) == *old(self),
            },
    {
        let ghost start = self@;
        let location = self.alloc_stack(ty)?;
        proof {
            start.lemma_with_slot_keeps_wf(name@, ty);
            assert(self@.position(name@) == start.position(name@));
        }
        self.insert(name, location, ty);
        Ok(())
    }

    /// The pass over one node: the output of the node, if it has one, is
    /// given a place and recorded with its type. For a stack allocation
    /// the slot is handed out first.
    pub fn prep(&mut self, node: &IrNode) -> (r: Result<(), AllocError>)
        requires
            old(self).wf(),
        ensures
            match r {
                Ok(()) => old(self)@.with_node(node@) == Ok::<RegAllocView, AllocError>(
                    final(self)@,
                ),
                Err(e) => old(self)@.with_node(node@) == Err::<RegAllocView, AllocError>(e),
            },
            final(self).wf(),
    {
        match node {
            IrNode::Alloca { out, ty } => {
                let mut name = out.name.clone();
                proof {
                    reveal_strlit("$");
                }
                name.append("$");
                assert(name@ =~= slot_name(out.name@));
                self.prep_slot(name, *ty)?;
                self.prep_var(out)
            },
            _ => match node.output() {
                Some(out) => self.prep_var(&out),
                None => Ok(()),
            },
        }
    }

    /// The pass over a list of nodes in order.
    pub fn prep_nodes(&mut self, nodes: &Vec<IrNode>) -> (r: Result<(), AllocError>)
        requires
            old(self).wf(),
        ensures
            match r {
                Ok(()) => old(self)@.with_nodes(nodes_view(nodes@)) == Ok::<
                    RegAllocView,
                    AllocError,
                >(final(self)@),
                Err(e) => old(self)@.with_nodes(nodes_view(nodes@)) == Err::<
                    RegAllocView,
                    AllocError,
                >(e),
            },
            final(self).wf(),
    {
        let ghost all = nodes_view(nodes@);
        let ghost start = self@;
        let mut i: usize = 0;
        while i < nodes.len()
            invariant
                i <= nodes@.len(),
                all == nodes_view(nodes@),
                start == old(self)@,
                self.wf(),
                start.with_nodes(all.take(i as int)) == Ok::<RegAllocView, AllocError>(self@),
            decreases nodes@.len() - i,
        {
            proof {
                assert(all.take(i + 1).drop_last() =~= all.take(i as int));
                assert(all.take(i + 1).last() == nodes@[i as int]@);
            }
            match self.prep(&nodes[i]) {
                Ok(()) => {},
                Err(e) => {
                    proof {
                        lemma_alloc_error_stays(start, all, i + 1);
                    }
                    return Err(e);
                },
            }
            i += 1;
        }
        proof {
            assert(all.take(nodes@.len() as int) =~= all);
        }
        Ok(())
    }

    /// Returns the size of the frame in bytes: the stack cursor rounded up
    /// to a multiple of eight.
    pub fn frame_size(&self) -> (r: i64)
        requires
            self.wf(),
        ensures
            r == self@.frame_size(),
    {
        let steps = (self.stack_off + 7) / 8;
        proof {
            lemma_align_up(self.stack_off as int, 8);
            assert(steps * 8 == align_up(self.stack_off as int, 8));
        }
        steps * 8
    }
}

/// Once the pass over a prefix of a list fails, the pass over the list
/// fails with the same error.
pub proof fn lemma_alloc_error_stays(state: RegAllocView, nodes: Seq<IrNodeView>, n: int)
    requires
        0 <= n <= nodes.len(),
        state.with_nodes(nodes.take(n)) is Err,
    ensures
        state.with_nodes(nodes) == state.with_nodes(nodes.take(n)),
    decreases nodes.len(),
{
    if n == nodes.len() {
        assert(nodes.take(n) =~= nodes);
    } else {
        assert(nodes.drop_last().take(n) =~= nodes.take(n));
        lemma_alloc_error_stays(state, nodes.drop_last(), n);
    }
}

} // verus!
