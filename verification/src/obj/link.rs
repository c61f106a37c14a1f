//! Relocations: the places of the emitted bytes that still await an
//! address.
use vstd::prelude::*;

verus! {

/// How the address is written into the bytes.
#[derive(Debug, Clone, Copy, PartialEq, Eq, Hash, Structural)]
pub enum LinkKind {
    /// The address itself, in 32 bits.
    Absolute32,
    /// The address itself, in 64 bits.
    Absolute64,
    /// The distance from the place to the address, in 32 bits.
    PcRelative32,
}

/// A relocation.
#[derive(Debug, PartialEq, Eq, Hash)]
pub struct Link {
    /// The function whose bytes hold the place.
    pub from: String,
    /// The symbol or block whose address is wanted.
    pub to: String,
    /// The offset in the bytes of the function at which the field begins
    /// that awaits the address.
    pub at: usize,
    /// What is added to the address.
    pub addend: i64,
    /// How the address is written.
    pub kind: LinkKind,
    /// Whether `to` names a block of the function rather than a symbol.
    pub to_block: bool,
}

/// What a relocation denotes.
pub struct LinkView {
    pub from: Seq<char>,
    pub to: Seq<char>,
    pub at: usize,
    pub addend: i64,
    pub kind: LinkKind,
    pub to_block: bool,
}

impl View for Link {
    type V = LinkView;

    open spec fn view(&self) -> LinkView {
        LinkView {
            from: self.from@,
            to: self.to@,
            at: self.at,
            addend: self.addend,
            kind: self.kind,
            to_block: self.to_block,
        }
    }
}

impl Clone for Link {
    fn clone(&self) -> (r: Self)
        ensures
            r == *self,
    {
        Link {
            from: self.from.clone(),
            to: self.to.clone(),
            at: self.at,
            addend: self.addend,
            kind: self.kind,
            to_block: self.to_block,
        }
    }
}

/// What a list of relocations denotes.
pub open spec fn links_view(s: Seq<Link>) -> Seq<LinkView> {
    s.map_values(|l: Link| l@)
}

/// What a link that may be absent denotes.
pub open spec fn link_opt_view(link: Option<Link>) -> Option<LinkView> {
    match link {
        Some(l) => Some(l@),
        None => None,
    }
}


} // verus!
