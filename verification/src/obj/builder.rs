//! The declarations, definitions and relocations of one object file, as
//! the writer of object files takes them.
use vstd::prelude::*;
use crate::ir::func::Linkage;
use crate::obj::link::{Link, links_view};
use crate::target::triple::Triple;

verus! {

/// What a declared symbol is.
#[derive(Debug, Clone, Copy, PartialEq, Eq, Hash, Structural)]
pub enum Decl {
    /// A function.
    Function,
    /// Data that can be written.
    Data,
    /// Data that cannot be written.
    Constant,
}

/// The flags in the header of an object file, by format.
#[derive(Debug, Clone, Copy, PartialEq, Eq, Hash, Structural)]
pub enum FileFlags {
    /// The characteristics of a COFF file.
    Coff { characteristics: u16 },
    /// The three fields of an ELF file that tell its kind.
    Elf { os_abi: u8, abi_version: u8, e_flags: u32 },
    /// The flags of a Mach-O file.
    MachO { flags: u32 },
}

/// A declaration: a name, what it names and how it is linked.
#[derive(Debug, PartialEq, Eq)]
pub struct Declaration {
    /// The name of the symbol.
    pub name: String,
    /// What the symbol is.
    pub decl: Decl,
    /// How the symbol is linked.
    pub linkage: Linkage,
}

/// What a declaration denotes.
pub struct DeclarationView {
    pub name: Seq<char>,
    pub decl: Decl,
    pub linkage: Linkage,
}

impl View for Declaration {
    type V = DeclarationView;

    open spec fn view(&self) -> DeclarationView {
        DeclarationView { name: self.name@, decl: self.decl, linkage: self.linkage }
    }
}

/// What a list of declarations denotes.
pub open spec fn decls_view(s: Seq<Declaration>) -> Seq<DeclarationView> {
    s.map_values(|d: Declaration| d@)
}

/// A definition: the bytes of a symbol.
#[derive(Debug, PartialEq, Eq)]
pub struct Definition {
    /// The name of the symbol.
    pub name: String,
    /// The bytes of the symbol.
    pub data: Vec<u8>,
}

/// The builder of an object file.
#[derive(Debug, PartialEq, Eq)]
pub struct ObjectBuilder {
    /// What the file is built for.
    pub triple: Triple,
    /// The declared symbols, in the order of their declaration.
    pub decls: Vec<Declaration>,
    /// The defined symbols; no name occurs twice.
    pub defines: Vec<Definition>,
    /// The relocations.
    pub links: Vec<Link>,
    /// The flags of the file header, if any are asked for.
    pub flags: Option<FileFlags>,
}

impl ObjectBuilder {
    /// The position of the definition of a name, if the name is defined.
    pub open spec fn position(self, name: Seq<char>) -> Option<int> {
        if exists|i: int| 0 <= i < self.defines@.len() && self.defines@[i].name@ == name {
            Some(choose|i: int| 0 <= i < self.defines@.len() && self.defines@[i].name@ == name)
        } else {
            None
        }
    }

    /// The definitions as a map from names to bytes.
    pub open spec fn defined(self) -> Map<Seq<char>, Seq<u8>> {
        Map::new(
            |name: Seq<char>| self.position(name) is Some,
            |name: Seq<char>| self.defines@[self.position(name)->0].data@,
        )
    }

    /// The invariant of the builder: no name is defined twice.
    pub open spec fn wf(self) -> bool {
        forall|i: int, j: int|
            0 <= i < self.defines@.len() && 0 <= j < self.defines@.len() && i != j
                ==> self.defines@[i].name@ != self.defines@[j].name@
    }

    /// Creates a new object builder
    pub fn new(triple: Triple) -> (r: Self)
        ensures
            r.wf(),
            r.triple == triple,
            r.decls@.len() == 0,
            r.defined() == Map::<Seq<char>, Seq<u8>>::empty(),
            r.links@.len() == 0,
            r.flags is None,
    {
        ObjectBuilder {
            triple,
            decls: Vec::new(),
            defines: Vec::new(),
            links: Vec::new(),
            flags: None,
        }
    }

    /// Adds a declaration
    pub fn decl(&mut self, name: &str, decl: Decl, linkage: Linkage)
        ensures
            decls_view(final(self).decls@) == decls_view(old(self).decls@).push(
                DeclarationView { name: name@, decl, linkage },
            ),
            final(self).defines == old(self).defines,
            final(self).links == old(self).links,
            final(self).flags == old(self).flags,
            final(self).triple == old(self).triple,
    {
        let entry = Declaration { name: String::from_str(name), decl, linkage };
        self.decls.push(entry);
        assert(decls_view(self.decls@) =~= decls_view(old(self).decls@).push(entry@));
    }

    /// Returns the position of the definition of a name
    pub fn find(&self, name: &str) -> (r: Option<usize>)
        ensures
            match r {
                Some(i) => i < self.defines@.len() && self.defines@[i as int].name@ == name@,
                None => forall|j: int| 0 <= j < self.defines@.len() ==>
                    self.defines@[j].name@ != name@,
            },
    {
        let wanted = String::from_str(name);
        let mut i: usize = 0;
        while i < self.defines.len()
            invariant
                i <= self.defines@.len(),
                wanted@ == name@,
                forall|j: int| 0 <= j < i ==> self.defines@[j].name@ != name@,
            decreases self.defines@.len() - i,
        {
            if self.defines[i].name == wanted {
                return Some(i);
            }
            i += 1;
        }
        None
    }

    /// Defines a symbol: the bytes take the place of what the symbol was
    /// defined as before, if it was defined.
    pub fn define(&mut self, name: &str, data: Vec<u8>)
        requires
            old(self).wf(),
        ensures
            final(self).wf(),
            final(self).defined() == old(self).defined().insert(name@, data@),
            final(self).decls == old(self).decls,
            final(self).links == old(self).links,
            final(self).flags == old(self).flags,
            final(self).triple == old(self).triple,
    {
        let found = self.find(name);
        let entry = Definition { name: String::from_str(name), data };
        match found {
            Some(p) => {
                self.defines.set(p, entry);
                proof {
                    assert forall|k: int| 0 <= k < self.defines@.len()
                        implies self.defines@[k].name@
                        == old(self).defines@[k].name@ by {}
                    assert(self.wf());
                    Self::lemma_same_names(*old(self), *self);
                    assert(self.position(name@) == Some(p as int)) by {
                        let q = self.position(name@)->0;
                        assert(self.defines@[p as int].name@ == name@);
                    }
                    assert(self.defined() =~= old(self).defined().insert(name@, data@)) by {
                        assert forall|other: Seq<char>| self.defined().contains_key(other) implies (
                        #[trigger] self.defined()[other]) == old(self).defined().insert(
                            name@,
                            data@,
                        )[other] by {
                            let q = self.position(other)->0;
                            assert(old(self).position(other) == Some(q));
                        }
                    }
                }
            },
            None => {
                self.defines.push(entry);
                proof {
                    let n = old(self).defines@.len() as int;
                    assert(self.defines@[n].name@ == name@);
                    assert(self.wf());
                    assert(old(self).position(name@) is None);
                    assert(self.position(name@) == Some(n)) by {
                        let q = self.position(name@)->0;
                        if q != n {
                            assert(old(self).defines@[q].name@ == name@);
                        }
                    }
                    assert forall|other: Seq<char>| other != name@ implies self.position(other)
                        == old(self).position(other) by {
                        if old(self).position(other) is Some {
                            let q = old(self).position(other)->0;
                            assert(self.defines@[q].name@ == other);
                            let q2 = self.position(other)->0;
                            assert(q2 != n);
                            assert(old(self).defines@[q2].name@ == other);
                        } else if self.position(other) is Some {
                            let q2 = self.position(other)->0;
                            assert(q2 != n);
                            assert(old(self).defines@[q2].name@ == other);
                        }
                    }
                    assert(self.defined() =~= old(self).defined().insert(name@, data@));
                }
            },
        }
    }

    /// Two builders whose definitions have the same names at the same
    /// positions find every name at the same position.
    proof fn lemma_same_names(a: ObjectBuilder, b: ObjectBuilder)
        requires
            a.wf(),
            b.wf(),
            a.defines@.len() == b.defines@.len(),
            forall|k: int| 0 <= k < a.defines@.len() ==> a.defines@[k].name@ == b.defines@[k].name@,
        ensures
            forall|name: Seq<char>| a.position(name) == b.position(name),
    {
        assert forall|name: Seq<char>| a.position(name) == b.position(name) by {
            if a.position(name) is Some {
                let q = a.position(name)->0;
                assert(b.defines@[q].name@ == name);
                let q2 = b.position(name)->0;
                assert(a.defines@[q2].name@ == name);
            } else if b.position(name) is Some {
                let q2 = b.position(name)->0;
                assert(a.defines@[q2].name@ == name);
            }
        }
    }

    /// Adds a relocation
    pub fn link(&mut self, link: Link)
        ensures
            links_view(final(self).links@) == links_view(old(self).links@).push(link@),
            final(self).decls == old(self).decls,
            final(self).defines == old(self).defines,
            final(self).flags == old(self).flags,
            final(self).triple == old(self).triple,
    {
        self.links.push(link);
        assert(links_view(self.links@) =~= links_view(old(self).links@).push(link@));
    }
}

} // verus!
