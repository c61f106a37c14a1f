//! Shared libraries: object files whose header says so.
use vstd::prelude::*;
use crate::ir::func::Linkage;
use crate::obj::builder::{Decl, DeclarationView, FileFlags, ObjectBuilder, decls_view};
use crate::target::triple::{ObjFormat, Triple};

verus! {

/// Why an object cannot be built.
#[derive(Debug, Clone, Copy, PartialEq, Eq, Structural)]
pub enum ObjError {
    /// The format has no shared libraries.
    UnsupportedFormat(ObjFormat),
}

/// Reads `object::pe::IMAGE_FILE_DLL`. Trusted: the characteristic of a
/// COFF file that is a dynamic link library, `0x2000`.
#[verifier::external_body]
fn coff_dll_characteristic() -> (r: u16)
    ensures
        r == 0x2000,
{
    object::pe::IMAGE_FILE_DLL
}

/// Reads `object::elf::ELFOSABI_SYSV`. Trusted: the number of the System
/// V application binary interface in an ELF header, 0.
#[verifier::external_body]
fn elf_sysv_abi() -> (r: u8)
    ensures
        r == 0,
{
    object::elf::ELFOSABI_SYSV
}

/// Reads `object::elf::ET_DYN`. Trusted: the type of an ELF file that is a
/// shared object, 3.
#[verifier::external_body]
fn elf_shared_object_type() -> (r: u32)
    ensures
        r == 3,
{
    object::elf::ET_DYN as u32
}

/// Reads `object::macho::MH_DYLIB`. Trusted: the type of a Mach-O file
/// that is a dynamically bound shared library, 6.
#[verifier::external_body]
fn macho_dylib_type() -> (r: u32)
    ensures
        r == 6,
{
    object::macho::MH_DYLIB
}

/// The flags that mark a file of a format as a shared library: the
/// characteristic `IMAGE_FILE_DLL` for COFF, the file type `ET_DYN` under
/// the System V interface for ELF, the file type `MH_DYLIB` for Mach-O.
/// Other formats have no shared libraries.
pub open spec fn shared_library_flags(bin: ObjFormat) -> Option<FileFlags> {
    match bin {
        ObjFormat::Coff => Some(FileFlags::Coff { characteristics: 0x2000 }),
        ObjFormat::Elf => Some(FileFlags::Elf { os_abi: 0, abi_version: 0, e_flags: 3 }),
        ObjFormat::MachO => Some(FileFlags::MachO { flags: 6 }),
        _ => None,
    }
}

/// The dll builder: used for creating shared libaries like .dlls, .so, .dylib
///
/// It can't have relocs (links) so it need to be already linked
#[derive(Debug, PartialEq, Eq)]
pub struct DllBuilder {
    wrapper: ObjectBuilder,
    triple: Triple,
}

impl DllBuilder {
    /// The invariant of the builder: no name is defined twice in its object.
    pub closed spec fn wf(self) -> bool {
        self.wrapper.wf()
    }

    /// The object that the builder fills.
    pub closed spec fn object(self) -> ObjectBuilder {
        self.wrapper
    }

    /// What the library is built for.
    pub closed spec fn target(self) -> Triple {
        self.triple
    }

    /// Creates a new dll builder
    pub fn new(triple: Triple) -> (r: Result<Self, ObjError>)
        ensures
            match r {
                Ok(dll) => shared_library_flags(triple.bin) is Some && dll.object().flags
                    == shared_library_flags(triple.bin) && dll.wf() && dll.object().triple
                    == triple && dll.target() == triple && dll.object().decls@.len() == 0
                    && dll.object().defined() == Map::<Seq<char>, Seq<u8>>::empty()
                    && dll.object().links@.len() == 0,
                Err(e) => shared_library_flags(triple.bin) is None && e
                    == ObjError::UnsupportedFormat(triple.bin),
            },
    {
        let mut obj = ObjectBuilder::new(triple);

        obj.flags = Some(
            match triple.bin {
                ObjFormat::Coff => FileFlags::Coff { characteristics: coff_dll_characteristic() },
                ObjFormat::Elf => FileFlags::Elf {
                    os_abi: elf_sysv_abi(),
                    abi_version: 0,
                    e_flags: elf_shared_object_type(),
                },
                ObjFormat::MachO => FileFlags::MachO { flags: macho_dylib_type() },
                _ => {
                    return Err(ObjError::UnsupportedFormat(triple.bin));
                },
            },
        );

        Ok(Self { wrapper: obj, triple: triple })
    }

    /// Adds one decl to the function
    pub fn decl(&mut self, decl: (&str, Decl, Linkage))
        ensures
            old(self).wf() ==> final(self).wf(),
            decls_view(final(self).object().decls@) == decls_view(old(self).object().decls@).push(
                DeclarationView { name: decl.0@, decl: decl.1, linkage: decl.2 },
            ),
            final(self).object().defines == old(self).object().defines,
            final(self).object().links == old(self).object().links,
            final(self).object().flags == old(self).object().flags,
            final(self).object().triple == old(self).object().triple,
            final(self).target() == old(self).target(),
    {
        self.wrapper.decl(decl.0, decl.1, decl.2);
    }

    /// Defines a symbol
    pub fn define(&mut self, name: &str, data: Vec<u8>)
        requires
            old(self).wf(),
        ensures
            final(self).wf(),
            final(self).object().defined() == old(self).object().defined().insert(name@, data@),
            final(self).object().decls == old(self).object().decls,
            final(self).object().links == old(self).object().links,
            final(self).object().flags == old(self).object().flags,
            final(self).object().triple == old(self).object().triple,
            final(self).target() == old(self).target(),
    {
        self.wrapper.define(name, data);
    }

    /// The flags of the header of the library.
    pub fn flags(&self) -> (r: Option<FileFlags>)
        ensures
            r == self.object().flags,
    {
        self.wrapper.flags
    }

    /// The object that the builder has filled.
    pub fn into_object(self) -> (r: ObjectBuilder)
        ensures
            r == self.object(),
            self.wf() ==> r.wf(),
    {
        self.wrapper
    }

    /// The object that the builder fills.
    pub fn as_object(&self) -> (r: &ObjectBuilder)
        ensures
            *r == self.object(),
            self.wf() ==> r.wf(),
    {
        &self.wrapper
    }
}

} // verus!
