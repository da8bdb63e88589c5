//! Attribution of code addresses to the modules that are loaded into a
//! process.

use vstd::prelude::*;

verus! {

/// One loaded module: the address at which it starts, the size of its image
/// and its handle.
#[derive(Debug, Clone, Copy, PartialEq, Eq, Structural)]
pub struct ModuleRange {
    pub base: usize,
    pub size: usize,
    pub module: isize,
}

impl ModuleRange {
    /// Whether `addr` lies in the image of the module.
    pub open spec fn spec_contains(self, addr: usize) -> bool {
        self.base <= addr < self.base + self.size
    }

    /// Whether `addr` lies in the image of the module.
    pub fn contains(&self, addr: usize) -> (inside: bool)
        ensures
            inside == self.spec_contains(addr),
    {
        addr >= self.base && addr - self.base < self.size
    }
}

/// The modules of a process in the order in which the process lists them.
#[derive(Debug)]
pub struct AddressModuleMapper {
    modules: Vec<ModuleRange>,
}

impl View for AddressModuleMapper {
    type V = Seq<ModuleRange>;

    closed spec fn view(&self) -> Seq<ModuleRange> {
        self.modules@
    }
}

/// Whether module `index` is the first one whose image holds `addr`.
pub open spec fn spec_is_first_module(modules: Seq<ModuleRange>, addr: usize, index: int) -> bool {
    &&& 0 <= index < modules.len()
    &&& modules[index].spec_contains(addr)
    &&& forall|j: int| 0 <= j < index ==> !(#[trigger] modules[j]).spec_contains(addr)
}

impl AddressModuleMapper {
    /// The mapper over the listed modules.
    pub fn from_modules(modules: Vec<ModuleRange>) -> (mapper: Self)
        ensures
            mapper@ == modules@,
    {
        AddressModuleMapper { modules }
    }

    /// The handle of the first listed module whose image holds `addr`, if
    /// there is one.
    pub fn get_module(&self, addr: usize) -> (module: Option<isize>)
        ensures
            match module {
                Some(handle) => exists|i: int|
                    spec_is_first_module(self@, addr, i) && handle == self@[i].module,
                None => forall|j: int|
                    0 <= j < self@.len() ==> !(#[trigger] self@[j]).spec_contains(addr),
            },
    {
        let mut i: usize = 0;
        while i < self.modules.len()
            invariant
                i <= self.modules@.len(),
                forall|j: int| 0 <= j < i ==> !(#[trigger] self.modules@[j]).spec_contains(addr),
            decreases self.modules@.len() - i,
        {
            if self.modules[i].contains(addr) {
                proof {
                    assert(spec_is_first_module(self@, addr, i as int));
                }
                return Some(self.modules[i].module);
            }
            i = i + 1;
        }
        None
    }
}

} // verus!
