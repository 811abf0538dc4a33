use crate::from_memory::FromMemory;
use crate::pe::data_directory::DataDirectory;
use crate::pe::rva::RVA;
use vstd::prelude::*;

verus! {

/// The sixteen data directories of an optional header: fifteen with a
/// name, and one that is reserved.
#[derive(Clone, Copy, Debug, PartialEq, Eq, Structural)]
pub struct DataDirectories {
    /// The export table.
    pub export: DataDirectory,
    /// The import table.
    pub import: DataDirectory,
    /// The resource table.
    pub resource: DataDirectory,
    /// The exception table.
    pub exception: DataDirectory,
    /// The certificate table.
    pub security: DataDirectory,
    /// The base relocation table.
    pub basereloc: DataDirectory,
    /// Debugging information.
    pub debug: DataDirectory,
    /// Architecture-specific data.
    pub architecture: DataDirectory,
    /// The address of the value for the global pointer register.
    pub globalptr: DataDirectory,
    /// Thread local storage.
    pub tls: DataDirectory,
    /// The load configuration table.
    pub load_config: DataDirectory,
    /// The bound import table.
    pub bound_imports: DataDirectory,
    /// The import address table.
    pub iat: DataDirectory,
    /// The delay import descriptor.
    pub delay_import: DataDirectory,
    /// The COM runtime descriptor.
    pub com_descriptor: DataDirectory,
    /// The last slot, which the format reserves.
    pub reserved: DataDirectory,
}

impl FromMemory for DataDirectories {
    open spec fn raw_size() -> nat {
        128
    }

    open spec fn decoded(bytes: Seq<u8>, at: int) -> Self {
        DataDirectories {
            export: <DataDirectory as FromMemory>::decoded(bytes, at),
            import: <DataDirectory as FromMemory>::decoded(bytes, at + 8),
            resource: <DataDirectory as FromMemory>::decoded(bytes, at + 16),
            exception: <DataDirectory as FromMemory>::decoded(bytes, at + 24),
            security: <DataDirectory as FromMemory>::decoded(bytes, at + 32),
            basereloc: <DataDirectory as FromMemory>::decoded(bytes, at + 40),
            debug: <DataDirectory as FromMemory>::decoded(bytes, at + 48),
            architecture: <DataDirectory as FromMemory>::decoded(bytes, at + 56),
            globalptr: <DataDirectory as FromMemory>::decoded(bytes, at + 64),
            tls: <DataDirectory as FromMemory>::decoded(bytes, at + 72),
            load_config: <DataDirectory as FromMemory>::decoded(bytes, at + 80),
            bound_imports: <DataDirectory as FromMemory>::decoded(bytes, at + 88),
            iat: <DataDirectory as FromMemory>::decoded(bytes, at + 96),
            delay_import: <DataDirectory as FromMemory>::decoded(bytes, at + 104),
            com_descriptor: <DataDirectory as FromMemory>::decoded(bytes, at + 112),
            reserved: <DataDirectory as FromMemory>::decoded(bytes, at + 120),
        }
    }

    proof fn decoded_is_local(a: Seq<u8>, at_a: int, b: Seq<u8>, at_b: int) {
        <DataDirectory as FromMemory>::decoded_is_local(a, at_a, b, at_b);
        <DataDirectory as FromMemory>::decoded_is_local(a, at_a + 8, b, at_b + 8);
        <DataDirectory as FromMemory>::decoded_is_local(a, at_a + 16, b, at_b + 16);
        <DataDirectory as FromMemory>::decoded_is_local(a, at_a + 24, b, at_b + 24);
        <DataDirectory as FromMemory>::decoded_is_local(a, at_a + 32, b, at_b + 32);
        <DataDirectory as FromMemory>::decoded_is_local(a, at_a + 40, b, at_b + 40);
        <DataDirectory as FromMemory>::decoded_is_local(a, at_a + 48, b, at_b + 48);
        <DataDirectory as FromMemory>::decoded_is_local(a, at_a + 56, b, at_b + 56);
        <DataDirectory as FromMemory>::decoded_is_local(a, at_a + 64, b, at_b + 64);
        <DataDirectory as FromMemory>::decoded_is_local(a, at_a + 72, b, at_b + 72);
        <DataDirectory as FromMemory>::decoded_is_local(a, at_a + 80, b, at_b + 80);
        <DataDirectory as FromMemory>::decoded_is_local(a, at_a + 88, b, at_b + 88);
        <DataDirectory as FromMemory>::decoded_is_local(a, at_a + 96, b, at_b + 96);
        <DataDirectory as FromMemory>::decoded_is_local(a, at_a + 104, b, at_b + 104);
        <DataDirectory as FromMemory>::decoded_is_local(a, at_a + 112, b, at_b + 112);
        <DataDirectory as FromMemory>::decoded_is_local(a, at_a + 120, b, at_b + 120);
    }

    fn size() -> (n: usize) {
        128
    }

    fn from_raw(bytes: &[u8], at: usize) -> (value: Self) {
        DataDirectories {
            export: <DataDirectory as FromMemory>::from_raw(bytes, at),
            import: <DataDirectory as FromMemory>::from_raw(bytes, at + 8),
            resource: <DataDirectory as FromMemory>::from_raw(bytes, at + 16),
            exception: <DataDirectory as FromMemory>::from_raw(bytes, at + 24),
            security: <DataDirectory as FromMemory>::from_raw(bytes, at + 32),
            basereloc: <DataDirectory as FromMemory>::from_raw(bytes, at + 40),
            debug: <DataDirectory as FromMemory>::from_raw(bytes, at + 48),
            architecture: <DataDirectory as FromMemory>::from_raw(bytes, at + 56),
            globalptr: <DataDirectory as FromMemory>::from_raw(bytes, at + 64),
            tls: <DataDirectory as FromMemory>::from_raw(bytes, at + 72),
            load_config: <DataDirectory as FromMemory>::from_raw(bytes, at + 80),
            bound_imports: <DataDirectory as FromMemory>::from_raw(bytes, at + 88),
            iat: <DataDirectory as FromMemory>::from_raw(bytes, at + 96),
            delay_import: <DataDirectory as FromMemory>::from_raw(bytes, at + 104),
            com_descriptor: <DataDirectory as FromMemory>::from_raw(bytes, at + 112),
            reserved: <DataDirectory as FromMemory>::from_raw(bytes, at + 120),
        }
    }
}

impl DataDirectories {
    /// How many directories have a name.
    pub const NAMED: usize = 15;

    /// The directories that describe nothing, all sixteen.
    pub open spec fn spec_empty() -> Self {
        let none = DataDirectory { virtual_address: RVA(0), size: 0 };
        DataDirectories {
            export: none,
            import: none,
            resource: none,
            exception: none,
            security: none,
            basereloc: none,
            debug: none,
            architecture: none,
            globalptr: none,
            tls: none,
            load_config: none,
            bound_imports: none,
            iat: none,
            delay_import: none,
            com_descriptor: none,
            reserved: none,
        }
    }

    /// The directories that describe nothing, all sixteen.
    pub fn empty() -> (r: Self)
        ensures
            r == Self::spec_empty(),
    {
        let none = DataDirectory::empty();
        DataDirectories {
            export: none,
            import: none,
            resource: none,
            exception: none,
            security: none,
            basereloc: none,
            debug: none,
            architecture: none,
            globalptr: none,
            tls: none,
            load_config: none,
            bound_imports: none,
            iat: none,
            delay_import: none,
            com_descriptor: none,
            reserved: none,
        }
    }

    /// The named directories in the order of the format.
    pub open spec fn spec_named(self) -> Seq<DataDirectory> {
        seq![
            self.export,
            self.import,
            self.resource,
            self.exception,
            self.security,
            self.basereloc,
            self.debug,
            self.architecture,
            self.globalptr,
            self.tls,
            self.load_config,
            self.bound_imports,
            self.iat,
            self.delay_import,
            self.com_descriptor,
        ]
    }

    /// The name of the directory at `index`.
    pub open spec fn spec_name(index: int) -> &'static str {
        if index == 0 {
            "export"
        } else if index == 1 {
            "import"
        } else if index == 2 {
            "resource"
        } else if index == 3 {
            "exception"
        } else if index == 4 {
            "security"
        } else if index == 5 {
            "basereloc"
        } else if index == 6 {
            "debug"
        } else if index == 7 {
            "architecture"
        } else if index == 8 {
            "globalptr"
        } else if index == 9 {
            "tls"
        } else if index == 10 {
            "load_config"
        } else if index == 11 {
            "bound_imports"
        } else if index == 12 {
            "iat"
        } else if index == 13 {
            "delay_import"
        } else {
            "com_descriptor"
        }
    }

    /// The named directories, each with its name, in the order of the
    /// format. The reserved slot is left out.
    pub fn iter_name_dd(&self) -> (r: Vec<(&'static str, DataDirectory)>)
        ensures
            r@.len() == Self::NAMED,
            forall|i: int|
                0 <= i < Self::NAMED ==> (#[trigger] r@[i]).0 == Self::spec_name(i) && r@[i].1
                    == self.spec_named()[i],
    {
        let mut list: Vec<(&'static str, DataDirectory)> = Vec::new();
        list.push(("export", self.export));
        list.push(("import", self.import));
        list.push(("resource", self.resource));
        list.push(("exception", self.exception));
        list.push(("security", self.security));
        list.push(("basereloc", self.basereloc));
        list.push(("debug", self.debug));
        list.push(("architecture", self.architecture));
        list.push(("globalptr", self.globalptr));
        list.push(("tls", self.tls));
        list.push(("load_config", self.load_config));
        list.push(("bound_imports", self.bound_imports));
        list.push(("iat", self.iat));
        list.push(("delay_import", self.delay_import));
        list.push(("com_descriptor", self.com_descriptor));
        list
    }

    /// The directory at `index`, counting the reserved slot as the last.
    pub fn get(&self, index: usize) -> (r: Option<DataDirectory>)
        ensures
            index < Self::NAMED ==> r == Some(self.spec_named()[index as int]),
            index == Self::NAMED ==> r == Some(self.reserved),
            index > Self::NAMED ==> r is None,
    {
        if index == 0 {
            Some(self.export)
        } else if index == 1 {
            Some(self.import)
        } else if index == 2 {
            Some(self.resource)
        } else if index == 3 {
            Some(self.exception)
        } else if index == 4 {
            Some(self.security)
        } else if index == 5 {
            Some(self.basereloc)
        } else if index == 6 {
            Some(self.debug)
        } else if index == 7 {
            Some(self.architecture)
        } else if index == 8 {
            Some(self.globalptr)
        } else if index == 9 {
            Some(self.tls)
        } else if index == 10 {
            Some(self.load_config)
        } else if index == 11 {
            Some(self.bound_imports)
        } else if index == 12 {
            Some(self.iat)
        } else if index == 13 {
            Some(self.delay_import)
        } else if index == 14 {
            Some(self.com_descriptor)
        } else if index == 15 {
            Some(self.reserved)
        } else {
            None
        }
    }
}

impl Default for DataDirectories {
    fn default() -> (r: Self)
        ensures
            r == Self::spec_empty(),
    {
        Self::empty()
    }
}

} // verus!
