use vstd::prelude::*;

verus! {

/// An immutable description of one resolver initialization: the application
/// name presented to the resolver, the MIB files to preload, the MIB search
/// directories, and — when the resolver is loaded at run time — the shared
/// library to open.
///
/// The builder performs no validation; every check is deferred to
/// initialization.
#[derive(Debug, Clone)]
pub struct Config {
    pub(crate) lib_path: String,
    pub(crate) app_name: String,
    pub(crate) mibs: Vec<String>,
    pub(crate) mib_dirs: Vec<String>,
}

impl Config {
    /// The path or name of the shared library to open (dynamic loading only).
    pub open(crate) spec fn spec_lib_path(&self) -> Seq<char> {
        self.lib_path@
    }

    /// The application name presented to the native resolver.
    pub open(crate) spec fn spec_app_name(&self) -> Seq<char> {
        self.app_name@
    }

    /// The ordered MIB file paths to preload; empty means resolver defaults.
    pub open(crate) spec fn spec_mibs(&self) -> Seq<Seq<char>> {
        self.mibs.deep_view()
    }

    /// The ordered MIB search directories; empty means resolver defaults.
    pub open(crate) spec fn spec_mib_dirs(&self) -> Seq<Seq<char>> {
        self.mib_dirs.deep_view()
    }

    /// A configuration holding the defaults.
    pub fn new() -> (r: Self)
        ensures
            r.spec_lib_path() == "libnetsnmp.so"@,
            r.spec_app_name() == "snmptools"@,
            r.spec_mibs() == Seq::<Seq<char>>::empty(),
            r.spec_mib_dirs() == Seq::<Seq<char>>::empty(),
    {
        Self::default()
    }

    /// Replaces the shared-library path (dynamic loading only).
    pub fn lib_path(self, path: &str) -> (r: Self)
        ensures
            r.spec_lib_path() == path@,
            r.spec_app_name() == self.spec_app_name(),
            r.spec_mibs() == self.spec_mibs(),
            r.spec_mib_dirs() == self.spec_mib_dirs(),
    {
        Self {
            lib_path: path.to_owned(),
            app_name: self.app_name,
            mibs: self.mibs,
            mib_dirs: self.mib_dirs,
        }
    }

    /// Replaces the list of MIB files to preload.
    pub fn mibs(self, mibs: Vec<String>) -> (r: Self)
        ensures
            r.spec_mibs() == mibs.deep_view(),
            r.spec_lib_path() == self.spec_lib_path(),
            r.spec_app_name() == self.spec_app_name(),
            r.spec_mib_dirs() == self.spec_mib_dirs(),
    {
        Self { lib_path: self.lib_path, app_name: self.app_name, mibs, mib_dirs: self.mib_dirs }
    }

    /// Replaces the list of MIB search directories.
    pub fn mib_dirs(self, mib_dirs: Vec<String>) -> (r: Self)
        ensures
            r.spec_mib_dirs() == mib_dirs.deep_view(),
            r.spec_lib_path() == self.spec_lib_path(),
            r.spec_app_name() == self.spec_app_name(),
            r.spec_mibs() == self.spec_mibs(),
    {
        Self { lib_path: self.lib_path, app_name: self.app_name, mibs: self.mibs, mib_dirs }
    }

    /// Replaces the application name presented to the resolver.
    pub fn app_name(self, name: &str) -> (r: Self)
        ensures
            r.spec_app_name() == name@,
            r.spec_lib_path() == self.spec_lib_path(),
            r.spec_mibs() == self.spec_mibs(),
            r.spec_mib_dirs() == self.spec_mib_dirs(),
    {
        Self {
            lib_path: self.lib_path,
            app_name: name.to_owned(),
            mibs: self.mibs,
            mib_dirs: self.mib_dirs,
        }
    }
}

impl Default for Config {
    /// The defaults: a platform-conventional resolver library name, this
    /// crate's own name as the application name, and empty MIB lists, which
    /// leave the resolver to its own search rules.
    fn default() -> (r: Self)
        ensures
            r.spec_lib_path() == "libnetsnmp.so"@,
            r.spec_app_name() == "snmptools"@,
            r.spec_mibs() == Seq::<Seq<char>>::empty(),
            r.spec_mib_dirs() == Seq::<Seq<char>>::empty(),
    {
        Self {
            lib_path: "libnetsnmp.so".to_owned(),
            app_name: "snmptools".to_owned(),
            mibs: Vec::new(),
            mib_dirs: Vec::new(),
        }
    }
}

} // verus!
