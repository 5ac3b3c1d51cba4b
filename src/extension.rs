use vstd::prelude::*;
use crate::name::{is_valid_name, same_text, validate_name, InvalidName, INVALID_NAME_SUFFIX};
use crate::path::{is_prefix_of, render, FsPath};
use crate::permissions::Permissions;

verus! {

/// The file at a package's root that describes the extension.
pub const MANIFEST_NAME: &'static str = "PhylumExt.toml";

/// The metadata an extension package declares.
#[derive(Debug)]
pub struct ExtensionManifest {
    pub name: String,
    pub description: Option<String>,
    pub entry_point: String,
    pub permissions: Permissions,
}

impl ExtensionManifest {
    /// A manifest; absent permissions grant nothing.
    pub fn new(
        name: String,
        entry_point: String,
        description: Option<String>,
        permissions: Option<Permissions>,
    ) -> (r: Self)
        ensures
            r.name == name,
            r.entry_point == entry_point,
            r.description == description,
            permissions matches Some(p) ==> r.permissions == p,
            permissions is None ==> r.permissions.deny_all_spec(),
    {
        let permissions = match permissions {
            Some(p) => p,
            None => Permissions::deny_all(),
        };
        ExtensionManifest { name, description, entry_point, permissions }
    }
}

/// A validated package on disk: its root directory and its manifest.
/// Only validation builds one.
#[derive(Debug)]
pub struct Extension {
    path: FsPath,
    manifest: ExtensionManifest,
}

impl Extension {
    /// The package's root directory.
    pub closed spec fn root_spec(&self) -> Seq<Seq<char>> {
        self.path@
    }

    /// The package's manifest.
    pub closed spec fn manifest_spec(&self) -> ExtensionManifest {
        self.manifest
    }

    /// The package's root directory.
    pub fn root(&self) -> (r: &FsPath)
        ensures
            r@ == self.root_spec(),
    {
        &self.path
    }

    /// What validation establishes of every extension: a valid name, and an
    /// entry point that stays inside the package.
    pub open spec fn wf(&self) -> bool {
        &&& is_valid_name(self.manifest_spec().name@)
        &&& stays_inside(self.manifest_spec().entry_point@)
    }
}

/// What became of reading the manifest file.
#[derive(Debug)]
pub enum ManifestRead {
    /// There is no manifest file.
    Missing,
    /// The file does not parse into the manifest's schema; the parser's cause.
    Unparsable(String),
    Parsed(ExtensionManifest),
}

/// What a path is on disk, links followed.
#[derive(Debug, Clone, Copy, PartialEq, Eq)]
pub enum EntryKind {
    Missing,
    File,
    Other,
}

/// What was observed of a candidate package directory.
#[derive(Debug)]
pub struct PackageProbe {
    pub is_dir: bool,
    pub manifest: ManifestRead,
    /// What the entry point is, taken at `entry_point_path`.
    pub entry_point: EntryKind,
}

/// Why an operation on an extension failed.
#[derive(Debug)]
pub enum ExtensionError {
    NotADirectory(FsPath),
    MissingManifest(FsPath),
    UnparsableManifest(String),
    InvalidName(InvalidName),
    EntryPointOutside(String),
    EntryPointMissing(FsPath),
    EntryPointNotFile(FsPath),
    NameMismatch { expected: String, found: String },
    AlreadyExists,
    IdenticalPaths,
    OutsidePackage(FsPath),
    FileConflict(FsPath),
    NotInstalled(String),
}

/// `..` stands as a whole component at index `i`.
pub open spec fn is_parent_ref_at(s: Seq<char>, i: int) -> bool {
    &&& 0 <= i
    &&& i + 1 < s.len()
    &&& s[i] == '.'
    &&& s[i + 1] == '.'
    &&& (i == 0 || s[i - 1] == '/')
    &&& (i + 2 == s.len() || s[i + 2] == '/')
}

/// A relative path that cannot climb out of the directory it is joined to.
pub open spec fn stays_inside(s: Seq<char>) -> bool {
    &&& s.len() > 0
    &&& s[0] != '/'
    &&& forall|i: int| 0 <= i < s.len() ==> !#[trigger] is_parent_ref_at(s, i)
}

/// Whether an entry point names a place inside the package.
pub fn entry_point_stays_inside(s: &str) -> (r: bool)
    ensures
        r == stays_inside(s@),
{
    let n = s.unicode_len();
    if n == 0 || s.get_char(0) == '/' {
        return false;
    }
    let mut i: usize = 0;
    while i < n
        invariant
            n == s@.len(),
            i <= n,
            forall|j: int| 0 <= j < i ==> !#[trigger] is_parent_ref_at(s@, j),
        decreases n - i,
    {
        if i + 1 < n && s.get_char(i) == '.' && s.get_char(i + 1) == '.' {
            let starts = i == 0 || s.get_char(i - 1) == '/';
            let ends = i + 2 == n || s.get_char(i + 2) == '/';
            if starts && ends {
                assert(is_parent_ref_at(s@, i as int));
                return false;
            }
        }
        i = i + 1;
    }
    true
}

/// Where the entry point of a package rooted at `root` lies.
pub open spec fn entry_point_path_spec(root: Seq<Seq<char>>, entry: Seq<char>) -> Seq<Seq<char>> {
    root.push(entry)
}

/// Where the entry point of a package rooted at `root` lies.
pub fn entry_point_path(root: &FsPath, manifest: &ExtensionManifest) -> (r: FsPath)
    ensures
        r@ == entry_point_path_spec(root@, manifest.entry_point@),
{
    root.join(manifest.entry_point.as_str())
}

/// The directory under the data home that holds every installed extension.
pub open spec fn extensions_path_spec(data_dir: Seq<Seq<char>>) -> Seq<Seq<char>> {
    data_dir.push("phylum"@).push("extensions"@)
}

/// The canonical install directory of the extension called `name`.
pub open spec fn extension_path_spec(data_dir: Seq<Seq<char>>, name: Seq<char>) -> Seq<Seq<char>> {
    extensions_path_spec(data_dir).push(name)
}

/// The directory under the data home that holds every installed extension.
pub fn extensions_path(data_dir: &FsPath) -> (r: FsPath)
    ensures
        r@ == extensions_path_spec(data_dir@),
{
    data_dir.join("phylum").join("extensions")
}

/// The canonical install directory of the extension called `name`.
pub fn extension_path(data_dir: &FsPath, name: &str) -> (r: FsPath)
    ensures
        r@ == extension_path_spec(data_dir@, name@),
{
    extensions_path(data_dir).join(name)
}

/// The outcome of validating the package at `path`, by the first check
/// that fails: a directory, with a manifest, that parses, with a valid
/// name, whose entry point stays inside the package, exists and is a file.
pub open spec fn validation_holds(
    path: Seq<Seq<char>>,
    probe: PackageProbe,
    r: Result<Extension, ExtensionError>,
) -> bool {
    if !probe.is_dir {
        r matches Err(ExtensionError::NotADirectory(p)) && p@ == path
    } else {
        match probe.manifest {
            ManifestRead::Missing => r matches Err(ExtensionError::MissingManifest(p)) && p@ == path,
            ManifestRead::Unparsable(c) => r matches Err(ExtensionError::UnparsableManifest(d))
                && d@ == c@,
            ManifestRead::Parsed(m) => if !is_valid_name(m.name@) {
                r matches Err(ExtensionError::InvalidName(e)) && e.name@ == m.name@
            } else if !stays_inside(m.entry_point@) {
                r matches Err(ExtensionError::EntryPointOutside(e)) && e@ == m.entry_point@
            } else {
                match probe.entry_point {
                    EntryKind::Missing => r matches Err(ExtensionError::EntryPointMissing(p))
                        && p@ == entry_point_path_spec(path, m.entry_point@),
                    EntryKind::Other => r matches Err(ExtensionError::EntryPointNotFile(p))
                        && p@ == entry_point_path_spec(path, m.entry_point@),
                    EntryKind::File => r matches Ok(ext) && ext.root_spec() == path && ext.manifest_spec()
                        == m,
                }
            },
        }
    }
}

/// Every check of validation passes on what was observed.
pub open spec fn package_passes(probe: PackageProbe) -> bool {
    &&& probe.is_dir
    &&& probe.manifest matches ManifestRead::Parsed(m)
    &&& is_valid_name(m.name@)
    &&& stays_inside(m.entry_point@)
    &&& probe.entry_point == EntryKind::File
}

/// The outcome of loading the extension installed under `name`: the
/// validation of its canonical directory, and then a manifest that must
/// declare that same name.
pub open spec fn load_holds(
    data_dir: Seq<Seq<char>>,
    name: Seq<char>,
    probe: PackageProbe,
    r: Result<Extension, ExtensionError>,
) -> bool {
    let path = extension_path_spec(data_dir, name);
    if !package_passes(probe) {
        validation_holds(path, probe, r)
    } else if probe.manifest->Parsed_0.name@ == name {
        r matches Ok(ext) && ext.root_spec() == path && ext.manifest_spec() == probe.manifest->Parsed_0
    } else {
        r matches Err(ExtensionError::NameMismatch { expected, found }) && expected@ == name
            && found@ == probe.manifest->Parsed_0.name@
    }
}

impl Extension {
    /// Validate the package at `path` from what was observed of it.
    pub fn from_probe(path: FsPath, probe: PackageProbe) -> (r: Result<Extension, ExtensionError>)
        ensures
            validation_holds(path@, probe, r),
            r matches Ok(e) ==> e.wf(),
    {
        if !probe.is_dir {
            return Err(ExtensionError::NotADirectory(path));
        }
        let manifest = match probe.manifest {
            ManifestRead::Missing => {
                return Err(ExtensionError::MissingManifest(path));
            },
            ManifestRead::Unparsable(c) => {
                return Err(ExtensionError::UnparsableManifest(c));
            },
            ManifestRead::Parsed(m) => m,
        };
        match validate_name(manifest.name.as_str()) {
            Err(e) => {
                return Err(ExtensionError::InvalidName(e));
            },
            Ok(()) => {},
        }
        if !entry_point_stays_inside(manifest.entry_point.as_str()) {
            return Err(ExtensionError::EntryPointOutside(manifest.entry_point));
        }
        match probe.entry_point {
            EntryKind::Missing => Err(
                ExtensionError::EntryPointMissing(entry_point_path(&path, &manifest)),
            ),
            EntryKind::Other => Err(
                ExtensionError::EntryPointNotFile(entry_point_path(&path, &manifest)),
            ),
            EntryKind::File => Ok(Extension { path, manifest }),
        }
    }

    /// Load the extension installed under `name`, from what was observed of
    /// its canonical directory. The manifest must declare that same name.
    pub fn load(data_dir: &FsPath, name: &str, probe: PackageProbe) -> (r: Result<
        Extension,
        ExtensionError,
    >)
        ensures
            load_holds(data_dir@, name@, probe, r),
            r matches Ok(e) ==> e.wf(),
    {
        let path = extension_path(data_dir, name);
        let r = Extension::from_probe(path, probe);
        match r {
            Err(e) => Err(e),
            Ok(ext) => {
                if same_text(ext.manifest.name.as_str(), name) {
                    Ok(ext)
                } else {
                    Err(
                        ExtensionError::NameMismatch {
                            expected: name.to_string(),
                            found: ext.manifest.name,
                        },
                    )
                }
            },
        }
    }
}

impl Extension {
    pub fn name(&self) -> (r: &str)
        ensures
            r@ == self.manifest_spec().name@,
    {
        self.manifest.name.as_str()
    }

    pub fn description(&self) -> (r: Option<&str>)
        ensures
            r is None <==> self.manifest_spec().description is None,
            r matches Some(d) ==> d@ == self.manifest_spec().description->Some_0@,
    {
        match &self.manifest.description {
            Some(d) => Some(d.as_str()),
            None => None,
        }
    }

    pub fn entry_point(&self) -> (r: &String)
        ensures
            r == &self.manifest_spec().entry_point,
    {
        &self.manifest.entry_point
    }

    pub fn permissions(&self) -> (r: &Permissions)
        ensures
            r == &self.manifest_spec().permissions,
    {
        &self.manifest.permissions
    }

    /// The path to this extension's entry point.
    pub fn path(&self) -> (r: FsPath)
        ensures
            r@ == entry_point_path_spec(self.root_spec(), self.manifest_spec().entry_point@),
    {
        entry_point_path(&self.path, &self.manifest)
    }

    /// Decide whether installing may begin, given whether the canonical
    /// directory for this extension's name exists already. On success, that
    /// directory is where the package goes.
    pub fn plan_install(&self, data_dir: &FsPath, target_exists: bool) -> (r: Result<
        FsPath,
        ExtensionError,
    >)
        ensures
            install_plan_holds(data_dir@, *self, target_exists, r),
    {
        if target_exists {
            return Err(ExtensionError::AlreadyExists);
        }
        let target = extension_path(data_dir, self.name());
        if target.same_as(&self.path) {
            return Err(ExtensionError::IdenticalPaths);
        }
        Ok(target)
    }

    /// Where the package entry at `source` is copied to under `target`.
    pub fn install_destination(&self, target: &FsPath, source: &FsPath) -> (r: Result<
        FsPath,
        ExtensionError,
    >)
        ensures
            !is_prefix_of(self.root_spec(), source@) ==> (r matches Err(ExtensionError::OutsidePackage(p))
                && p@ == source@),
            is_prefix_of(self.root_spec(), source@) ==> (r matches Ok(d) && d@ == rebase(
                target@,
                self.root_spec(),
                source@,
            )),
    {
        if !source.starts_with(&self.path) {
            return Err(ExtensionError::OutsidePackage(source.clone_path()));
        }
        let mut dest = target.clone_path();
        let mut i: usize = self.path.parts.len();
        while i < source.parts.len()
            invariant
                self.root_spec().len() <= i <= source@.len(),
                dest@ == target@ + source@.subrange(self.root_spec().len() as int, i as int),
            decreases source.parts.len() - i,
        {
            let next = dest.join(source.parts[i].as_str());
            proof {
                assert(source@.subrange(self.root_spec().len() as int, i + 1) =~= source@.subrange(
                    self.root_spec().len() as int,
                    i as int,
                ).push(source@[i as int]));
            }
            dest = next;
            i = i + 1;
        }
        Ok(dest)
    }

    /// Decide whether uninstalling may go ahead: only from the canonical
    /// directory of this extension's name.
    pub fn check_uninstall(&self, data_dir: &FsPath) -> (r: Result<(), ExtensionError>)
        ensures
            r is Ok <==> extension_path_spec(data_dir@, self.manifest_spec().name@) == self.root_spec(),
            r matches Err(e) ==> (e matches ExtensionError::NotInstalled(n) && n@
                == self.manifest_spec().name@),
    {
        let target = extension_path(data_dir, self.name());
        if target.same_as(&self.path) {
            Ok(())
        } else {
            Err(ExtensionError::NotInstalled(self.name().to_string()))
        }
    }
}

/// The decision on starting an install of `ext`: refused when its
/// canonical directory exists, or when the package already lies there;
/// otherwise that directory is the target.
pub open spec fn install_plan_holds(
    data_dir: Seq<Seq<char>>,
    ext: Extension,
    target_exists: bool,
    r: Result<FsPath, ExtensionError>,
) -> bool {
    let target = extension_path_spec(data_dir, ext.manifest_spec().name@);
    if target_exists {
        r matches Err(ExtensionError::AlreadyExists)
    } else if target == ext.root_spec() {
        r matches Err(ExtensionError::IdenticalPaths)
    } else {
        r matches Ok(t) && t@ == target
    }
}

/// `source`, an entry below `root`, placed the same way below `target`.
pub open spec fn rebase(
    target: Seq<Seq<char>>,
    root: Seq<Seq<char>>,
    source: Seq<Seq<char>>,
) -> Seq<Seq<char>> {
    target + source.subrange(root.len() as int, source.len() as int)
}

/// What a walked package entry is, links not followed.
#[derive(Debug, Clone, Copy, PartialEq, Eq)]
pub enum WalkKind {
    Directory,
    Symlink,
    File,
    Other,
}

/// What to do with one package entry during install.
#[derive(Debug)]
pub enum CopyStep {
    /// Create this directory, readable by its owner alone.
    CreateDir(FsPath),
    /// Leave a symbolic link out, with a warning.
    SkipSymlink,
    /// Copy the file's bytes to this path.
    CopyFile(FsPath),
    /// Nothing to copy.
    Ignore,
}

/// Decide what to do with a package entry of kind `kind` whose destination
/// is `dest`; a file whose destination exists already is a conflict.
pub fn copy_step(kind: WalkKind, dest: FsPath, dest_exists: bool) -> (r: Result<
    CopyStep,
    ExtensionError,
>)
    ensures
        kind == WalkKind::Directory ==> (r matches Ok(CopyStep::CreateDir(d)) && d@ == dest@),
        kind == WalkKind::Symlink ==> r matches Ok(CopyStep::SkipSymlink),
        kind == WalkKind::File && dest_exists ==> (r matches Err(ExtensionError::FileConflict(d))
            && d@ == dest@),
        kind == WalkKind::File && !dest_exists ==> (r matches Ok(CopyStep::CopyFile(d)) && d@
            == dest@),
        kind == WalkKind::Other ==> r matches Ok(CopyStep::Ignore),
{
    match kind {
        WalkKind::Directory => Ok(CopyStep::CreateDir(dest)),
        WalkKind::Symlink => Ok(CopyStep::SkipSymlink),
        WalkKind::File => if dest_exists {
            Err(ExtensionError::FileConflict(dest))
        } else {
            Ok(CopyStep::CopyFile(dest))
        },
        WalkKind::Other => Ok(CopyStep::Ignore),
    }
}

/// The human-readable cause of an error.
pub open spec fn error_message(e: ExtensionError) -> Seq<char> {
    match e {
        ExtensionError::NotADirectory(p) => render(p@) + ": not a directory"@,
        ExtensionError::MissingManifest(p) => render(p@) + ": missing "@ + MANIFEST_NAME@,
        ExtensionError::UnparsableManifest(c) => "invalid manifest: "@ + c@,
        ExtensionError::InvalidName(n) => n.name@ + INVALID_NAME_SUFFIX@,
        ExtensionError::EntryPointOutside(s) => s@ + ": entry point lies outside the extension"@,
        ExtensionError::EntryPointMissing(p) => render(p@) + ": entry point does not exist"@,
        ExtensionError::EntryPointNotFile(p) => render(p@) + ": entry point is not a file"@,
        ExtensionError::NameMismatch { expected, found } => "extension "@ + expected@
            + " declares the name "@ + found@,
        ExtensionError::AlreadyExists => "extension already exists, skipping"@,
        ExtensionError::IdenticalPaths =>
            "extension path and installation path are identical, skipping"@,
        ExtensionError::OutsidePackage(p) => render(p@)
            + ": not inside the extension's directory"@,
        ExtensionError::FileConflict(p) => render(p@) + ": already exists"@,
        ExtensionError::NotInstalled(n) => "extension "@ + n@ + " is not installed, skipping"@,
    }
}

impl ExtensionError {
    /// The human-readable cause of this error.
    pub fn message(&self) -> (r: String)
        ensures
            r@ == error_message(*self),
    {
        match self {
            ExtensionError::NotADirectory(p) => p.display().concat(": not a directory"),
            ExtensionError::MissingManifest(p) => p.display().concat(": missing ").concat(
                MANIFEST_NAME,
            ),
            ExtensionError::UnparsableManifest(c) => String::from_str("invalid manifest: ").concat(
                c.as_str(),
            ),
            ExtensionError::InvalidName(n) => n.message(),
            ExtensionError::EntryPointOutside(s) => s.clone().concat(
                ": entry point lies outside the extension",
            ),
            ExtensionError::EntryPointMissing(p) => p.display().concat(
                ": entry point does not exist",
            ),
            ExtensionError::EntryPointNotFile(p) => p.display().concat(
                ": entry point is not a file",
            ),
            ExtensionError::NameMismatch { expected, found } => String::from_str(
                "extension ",
            ).concat(expected.as_str()).concat(" declares the name ").concat(found.as_str()),
            ExtensionError::AlreadyExists => String::from_str("extension already exists, skipping"),
            ExtensionError::IdenticalPaths => String::from_str(
                "extension path and installation path are identical, skipping",
            ),
            ExtensionError::OutsidePackage(p) => p.display().concat(
                ": not inside the extension's directory",
            ),
            ExtensionError::FileConflict(p) => p.display().concat(": already exists"),
            ExtensionError::NotInstalled(n) => String::from_str("extension ").concat(
                n.as_str(),
            ).concat(" is not installed, skipping"),
        }
    }
}

/// Installing then loading round-trips: the directory an install fills is
/// the one loading by the same name reads, and when it holds the copied
/// package (a directory whose manifest is the same and whose entry point
/// is a file) loading gives back an extension with that same manifest, so
/// the same name, description, entry point and permissions, rooted at the
/// install directory. A name with no directory there does not load.
pub proof fn lemma_install_then_load(
    data_dir: FsPath,
    ext: Extension,
    target: Result<FsPath, ExtensionError>,
    probe: PackageProbe,
    loaded: Result<Extension, ExtensionError>,
)
    requires
        ext.wf(),
        install_plan_holds(data_dir@, ext, false, target),
        load_holds(data_dir@, ext.manifest_spec().name@, probe, loaded),
    ensures
        target is Ok && probe.is_dir && probe.manifest == ManifestRead::Parsed(ext.manifest_spec())
            && probe.entry_point == EntryKind::File ==> (loaded matches Ok(l)
            && l.manifest_spec() == ext.manifest_spec() && l.root_spec() == target->Ok_0@),
        !probe.is_dir ==> loaded is Err,
{
}

/// Installing is not idempotent: once the canonical directory exists, a
/// second install is refused as already existing; and a package that
/// already lies in its canonical directory is never installed onto itself.
/// Both refusals say that the install was skipped.
pub proof fn lemma_install_is_refused_when_present(
    data_dir: FsPath,
    ext: Extension,
    target_exists: bool,
    r: Result<FsPath, ExtensionError>,
)
    requires
        install_plan_holds(data_dir@, ext, target_exists, r),
    ensures
        target_exists ==> (r matches Err(e) && error_message(e)
            == "extension already exists, skipping"@),
        ext.root_spec() == extension_path_spec(data_dir@, ext.manifest_spec().name@) ==> (r matches Err(e) && (
        error_message(e) == "extension already exists, skipping"@ || error_message(e)
            == "extension path and installation path are identical, skipping"@)),
{
}

/// Uninstalling is total: it is allowed only from the canonical directory
/// of the extension's name, the very directory that loading by that name
/// reads; once that directory is gone, loading the name fails.
pub proof fn lemma_uninstall_then_load_fails(
    data_dir: FsPath,
    ext: Extension,
    allowed: Result<(), ExtensionError>,
    probe: PackageProbe,
    loaded: Result<Extension, ExtensionError>,
)
    requires
        allowed is Ok <==> extension_path_spec(data_dir@, ext.manifest_spec().name@)
            == ext.root_spec(),
        allowed is Ok,
        !probe.is_dir,
        load_holds(data_dir@, ext.manifest_spec().name@, probe, loaded),
    ensures
        loaded matches Err(ExtensionError::NotADirectory(p)) && p@ == ext.root_spec(),
{
}

} // verus!
