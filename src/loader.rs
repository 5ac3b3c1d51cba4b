use vstd::prelude::*;
use crate::name::same_text;
use crate::path::{is_prefix_of, is_resolved, render, FsPath};

verus! {

/// The import that names the injected host API.
pub const INJECTED_SPECIFIER: &'static str = "phylum";

/// The virtual locator the injected host API is served under.
pub const INJECTED_LOCATOR: &'static str = "deno:phylum";

/// The one network host that standard-library imports may come from.
pub const STD_HOST: &'static str = "deno.land";

/// The virtual locator of an import, if it names the injected host API;
/// every other import goes through standard resolution.
pub fn injected_locator(specifier: &str) -> (r: Option<String>)
    ensures
        r is Some <==> specifier@ == INJECTED_SPECIFIER@,
        r matches Some(l) ==> l@ == INJECTED_LOCATOR@,
{
    if same_text(specifier, INJECTED_SPECIFIER) {
        Some(String::from_str(INJECTED_LOCATOR))
    } else {
        None
    }
}

/// The source dialect of a module, as judged from its locator.
#[derive(Debug, Clone, Copy, PartialEq, Eq)]
pub enum MediaKind {
    JavaScript,
    Jsx,
    Mjs,
    Cjs,
    TypeScript,
    Mts,
    Cts,
    Dts,
    Dmts,
    Dcts,
    Tsx,
    Json,
    Wasm,
    TsBuildInfo,
    SourceMap,
    Unknown,
}

/// The module kind handed to the engine.
#[derive(Debug, Clone, Copy, PartialEq, Eq)]
pub enum ModuleKind {
    JavaScript,
    Json,
}

/// How a module is handed to the engine.
#[derive(Debug, Clone, Copy, PartialEq, Eq)]
pub struct ModuleFormat {
    pub kind: ModuleKind,
    /// Whether the source is transpiled to plain script first.
    pub transpile: bool,
}

/// Plain script runs as it is; the typed dialects are transpiled; data is
/// tagged as data; anything else has no format.
pub open spec fn media_format(m: MediaKind) -> Option<ModuleFormat> {
    match m {
        MediaKind::JavaScript | MediaKind::Mjs | MediaKind::Cjs => Some(
            ModuleFormat { kind: ModuleKind::JavaScript, transpile: false },
        ),
        MediaKind::TypeScript | MediaKind::Jsx | MediaKind::Mts | MediaKind::Cts
        | MediaKind::Dts | MediaKind::Dmts | MediaKind::Dcts | MediaKind::Tsx => Some(
            ModuleFormat { kind: ModuleKind::JavaScript, transpile: true },
        ),
        MediaKind::Json => Some(ModuleFormat { kind: ModuleKind::Json, transpile: false }),
        _ => None,
    }
}

/// How a module of this dialect is handed to the engine.
pub fn module_format(m: MediaKind) -> (r: Option<ModuleFormat>)
    ensures
        r == media_format(m),
{
    match m {
        MediaKind::JavaScript | MediaKind::Mjs | MediaKind::Cjs => Some(
            ModuleFormat { kind: ModuleKind::JavaScript, transpile: false },
        ),
        MediaKind::TypeScript | MediaKind::Jsx | MediaKind::Mts | MediaKind::Cts
        | MediaKind::Dts | MediaKind::Dmts | MediaKind::Dcts | MediaKind::Tsx => Some(
            ModuleFormat { kind: ModuleKind::JavaScript, transpile: true },
        ),
        MediaKind::Json => Some(ModuleFormat { kind: ModuleKind::Json, transpile: false }),
        _ => None,
    }
}

/// A resolved module locator, as plain parts.
#[derive(Debug)]
pub struct ModuleLocator {
    /// The whole locator.
    pub text: String,
    pub scheme: String,
    pub host: Option<String>,
    /// The filesystem path a `file` locator names, if it names one.
    pub file_path: Option<FsPath>,
}

/// Where a module's source comes from.
#[derive(Debug)]
pub enum LoadSource {
    /// The injected host API.
    Injected,
    /// A file inside the running extension's package.
    Local(FsPath),
    /// A module of the standard-library host, fetched by its locator.
    Remote(String),
}

/// What to load, and how to hand it to the engine.
#[derive(Debug)]
pub struct LoadPlan {
    pub source: LoadSource,
    pub format: ModuleFormat,
}

/// Why an import was refused.
#[derive(Debug)]
pub enum SandboxError {
    UnknownFormat(String),
    NotAPath(String),
    OutsidePackage(FsPath),
    SymlinkImport(FsPath),
    ForeignHost(Option<String>),
    UnsupportedScheme(String),
}

/// The decision on loading `loc`, checked in order: the injected host API;
/// a known format; a `file` locator whose resolved path lies inside `root`
/// and is not a symbolic link; an `https` locator on the standard-library host; nothing else.
pub open spec fn load_decision(
    loc: ModuleLocator,
    media: MediaKind,
    root: Seq<Seq<char>>,
    is_symlink: bool,
    r: Result<LoadPlan, SandboxError>,
) -> bool {
    if loc.text@ == INJECTED_LOCATOR@ {
        r matches Ok(p) && p.source is Injected && p.format == (ModuleFormat {
            kind: ModuleKind::JavaScript,
            transpile: true,
        })
    } else if media_format(media) is None {
        r matches Err(SandboxError::UnknownFormat(t)) && t@ == loc.text@
    } else if loc.scheme@ == "file"@ {
        match loc.file_path {
            None => r matches Err(SandboxError::NotAPath(t)) && t@ == loc.text@,
            Some(f) => if !is_resolved(f@) || !is_prefix_of(root, f@) {
                r matches Err(SandboxError::OutsidePackage(g)) && g@ == f@
            } else if is_symlink {
                r matches Err(SandboxError::SymlinkImport(g)) && g@ == f@
            } else {
                r matches Ok(p) && p.source matches LoadSource::Local(g) && g@ == f@ && p.format
                    == media_format(media)->Some_0
            },
        }
    } else if loc.scheme@ == "https"@ {
        if loc.host matches Some(h) && h@ == STD_HOST@ {
            r matches Ok(p) && p.source matches LoadSource::Remote(t) && t@ == loc.text@
                && p.format == media_format(media)->Some_0
        } else {
            r matches Err(SandboxError::ForeignHost(h)) && h == loc.host
        }
    } else {
        r matches Err(SandboxError::UnsupportedScheme(t)) && t@ == loc.text@
    }
}

/// Decide how to load the module at `loc` for the extension whose package
/// lies at `root`. `is_symlink` tells whether a `file` locator's path is
/// itself a symbolic link.
pub fn plan_load(loc: ModuleLocator, media: MediaKind, root: &FsPath, is_symlink: bool) -> (r:
    Result<LoadPlan, SandboxError>)
    ensures
        load_decision(loc, media, root@, is_symlink, r),
        r is Ok && r->Ok_0.source is Local ==> is_prefix_of(root@, r->Ok_0.source->Local_0@)
            && is_resolved(r->Ok_0.source->Local_0@) && !is_symlink,
        r is Ok && r->Ok_0.source is Remote ==> (loc.host matches Some(h) && h@ == STD_HOST@),
{
    if same_text(loc.text.as_str(), INJECTED_LOCATOR) {
        return Ok(
            LoadPlan {
                source: LoadSource::Injected,
                format: ModuleFormat { kind: ModuleKind::JavaScript, transpile: true },
            },
        );
    }
    let format = match module_format(media) {
        Some(f) => f,
        None => {
            return Err(SandboxError::UnknownFormat(loc.text));
        },
    };
    if same_text(loc.scheme.as_str(), "file") {
        match loc.file_path {
            None => Err(SandboxError::NotAPath(loc.text)),
            Some(f) => if !f.is_resolved() || !f.starts_with(root) {
                Err(SandboxError::OutsidePackage(f))
            } else if is_symlink {
                Err(SandboxError::SymlinkImport(f))
            } else {
                Ok(LoadPlan { source: LoadSource::Local(f), format })
            },
        }
    } else if same_text(loc.scheme.as_str(), "https") {
        let on_std_host = match &loc.host {
            Some(h) => same_text(h.as_str(), STD_HOST),
            None => false,
        };
        if on_std_host {
            Ok(LoadPlan { source: LoadSource::Remote(loc.text), format })
        } else {
            Err(SandboxError::ForeignHost(loc.host))
        }
    } else {
        Err(SandboxError::UnsupportedScheme(loc.text))
    }
}

/// The human-readable cause of a refused import.
pub open spec fn sandbox_message(e: SandboxError) -> Seq<char> {
    match e {
        SandboxError::UnknownFormat(t) => "Unknown JS module format: "@ + t@,
        SandboxError::NotAPath(t) => t@ + ": is not a path"@,
        SandboxError::OutsidePackage(p) => "`"@ + render(p@)
            + "`: importing from paths outside of the extension's directory is not allowed"@,
        SandboxError::SymlinkImport(p) => "`"@ + render(p@)
            + "`: importing from symlinks is not allowed"@,
        SandboxError::ForeignHost(h) => "`"@ + match h {
            Some(h) => h@,
            None => "<unknown host>"@,
        } + "`: importing from domains other than `deno.land` is not allowed"@,
        SandboxError::UnsupportedScheme(t) => "Unsupported module specifier: "@ + t@,
    }
}

impl SandboxError {
    /// The human-readable cause of this refusal.
    pub fn message(&self) -> (r: String)
        ensures
            r@ == sandbox_message(*self),
    {
        match self {
            SandboxError::UnknownFormat(t) => String::from_str("Unknown JS module format: ").concat(
                t.as_str(),
            ),
            SandboxError::NotAPath(t) => t.clone().concat(": is not a path"),
            SandboxError::OutsidePackage(p) => String::from_str("`").concat(
                p.display().as_str(),
            ).concat(
                "`: importing from paths outside of the extension's directory is not allowed",
            ),
            SandboxError::SymlinkImport(p) => String::from_str("`").concat(
                p.display().as_str(),
            ).concat("`: importing from symlinks is not allowed"),
            SandboxError::ForeignHost(h) => {
                let host = match h {
                    Some(h) => h.clone(),
                    None => String::from_str("<unknown host>"),
                };
                String::from_str("`").concat(host.as_str()).concat(
                    "`: importing from domains other than `deno.land` is not allowed",
                )
            },
            SandboxError::UnsupportedScheme(t) => String::from_str(
                "Unsupported module specifier: ",
            ).concat(t.as_str()),
        }
    }
}

} // verus!
