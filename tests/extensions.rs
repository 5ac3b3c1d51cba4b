use phylum_extensions::extension::{
    copy_step, extension_path, extensions_path, CopyStep, EntryKind, Extension, ExtensionError,
    ExtensionManifest, ManifestRead, PackageProbe, WalkKind,
};
use phylum_extensions::listing::{listing_lines, sort_listing, NO_EXTENSIONS};
use phylum_extensions::loader::{
    injected_locator, module_format, plan_load, LoadSource, MediaKind, ModuleKind,
    ModuleLocator, SandboxError,
};
use phylum_extensions::name::validate_name;
use phylum_extensions::path::FsPath;
use phylum_extensions::permissions::Permissions;

fn path(parts: &[&str]) -> FsPath {
    FsPath::new(parts.iter().map(|p| p.to_string()).collect())
}

fn data_dir() -> FsPath {
    path(&["home", "user", ".local", "share"])
}

fn manifest(name: &str, entry: &str, description: Option<&str>) -> ExtensionManifest {
    ExtensionManifest::new(
        name.to_string(),
        entry.to_string(),
        description.map(|d| d.to_string()),
        None,
    )
}

fn good_probe(m: ExtensionManifest) -> PackageProbe {
    PackageProbe { is_dir: true, manifest: ManifestRead::Parsed(m), entry_point: EntryKind::File }
}

fn sample_at(root: FsPath) -> Extension {
    Extension::from_probe(root, good_probe(manifest("sample", "main.ts", Some("This extension does a thing"))))
        .unwrap()
}

#[test]
fn valid_extension_is_loaded_correctly() {
    let ext = sample_at(path(&["fixtures", "sample"]));
    assert_eq!(ext.name(), "sample");
}

#[test]
fn names_follow_the_pattern() {
    for ok in ["sample", "my-ext", "ab", "a1", "x-9-y"] {
        assert!(validate_name(ok).is_ok(), "{ok}");
    }
    for bad in ["@@@", "a", "", "Sample", "9abc", "-ab", "ab_c", "ab c", "sample\n", "é-ext"] {
        assert!(validate_name(bad).is_err(), "{bad:?}");
    }
}

#[test]
fn invalid_name_message() {
    let e = validate_name("@@@").unwrap_err();
    assert!(e.message().contains("invalid extension name"));
    assert!(e.message().starts_with("@@@: "));
}

#[test]
fn canonical_paths() {
    assert_eq!(extensions_path(&data_dir()).display(), "/home/user/.local/share/phylum/extensions");
    assert_eq!(
        extension_path(&data_dir(), "sample").display(),
        "/home/user/.local/share/phylum/extensions/sample"
    );
}

#[test]
fn install_then_load_round_trips() {
    let ext = sample_at(path(&["src", "sample"]));
    let target = ext.plan_install(&data_dir(), false).unwrap();
    assert_eq!(target.display(), "/home/user/.local/share/phylum/extensions/sample");
    let loaded = Extension::load(
        &data_dir(),
        "sample",
        good_probe(manifest("sample", "main.ts", None)),
    )
    .unwrap();
    assert_eq!(loaded.name(), "sample");
    assert!(loaded.root().same_as(&target));
    assert_eq!(loaded.entry_point(), "main.ts");
}

#[test]
fn never_installed_name_does_not_load() {
    let probe = PackageProbe {
        is_dir: false,
        manifest: ManifestRead::Missing,
        entry_point: EntryKind::Missing,
    };
    let e = Extension::load(&data_dir(), "sample-other", probe).unwrap_err();
    assert!(matches!(e, ExtensionError::NotADirectory(_)));
    assert_eq!(e.message(), "/home/user/.local/share/phylum/extensions/sample-other: not a directory");
}

#[test]
fn second_install_already_exists() {
    let ext = sample_at(path(&["src", "sample"]));
    let e = ext.plan_install(&data_dir(), true).unwrap_err();
    assert!(e.message().contains("already exists"));
}

#[test]
fn install_onto_itself_is_skipped() {
    let ext = sample_at(extension_path(&data_dir(), "sample"));
    let e = ext.plan_install(&data_dir(), false).unwrap_err();
    assert!(matches!(e, ExtensionError::IdenticalPaths));
    assert!(e.message().contains("skipping"));
    let e = ext.plan_install(&data_dir(), true).unwrap_err();
    assert!(e.message().contains("skipping"));
}

#[test]
fn install_copies_below_target() {
    let ext = sample_at(path(&["src", "sample"]));
    let target = ext.plan_install(&data_dir(), false).unwrap();
    let dest = ext.install_destination(&target, &path(&["src", "sample", "lib", "a.ts"])).unwrap();
    assert_eq!(dest.display(), "/home/user/.local/share/phylum/extensions/sample/lib/a.ts");
    let root = ext.install_destination(&target, &path(&["src", "sample"])).unwrap();
    assert!(root.same_as(&target));
    let e = ext.install_destination(&target, &path(&["src", "other", "a.ts"])).unwrap_err();
    assert!(matches!(e, ExtensionError::OutsidePackage(_)));
}

#[test]
fn copy_steps() {
    let d = || path(&["t", "x"]);
    assert!(matches!(copy_step(WalkKind::Directory, d(), false), Ok(CopyStep::CreateDir(_))));
    assert!(matches!(copy_step(WalkKind::Symlink, d(), false), Ok(CopyStep::SkipSymlink)));
    assert!(matches!(copy_step(WalkKind::File, d(), false), Ok(CopyStep::CopyFile(_))));
    assert!(matches!(copy_step(WalkKind::Other, d(), true), Ok(CopyStep::Ignore)));
    let e = copy_step(WalkKind::File, d(), true).unwrap_err();
    assert_eq!(e.message(), "/t/x: already exists");
}

#[test]
fn uninstall_only_from_canonical_path() {
    let installed = sample_at(extension_path(&data_dir(), "sample"));
    assert!(installed.check_uninstall(&data_dir()).is_ok());
    let elsewhere = sample_at(path(&["src", "sample"]));
    let e = elsewhere.check_uninstall(&data_dir()).unwrap_err();
    assert_eq!(e.message(), "extension sample is not installed, skipping");
}

#[test]
fn validation_failures_in_order() {
    let root = || path(&["p"]);
    let e = Extension::from_probe(
        root(),
        PackageProbe { is_dir: true, manifest: ManifestRead::Missing, entry_point: EntryKind::Missing },
    )
    .unwrap_err();
    assert_eq!(e.message(), "/p: missing PhylumExt.toml");
    let e = Extension::from_probe(
        root(),
        PackageProbe {
            is_dir: true,
            manifest: ManifestRead::Unparsable("bad key".to_string()),
            entry_point: EntryKind::Missing,
        },
    )
    .unwrap_err();
    assert_eq!(e.message(), "invalid manifest: bad key");
    let e = Extension::from_probe(root(), good_probe(manifest("@@@", "main.ts", None))).unwrap_err();
    assert!(matches!(e, ExtensionError::InvalidName(_)));
    for outside in ["/etc/passwd", "../x.ts", "a/../../x.ts", ".."] {
        let e = Extension::from_probe(root(), good_probe(manifest("sample", outside, None)))
            .unwrap_err();
        assert!(matches!(e, ExtensionError::EntryPointOutside(_)), "{outside}");
    }
    assert!(Extension::from_probe(root(), good_probe(manifest("sample", "a/..b/x.ts", None))).is_ok());
    let mut probe = good_probe(manifest("sample", "src/main.ts", None));
    probe.entry_point = EntryKind::Missing;
    let e = Extension::from_probe(root(), probe).unwrap_err();
    assert_eq!(e.message(), "/p/src/main.ts: entry point does not exist");
    let mut probe = good_probe(manifest("sample", "src", None));
    probe.entry_point = EntryKind::Other;
    let e = Extension::from_probe(root(), probe).unwrap_err();
    assert_eq!(e.message(), "/p/src: entry point is not a file");
}

#[test]
fn accessors() {
    let ext = sample_at(path(&["p"]));
    assert_eq!(ext.description(), Some("This extension does a thing"));
    assert_eq!(ext.entry_point(), "main.ts");
    assert!(ext.permissions().read.is_none());
    assert_eq!(ext.path().display(), "/p/main.ts");
}

#[test]
fn listing_empty_and_described() {
    assert_eq!(listing_lines(&Vec::new()), vec![NO_EXTENSIONS.to_string()]);
    assert!(NO_EXTENSIONS.contains("No extension"));
    let lines = listing_lines(&vec![sample_at(path(&["p"]))]);
    assert_eq!(lines, vec!["sample  This extension does a thing".to_string()]);
}

#[test]
fn conflicting_extension_name_is_filtered() {
    let ping = Extension::load(&data_dir(), "ping", good_probe(manifest("pong", "main.ts", None)))
        .map(|_| ());
    let e = ping.unwrap_err();
    assert_eq!(e.message(), "extension ping declares the name pong");
    let results = vec![
        Ok(sample_at(extension_path(&data_dir(), "sample"))),
        Err(e),
        Extension::load(&data_dir(), "other", good_probe(manifest("other", "main.ts", None))),
    ];
    let listing = sort_listing(results);
    let names: Vec<&str> = listing.installed.iter().map(|e| e.name()).collect();
    assert_eq!(names, vec!["sample", "other"]);
    assert_eq!(listing.filtered.len(), 1);
}

fn file_loc(parts: &[&str]) -> ModuleLocator {
    let p = path(parts);
    ModuleLocator {
        text: format!("file://{}", p.display()),
        scheme: "file".to_string(),
        host: None,
        file_path: Some(p),
    }
}

fn https_loc(host: &str) -> ModuleLocator {
    ModuleLocator {
        text: format!("https://{host}/std/fmt/colors.ts"),
        scheme: "https".to_string(),
        host: Some(host.to_string()),
        file_path: None,
    }
}

#[test]
fn imports_stay_inside_the_package() {
    let root = path(&["ext", "sample"]);
    let ok = plan_load(file_loc(&["ext", "sample", "lib", "a.ts"]), MediaKind::TypeScript, &root, false)
        .unwrap();
    assert!(matches!(ok.source, LoadSource::Local(_)));
    assert!(ok.format.transpile);
    let e = plan_load(file_loc(&["ext", "other", "a.ts"]), MediaKind::TypeScript, &root, false);
    assert!(matches!(e, Err(SandboxError::OutsidePackage(_))));
    let e = plan_load(file_loc(&["ext", "sample2", "a.ts"]), MediaKind::TypeScript, &root, false);
    assert!(matches!(e, Err(SandboxError::OutsidePackage(_))));
    let e = plan_load(file_loc(&["ext", "sample", "link.ts"]), MediaKind::TypeScript, &root, true);
    assert!(matches!(e, Err(SandboxError::SymlinkImport(_))));
}

#[test]
fn only_the_std_host_is_fetched() {
    let root = path(&["ext", "sample"]);
    let ok = plan_load(https_loc("deno.land"), MediaKind::TypeScript, &root, false).unwrap();
    assert!(matches!(ok.source, LoadSource::Remote(ref t) if t == "https://deno.land/std/fmt/colors.ts"));
    let e = plan_load(https_loc("evil.example"), MediaKind::TypeScript, &root, false);
    assert!(matches!(e, Err(SandboxError::ForeignHost(Some(ref h))) if h == "evil.example"));
    let e = plan_load(https_loc("deno.land.evil.example"), MediaKind::JavaScript, &root, false);
    assert!(matches!(e, Err(SandboxError::ForeignHost(_))));
    let mut loc = https_loc("deno.land");
    loc.scheme = "http".to_string();
    assert!(matches!(
        plan_load(loc, MediaKind::JavaScript, &root, false),
        Err(SandboxError::UnsupportedScheme(_))
    ));
    assert!(matches!(
        plan_load(https_loc("deno.land"), MediaKind::Wasm, &root, false),
        Err(SandboxError::UnknownFormat(_))
    ));
}

#[test]
fn injected_api_resolves_to_one_locator() {
    assert_eq!(injected_locator("phylum"), Some("deno:phylum".to_string()));
    assert_eq!(injected_locator("./phylum"), None);
    let root = path(&["ext", "sample"]);
    for _ in 0..2 {
        let loc = ModuleLocator {
            text: injected_locator("phylum").unwrap(),
            scheme: "deno".to_string(),
            host: None,
            file_path: None,
        };
        let p = plan_load(loc, MediaKind::Unknown, &root, false).unwrap();
        assert!(matches!(p.source, LoadSource::Injected));
        assert_eq!(p.format.kind, ModuleKind::JavaScript);
    }
}

#[test]
fn module_formats() {
    assert_eq!(module_format(MediaKind::Json).unwrap().kind, ModuleKind::Json);
    assert!(!module_format(MediaKind::Json).unwrap().transpile);
    assert!(!module_format(MediaKind::Mjs).unwrap().transpile);
    assert!(module_format(MediaKind::Tsx).unwrap().transpile);
    assert!(module_format(MediaKind::SourceMap).is_none());
}

#[test]
fn arguments_reach_the_run_unchanged() {
    let ext = sample_at(path(&["ext", "sample"]));
    let args = vec!["--test".to_string(), "-x".to_string(), "a".to_string()];
    let plan = ext.plan_run(args, None);
    assert_eq!(plan.args, vec!["--test", "-x", "a"]);
    assert_eq!(plan.cpu_count, 1);
    assert_eq!(plan.main_module.display(), "/ext/sample/main.ts");
    assert_eq!(ext.plan_run(Vec::new(), Some(8)).cpu_count, 8);
}

#[test]
fn permissions_translate_both_ways() {
    let p = Permissions {
        read: Some(vec!["./data".to_string(), "/tmp".to_string()]),
        write: None,
        env: Some(vec![]),
        run: None,
        net: Some(vec!["api.phylum.io".to_string()]),
    };
    let g = p.to_grants();
    assert_eq!(g.allow_read, Some(vec!["./data".to_string(), "/tmp".to_string()]));
    assert_eq!(g.allow_env, Some(vec![]));
    assert_eq!(g.allow_net, Some(vec!["api.phylum.io".to_string()]));
    assert!(g.allow_write.is_none() && !g.prompt);
    let back = Permissions::from_grants(&g);
    assert_eq!(back.read, p.read);
    assert_eq!(back.net, p.net);
    assert!(back.run.is_none());
    let d = Permissions::default();
    assert!(d.read.is_none() && d.write.is_none() && d.env.is_none() && d.run.is_none() && d.net.is_none());
}

#[test]
fn imports_through_parent_components_are_refused() {
    let root = path(&["ext", "sample"]);
    for parts in [
        &["ext", "sample", "..", "other", "a.ts"][..],
        &["ext", "sample", ".", "a.ts"][..],
        &["ext", "sample", "", "a.ts"][..],
    ] {
        let e = plan_load(file_loc(parts), MediaKind::TypeScript, &root, false);
        assert!(matches!(e, Err(SandboxError::OutsidePackage(_))), "{parts:?}");
    }
}

#[test]
fn sandbox_errors_have_messages() {
    let root = path(&["ext", "sample"]);
    let msg = |r: Result<phylum_extensions::loader::LoadPlan, SandboxError>| r.unwrap_err().message();
    assert_eq!(
        msg(plan_load(file_loc(&["ext", "other", "a.ts"]), MediaKind::TypeScript, &root, false)),
        "`/ext/other/a.ts`: importing from paths outside of the extension's directory is not allowed"
    );
    assert_eq!(
        msg(plan_load(file_loc(&["ext", "sample", "l.ts"]), MediaKind::TypeScript, &root, true)),
        "`/ext/sample/l.ts`: importing from symlinks is not allowed"
    );
    let mut loc = file_loc(&["x"]);
    loc.file_path = None;
    loc.text = "file://host/x.ts".to_string();
    assert_eq!(
        msg(plan_load(loc, MediaKind::TypeScript, &root, false)),
        "file://host/x.ts: is not a path"
    );
    assert_eq!(
        msg(plan_load(https_loc("evil.example"), MediaKind::TypeScript, &root, false)),
        "`evil.example`: importing from domains other than `deno.land` is not allowed"
    );
    let mut loc = https_loc("deno.land");
    loc.host = None;
    assert!(msg(plan_load(loc, MediaKind::TypeScript, &root, false)).starts_with("`<unknown host>`"));
    let mut loc = https_loc("deno.land");
    loc.scheme = "http".to_string();
    loc.text = "http://deno.land/std/x.ts".to_string();
    assert_eq!(
        msg(plan_load(loc, MediaKind::TypeScript, &root, false)),
        "Unsupported module specifier: http://deno.land/std/x.ts"
    );
    assert_eq!(
        msg(plan_load(https_loc("deno.land"), MediaKind::Wasm, &root, false)),
        "Unknown JS module format: https://deno.land/std/fmt/colors.ts"
    );
}
