use workspace_catalog::error::CatalogError;
use workspace_catalog::kind::TargetKind;
use workspace_catalog::loader::{
    classify_words, list_packages, list_packages_internal, load, normalize_package,
    normalize_target, CargoReader, QueryOutcome,
};
use workspace_catalog::model::{Package, Target, WorkspaceDescriptor};
use workspace_catalog::record::{MetadataRecord, PackageRecord, TargetRecord};

fn target_json(name: &str, kind: &str, src_path: &str) -> String {
    format!(
        "{{\"name\":\"{}\",\"kind\":[\"{}\"],\"crate_types\":[\"bin\"],\"src_path\":\"{}\"}}",
        name, kind, src_path
    )
}

fn package_json(name: &str, version: &str, targets: &[String]) -> String {
    format!(
        "{{\"name\":\"{n}\",\"version\":\"{v}\",\"id\":\"{n} {v} (path+file:///ws/{n})\",\
         \"source\":null,\"description\":null,\"dependencies\":[],\"license\":null,\
         \"license_file\":null,\"targets\":[{t}],\"features\":{{}},\
         \"manifest_path\":\"/ws/{n}/Cargo.toml\",\"readme\":null,\"repository\":null,\
         \"homepage\":null,\"documentation\":null,\"links\":null,\"publish\":null,\
         \"default_run\":null}}",
        n = name,
        v = version,
        t = targets.join(",")
    )
}

fn metadata_json(packages: &[String], members: &[&str]) -> String {
    let quoted: Vec<String> = members.iter().map(|m| format!("\"{}\"", m)).collect();
    format!(
        "{{\"packages\":[{}],\"workspace_members\":[{}],\"resolve\":null,\
         \"workspace_root\":\"/ws\",\"target_directory\":\"/ws/target\",\"version\":1}}",
        packages.join(","),
        quoted.join(",")
    )
}

fn two_package_report() -> String {
    let alpha = package_json(
        "alpha",
        "0.1.0",
        &[
            target_json("alpha", "lib", "/ws/alpha/src/lib.rs"),
            target_json("alpha-cli", "bin", "/ws/alpha/src/main.rs"),
            target_json("demo", "example", "/ws/alpha/examples/demo.rs"),
        ],
    );
    let beta = package_json(
        "beta",
        "2.3.4",
        &[
            target_json("beta", "lib", "/ws/beta/src/lib.rs"),
            target_json("smoke", "test", "/ws/beta/tests/smoke.rs"),
        ],
    );
    metadata_json(
        &[alpha, beta],
        &["alpha 0.1.0 (path+file:///ws/alpha)", "beta 2.3.4 (path+file:///ws/beta)"],
    )
}

#[test]
fn load_two_package_workspace_lists_both_in_reported_order() {
    let descriptor = load(QueryOutcome::Output(two_package_report())).unwrap();
    assert_eq!(descriptor.packages.len(), 2);
    let alpha = &descriptor.packages[0];
    let beta = &descriptor.packages[1];
    assert_eq!(alpha.name, "alpha");
    assert_eq!(alpha.version, "0.1.0");
    assert_eq!(alpha.id, "alpha 0.1.0 (path+file:///ws/alpha)");
    assert_eq!(alpha.manifest_path, "/ws/alpha/Cargo.toml");
    let alpha_targets: Vec<&str> = alpha.targets.iter().map(|t| t.name.as_str()).collect();
    assert_eq!(alpha_targets, vec!["alpha", "alpha-cli", "demo"]);
    assert_eq!(alpha.targets[2].src_path, "/ws/alpha/examples/demo.rs");
    assert_eq!(beta.name, "beta");
    assert_eq!(beta.version, "2.3.4");
    let beta_targets: Vec<&str> = beta.targets.iter().map(|t| t.name.as_str()).collect();
    assert_eq!(beta_targets, vec!["beta", "smoke"]);
    assert_eq!(beta.targets[1].kind, TargetKind::Test);
}

#[test]
fn load_keeps_the_reported_order_without_sorting() {
    let zed = package_json("zed", "1.0.0", &[target_json("zed", "lib", "/ws/zed/src/lib.rs")]);
    let abc = package_json("abc", "1.0.0", &[target_json("abc", "lib", "/ws/abc/src/lib.rs")]);
    let text = metadata_json(
        &[zed, abc],
        &["abc 1.0.0 (path+file:///ws/abc)", "zed 1.0.0 (path+file:///ws/zed)"],
    );
    let descriptor = load(QueryOutcome::Output(text)).unwrap();
    let names: Vec<&str> = descriptor.packages.iter().map(|p| p.name.as_str()).collect();
    assert_eq!(names, vec!["zed", "abc"]);
}

#[test]
fn load_leaves_out_packages_that_are_not_members() {
    let own = package_json("own", "0.1.0", &[target_json("own", "lib", "/ws/own/src/lib.rs")]);
    let dep = package_json("dep", "9.9.9", &[target_json("dep", "lib", "/reg/dep/src/lib.rs")]);
    let last = package_json("last", "0.2.0", &[target_json("last", "bin", "/ws/last/main.rs")]);
    let text = metadata_json(
        &[own, dep, last],
        &["own 0.1.0 (path+file:///ws/own)", "last 0.2.0 (path+file:///ws/last)"],
    );
    let packages = list_packages_internal(QueryOutcome::Output(text)).unwrap();
    let names: Vec<&str> = packages.iter().map(|p| p.name.as_str()).collect();
    assert_eq!(names, vec!["own", "last"]);
}

#[test]
fn load_of_a_workspace_without_members_is_empty() {
    let dep = package_json("dep", "9.9.9", &[]);
    let text = metadata_json(&[dep], &[]);
    let descriptor = load(QueryOutcome::Output(text)).unwrap();
    assert_eq!(descriptor, WorkspaceDescriptor { packages: vec![] });
}

#[test]
fn kinds_of_library_binary_and_example_go_to_the_right_targets() {
    let only = package_json(
        "only",
        "0.1.0",
        &[
            target_json("core", "lib", "/ws/only/src/lib.rs"),
            target_json("tool", "bin", "/ws/only/src/main.rs"),
            target_json("demo", "example", "/ws/only/examples/demo.rs"),
        ],
    );
    let text = metadata_json(&[only], &["only 0.1.0 (path+file:///ws/only)"]);
    let packages = list_packages(QueryOutcome::Output(text)).unwrap();
    assert_eq!(packages.len(), 1);
    let seen: Vec<(String, TargetKind)> =
        packages[0].targets.iter().map(|t| (t.name.clone(), t.kind.clone())).collect();
    assert_eq!(
        seen,
        vec![
            ("core".to_string(), TargetKind::Library),
            ("tool".to_string(), TargetKind::Binary),
            ("demo".to_string(), TargetKind::Example),
        ]
    );
    let words: Vec<String> = packages[0].targets.iter().map(|t| t.kind.description()).collect();
    assert_eq!(words, vec!["lib", "bin", "example"]);
}

#[test]
fn load_of_a_failed_query_is_a_manifest_error() {
    let stderr = "error: manifest path `/nowhere/Cargo.toml` does not exist".to_string();
    let loading = load(QueryOutcome::Failed(stderr.clone()));
    assert_eq!(loading, Err(CatalogError::Manifest(stderr)));
}

#[test]
fn load_of_a_query_that_did_not_start_is_a_manifest_error() {
    let loading = load(QueryOutcome::NotStarted("No such file or directory".to_string()));
    assert_eq!(loading, Err(CatalogError::Manifest("No such file or directory".to_string())));
}

#[test]
fn load_of_unreadable_output_is_a_manifest_error() {
    let text = "{\"packages\": 7}".to_string();
    match load(QueryOutcome::Output(text.clone())) {
        Err(CatalogError::Manifest(reason)) => {
            assert!(!reason.is_empty());
            assert_ne!(reason, text);
            assert!(reason.contains("json"));
        }
        other => panic!("unexpected: {:?}", other),
    }
    assert!(matches!(
        load(QueryOutcome::Output(String::new())),
        Err(CatalogError::Manifest(_))
    ));
}

#[test]
fn listing_gives_failures_as_text() {
    let listing = list_packages(QueryOutcome::Failed("could not find `Cargo.toml`".to_string()));
    assert_eq!(listing, Err("could not find `Cargo.toml`".to_string()));
}

#[test]
fn reader_keeps_a_report_and_lists_its_members() {
    let record = MetadataRecord {
        packages: vec![
            PackageRecord {
                id: "a#1".to_string(),
                name: "a".to_string(),
                version: "1.0.0".to_string(),
                manifest_path: "/ws/a/Cargo.toml".to_string(),
                targets: vec![TargetRecord {
                    name: "a".to_string(),
                    src_path: None,
                    kinds: vec!["lib".to_string()],
                }],
            },
            PackageRecord {
                id: "b#1".to_string(),
                name: "b".to_string(),
                version: "1.0.0".to_string(),
                manifest_path: "/ws/b/Cargo.toml".to_string(),
                targets: vec![],
            },
        ],
        workspace_members: vec!["b#1".to_string()],
    };
    let reader = CargoReader::from_reading(Ok(record.clone())).unwrap();
    assert_eq!(reader.metadata, record);
    let packages = reader.list_packages();
    assert_eq!(
        packages,
        vec![Package {
            id: "b#1".to_string(),
            name: "b".to_string(),
            version: "1.0.0".to_string(),
            manifest_path: "/ws/b/Cargo.toml".to_string(),
            targets: vec![],
        }]
    );
    assert_eq!(
        CargoReader::from_reading(Err("bad".to_string())),
        Err(CatalogError::Manifest("bad".to_string()))
    );
}

#[test]
fn reader_opens_the_output_of_a_query() {
    let reader = CargoReader::open(QueryOutcome::Output(two_package_report())).unwrap();
    assert_eq!(reader.metadata.packages.len(), 2);
    assert_eq!(
        reader.metadata.workspace_members,
        vec!["alpha 0.1.0 (path+file:///ws/alpha)", "beta 2.3.4 (path+file:///ws/beta)"]
    );
    let demo = &reader.metadata.packages[0].targets[2];
    assert_eq!(demo.name, "demo");
    assert_eq!(demo.kinds, vec!["example"]);
    assert_eq!(demo.src_path, Some("/ws/alpha/examples/demo.rs".to_string()));
}

#[test]
fn an_unresolved_source_path_becomes_the_empty_string() {
    let record = TargetRecord {
        name: "ghost".to_string(),
        src_path: None,
        kinds: vec!["bin".to_string()],
    };
    assert_eq!(
        normalize_target(&record),
        Target { name: "ghost".to_string(), src_path: String::new(), kind: TargetKind::Binary }
    );
}

#[test]
fn a_package_keeps_its_targets_in_order() {
    let record = PackageRecord {
        id: "p#1".to_string(),
        name: "p".to_string(),
        version: "0.0.1".to_string(),
        manifest_path: "/p/Cargo.toml".to_string(),
        targets: vec![
            TargetRecord {
                name: "z".to_string(),
                src_path: Some("/p/z.rs".to_string()),
                kinds: vec!["bench".to_string()],
            },
            TargetRecord {
                name: "a".to_string(),
                src_path: Some("/p/build.rs".to_string()),
                kinds: vec!["custom-build".to_string()],
            },
        ],
    };
    let package = normalize_package(&record);
    assert_eq!(package.id, "p#1");
    assert_eq!(package.name, "p");
    assert_eq!(package.version, "0.0.1");
    assert_eq!(package.manifest_path, "/p/Cargo.toml");
    assert_eq!(
        package.targets,
        vec![
            Target {
                name: "z".to_string(),
                src_path: "/p/z.rs".to_string(),
                kind: TargetKind::Benchmark
            },
            Target {
                name: "a".to_string(),
                src_path: "/p/build.rs".to_string(),
                kind: TargetKind::Other("custom-build".to_string())
            },
        ]
    );
}

#[test]
fn kind_words_are_classified_by_the_first_word() {
    assert_eq!(classify_words(&vec![]), TargetKind::Other(String::new()));
    assert_eq!(classify_words(&vec!["test".to_string()]), TargetKind::Test);
    assert_eq!(
        classify_words(&vec!["rlib".to_string(), "lib".to_string()]),
        TargetKind::Other("rlib".to_string())
    );
}

#[test]
fn known_words_have_their_kinds_and_unknown_words_are_kept() {
    assert_eq!(TargetKind::classify("lib"), TargetKind::Library);
    assert_eq!(TargetKind::classify("bin"), TargetKind::Binary);
    assert_eq!(TargetKind::classify("example"), TargetKind::Example);
    assert_eq!(TargetKind::classify("test"), TargetKind::Test);
    assert_eq!(TargetKind::classify("bench"), TargetKind::Benchmark);
    assert_eq!(TargetKind::classify("proc-macro"), TargetKind::Other("proc-macro".to_string()));
    assert_eq!(TargetKind::classify(""), TargetKind::Other(String::new()));
    assert_eq!(TargetKind::classify("Lib"), TargetKind::Other("Lib".to_string()));
}

#[test]
fn a_kind_gives_back_the_word_it_came_from() {
    for word in ["lib", "bin", "example", "test", "bench", "cdylib", ""] {
        assert_eq!(TargetKind::classify(word).description(), word);
    }
    assert!(TargetKind::Example.is_example());
    assert!(!TargetKind::Binary.is_example());
    assert!(!TargetKind::Other("example".to_string()).is_example());
    let kind = TargetKind::Other("custom-build".to_string());
    assert_eq!(kind.duplicate(), kind);
}
