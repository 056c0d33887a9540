use symphony::agent::{
    auth_url, catalogs_url, classify, docker_run_args, download_file_name, ebpf_plan,
    echo_response, process_key, staged_components, token_value, wasmedge_args, DeployKind,
    ProcessTable,
};
use symphony::catalog::{CatalogSpec, CatalogState, StagedProperties, Token};
use symphony::json::JsonValue;
use symphony::models::{ComponentSpec, ObjectMeta};

fn comp(name: &str, component_type: &str, properties: Vec<(&str, &str)>) -> ComponentSpec {
    ComponentSpec {
        name: name.to_string(),
        component_type: Some(component_type.to_string()),
        metadata: None,
        properties: Some(
            properties
                .into_iter()
                .map(|(k, v)| (k.to_string(), JsonValue::Str(v.to_string())))
                .collect(),
        ),
        parameters: None,
        routes: None,
        constraints: None,
        dependencies: None,
        skills: None,
        sidecars: None,
    }
}

fn catalog(name: &str, catalog_type: &str, components: Option<Vec<ComponentSpec>>) -> CatalogState {
    CatalogState {
        metadata: ObjectMeta::empty(),
        spec: CatalogSpec {
            name: name.to_string(),
            catalog_type: catalog_type.to_string(),
            properties: StagedProperties { components, removed_components: None },
            object_ref: None,
            generation: "1".to_string(),
        },
        status: None,
    }
}

#[test]
fn staged_catalogs_contribute_their_components() {
    let catalogs = vec![
        catalog("site-a", "staged", Some(vec![comp("web", "docker", vec![])])),
        catalog("site-b", "config", Some(vec![comp("ignored", "docker", vec![])])),
        catalog("site-c", "staged", None),
        catalog(
            "site-d",
            "staged",
            Some(vec![comp("edge", "wasm", vec![]), comp("probe", "ebpf", vec![])]),
        ),
    ];
    let entries = staged_components(catalogs);
    let summary: Vec<(&str, &str)> =
        entries.iter().map(|e| (e.0.as_str(), e.1.name.as_str())).collect();
    assert_eq!(summary, vec![("site-a", "web"), ("site-d", "edge"), ("site-d", "probe")]);
}

#[test]
fn component_types_pick_their_tool() {
    assert_eq!(classify(&Some("docker".to_string())), DeployKind::Docker);
    assert_eq!(classify(&Some("wasm".to_string())), DeployKind::Wasm);
    assert_eq!(classify(&Some("ebpf".to_string())), DeployKind::Ebpf);
    assert_eq!(classify(&Some("helm".to_string())), DeployKind::Skip);
    assert_eq!(classify(&None), DeployKind::Skip);
}

#[test]
fn download_addresses_name_their_file() {
    assert_eq!(download_file_name("http://host/dir/prog.o"), "prog.o");
    assert_eq!(download_file_name("plain-file"), "plain-file");
    assert_eq!(download_file_name("dir/"), "");
    assert_eq!(download_file_name(""), "");
}

#[test]
fn docker_components_run_detached_by_name() {
    let c = comp("web", "docker", vec![("container.image", "nginx:latest")]);
    let args = docker_run_args(&c).expect("an image is configured");
    assert_eq!(args, vec!["run", "-d", "--name", "web", "nginx:latest"]);

    let c = comp(
        "web",
        "docker",
        vec![("container.image", "nginx:latest"), ("container.runtime", "kata")],
    );
    let args = docker_run_args(&c).expect("an image is configured");
    assert_eq!(args, vec!["run", "--runtime", "kata", "-d", "--name", "web", "nginx:latest"]);

    assert!(docker_run_args(&comp("web", "docker", vec![])).is_none());
}

#[test]
fn wasm_components_run_their_downloaded_module() {
    let c = comp("edge", "wasm", vec![("wasm.url", "http://host/mods/app.wasm")]);
    let (url, args) = wasmedge_args(&c).expect("a module address is configured");
    assert_eq!(url, "http://host/mods/app.wasm");
    assert_eq!(args, vec!["app.wasm"]);

    let c = comp(
        "edge",
        "wasm",
        vec![("wasm.url", "http://host/mods/app.wasm"), ("wasm.dir", ".:/tmp")],
    );
    let (_, args) = wasmedge_args(&c).expect("a module address is configured");
    assert_eq!(args, vec!["--dir", ".:/tmp", "app.wasm"]);

    assert!(wasmedge_args(&comp("edge", "wasm", vec![])).is_none());
}

#[test]
fn ebpf_components_load_pin_and_attach() {
    let c = comp(
        "probe",
        "ebpf",
        vec![("ebpf.url", "http://host/progs/probe.o"), ("ebpf.event", "xdp")],
    );
    let plan = ebpf_plan(&c).expect("a program address is configured");
    assert_eq!(plan.url, "http://host/progs/probe.o");
    assert_eq!(plan.show_args, vec!["prog", "show", "name", "probe"]);
    assert_eq!(plan.load_args, vec!["prog", "load", "probe.o", "/sys/fs/bpf/probe"]);
    assert_eq!(
        plan.attach_args.expect("an event is configured"),
        vec!["net", "attach", "xdp", "name", "probe", "dev", "eth0"]
    );

    let c = comp("probe", "ebpf", vec![("ebpf.url", "http://host/progs/probe.o")]);
    let plan = ebpf_plan(&c).expect("a program address is configured");
    assert!(plan.attach_args.is_none());

    assert!(ebpf_plan(&comp("probe", "ebpf", vec![])).is_none());
}

#[test]
fn process_table_tracks_launches_by_key() {
    let mut table = ProcessTable::new();
    assert!(table.lookup("site-web").is_none());
    table.record("site-web".to_string(), "4711".to_string());
    assert_eq!(table.lookup("site-web").as_deref(), Some("4711"));
    table.record("site-web".to_string(), "4712".to_string());
    assert_eq!(table.lookup("site-web").as_deref(), Some("4712"));
    table.record("site-edge".to_string(), "99".to_string());
    assert_eq!(table.lookup("site-web").as_deref(), Some("4712"));
    assert_eq!(table.lookup("site-edge").as_deref(), Some("99"));
    assert_eq!(process_key("site", "web"), "site-web");
}

#[test]
fn orchestrator_endpoints_are_derived_from_the_base() {
    assert_eq!(
        catalogs_url("http://localhost:8080/v1alpha2"),
        "http://localhost:8080/v1alpha2/catalogs/registry"
    );
    assert_eq!(
        auth_url("http://localhost:8080/v1alpha2"),
        "http://localhost:8080/v1alpha2/users/auth"
    );
}

#[test]
fn auth_token_falls_back_to_empty() {
    let token = Token {
        access_token: "abc.def".to_string(),
        token_type: "Bearer".to_string(),
        user_name: "admin".to_string(),
        roles: None,
    };
    assert_eq!(token_value(Some(token)), "abc.def");
    assert_eq!(token_value(None), "");
}

#[test]
fn echo_server_routes_by_method_and_path() {
    assert_eq!(
        echo_response("GET", "/", None),
        "<h1>Web server inside WebAssembly</h1><a href='/trace'>eBFP Traces</a>"
    );
    assert_eq!(
        echo_response("GET", "/trace", None),
        "<h1>Web server inside WebAssembly</h1><p>No traces</p></p>"
    );
    assert_eq!(
        echo_response("GET", "/trace", Some("line one".to_string())),
        "<h1>Web server inside WebAssembly</h1><p>eBFP Traces:</p><pre>line one</pre>"
    );
    assert_eq!(echo_response("GET", "/other", None), "Not found");
    assert_eq!(echo_response("POST", "/", None), "Not found");
}

#[test]
fn component_types_are_case_sensitive() {
    assert_eq!(classify(&Some("Docker".to_string())), DeployKind::Skip);
    assert_eq!(classify(&Some("WASM".to_string())), DeployKind::Skip);
    assert_eq!(classify(&Some("".to_string())), DeployKind::Skip);
}

#[test]
fn download_file_names_handle_wide_characters() {
    assert_eq!(download_file_name("http://host/προ/prog.o"), "prog.o");
    assert_eq!(download_file_name("σίτος"), "σίτος");
}
