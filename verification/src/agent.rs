//! The edge agent's reconcile decisions.
//!
//! The agent polls the orchestrator for staged catalogs and realizes each
//! component with the tool its type names: a container runtime, a
//! WebAssembly runtime, or an eBPF loader. What is verified here is every
//! decision on the data — which components to reconcile, which command
//! arguments to run them with, which processes are already tracked — while
//! the HTTP polling and the process spawning stay outside the library.

use vstd::prelude::*;

use crate::ankaios::spec_component_prop;
use crate::catalog::{CatalogState, Token};
use crate::json::JsonValue;
use crate::kvlist;
use crate::models::ComponentSpec;
use crate::strutil::str_eq;

verus! {

/// The access token a successful auth call yields, or the empty string
/// when the call failed or answered nothing.
pub fn token_value(token: Option<Token>) -> (r: String)
    ensures
        match token {
            Some(t) => r@ == t.access_token@,
            None => r@ == Seq::<char>::empty(),
        },
{
    match token {
        Some(t) => t.access_token,
        None => String::new(),
    }
}

/// The orchestrator's catalog listing endpoint under `base`.
pub fn catalogs_url(base: &str) -> (r: String)
    ensures
        r@ == base@ + "/catalogs/registry"@,
{
    String::from_str(base).concat("/catalogs/registry")
}

/// The orchestrator's auth endpoint under `base`.
pub fn auth_url(base: &str) -> (r: String)
    ensures
        r@ == base@ + "/users/auth"@,
{
    String::from_str(base).concat("/users/auth")
}

/// The components a staged catalog stages, none for other catalog types.
pub open spec fn spec_catalog_components(c: CatalogState) -> Seq<ComponentSpec> {
    if c.spec.catalog_type@ == "staged"@ {
        match c.spec.properties.components {
            Some(v) => v@,
            None => Seq::empty(),
        }
    } else {
        Seq::empty()
    }
}

/// The `(catalog name, component)` pairs one catalog contributes.
pub open spec fn spec_catalog_entries(c: CatalogState) -> Seq<(Seq<char>, ComponentSpec)> {
    spec_catalog_components(c).map_values(|comp: ComponentSpec| (c.spec.name@, comp))
}

/// Everything the staged catalogs stage, in catalog order.
pub open spec fn spec_staged_entries(catalogs: Seq<CatalogState>) -> Seq<(Seq<char>, ComponentSpec)>
    decreases catalogs.len(),
{
    if catalogs.len() == 0 {
        Seq::empty()
    } else {
        spec_staged_entries(catalogs.drop_last()) + spec_catalog_entries(catalogs.last())
    }
}

/// Collects what the agent is to reconcile: each component of each staged
/// catalog, paired with its catalog's name, in catalog order.
pub fn staged_components(catalogs: Vec<CatalogState>) -> (r: Vec<(String, ComponentSpec)>)
    ensures
        r@.map_values(|e: (String, ComponentSpec)| (e.0@, e.1)) == spec_staged_entries(catalogs@),
{
    let ghost orig = catalogs@;
    let mut rest = catalogs;
    let mut out: Vec<(String, ComponentSpec)> = Vec::new();
    let ghost mut done: int = 0;
    proof {
        assert(orig.skip(0) =~= orig);
        assert(out@.map_values(|e: (String, ComponentSpec)| (e.0@, e.1)) =~= spec_staged_entries(
            orig.take(0),
        ));
    }
    while rest.len() > 0
        invariant
            0 <= done <= orig.len(),
            done + rest@.len() == orig.len(),
            rest@ == orig.skip(done),
            out@.map_values(|e: (String, ComponentSpec)| (e.0@, e.1)) == spec_staged_entries(
                orig.take(done),
            ),
        decreases rest@.len(),
    {
        let catalog = rest.remove(0);
        proof {
            assert(catalog == orig[done]);
            assert(orig.skip(done).remove(0) =~= orig.skip(done + 1));
            assert(orig.take(done + 1).drop_last() =~= orig.take(done));
            assert(orig.take(done + 1).last() == orig[done]);
        }
        let is_staged = str_eq(catalog.spec.catalog_type.as_str(), "staged");
        let name = catalog.spec.name;
        let components = catalog.spec.properties.components;
        if is_staged {
            match components {
                Some(list) => {
                    let ghost entries = spec_catalog_entries(orig[done]);
                    let ghost base = out@.len() as int;
                    let mut comps = list;
                    let ghost comps_orig = comps@;
                    proof {
                        assert(comps_orig.skip(0) =~= comps_orig);
                        assert(entries.len() == comps_orig.len());
                    }
                    while comps.len() > 0
                        invariant
                            0 <= base <= out@.len(),
                            out@.len() - base + comps@.len() == comps_orig.len(),
                            comps@ == comps_orig.skip(out@.len() - base),
                            entries == spec_catalog_entries(orig[done]),
                            entries.len() == comps_orig.len(),
                            forall|j: int|
                                0 <= j < entries.len() ==> #[trigger] entries[j] == (
                                orig[done].spec.name@,
                                comps_orig[j],
                            ),
                            name@ == orig[done].spec.name@,
                            out@.take(base).map_values(|e: (String, ComponentSpec)| (e.0@, e.1))
                                == spec_staged_entries(orig.take(done)),
                            forall|j: int|
                                base <= j < out@.len() ==> ((#[trigger] out@[j]).0@, out@[j].1)
                                    == entries[j - base],
                        decreases comps@.len(),
                    {
                        let ghost k = out@.len() - base;
                        let comp = comps.remove(0);
                        proof {
                            assert(comp == comps_orig[k]);
                            assert(comps_orig.skip(k).remove(0) =~= comps_orig.skip(k + 1));
                        }
                        let ghost old_out = out@;
                        out.push((name.clone(), comp));
                        proof {
                            assert(out@.take(base) =~= old_out.take(base));
                        }
                    }
                    proof {
                        assert(out@.map_values(|e: (String, ComponentSpec)| (e.0@, e.1))
                            =~= spec_staged_entries(orig.take(done + 1)));
                    }
                },
                None => {
                    proof {
                        assert(spec_catalog_entries(orig[done]) =~= Seq::<(
                            Seq<char>,
                            ComponentSpec,
                        )>::empty());
                        assert(out@.map_values(|e: (String, ComponentSpec)| (e.0@, e.1))
                            =~= spec_staged_entries(orig.take(done + 1)));
                    }
                },
            }
        } else {
            proof {
                assert(spec_catalog_entries(orig[done]) =~= Seq::<(
                    Seq<char>,
                    ComponentSpec,
                )>::empty());
                assert(out@.map_values(|e: (String, ComponentSpec)| (e.0@, e.1))
                    =~= spec_staged_entries(orig.take(done + 1)));
            }
        }
        proof {
            done = done + 1;
        }
    }
    proof {
        assert(orig.take(orig.len() as int) =~= orig);
    }
    out
}

/// Which tool realizes a component.
#[derive(Clone, Copy, PartialEq, Eq, Structural, Debug)]
pub enum DeployKind {
    Docker,
    Wasm,
    Ebpf,
    Skip,
}

/// The tool a component type names; anything else is skipped.
pub fn classify(component_type: &Option<String>) -> (r: DeployKind)
    ensures
        match component_type {
            Some(t) => {
                &&& (r == DeployKind::Docker <==> t@ == "docker"@)
                &&& (r == DeployKind::Wasm <==> t@ == "wasm"@)
                &&& (r == DeployKind::Ebpf <==> t@ == "ebpf"@)
            },
            None => r == DeployKind::Skip,
        },
{
    proof {
        broadcast use vstd::string::group_string_axioms;

        reveal_strlit("docker");
        reveal_strlit("wasm");
        reveal_strlit("ebpf");
        assert(("docker"@).len() == 6);
        assert(("wasm"@).len() == 4);
        assert(("ebpf"@).len() == 4);
        assert(("wasm"@)[0] != ("ebpf"@)[0]);
    }
    match component_type {
        Some(t) => {
            if str_eq(t.as_str(), "docker") {
                DeployKind::Docker
            } else if str_eq(t.as_str(), "wasm") {
                DeployKind::Wasm
            } else if str_eq(t.as_str(), "ebpf") {
                DeployKind::Ebpf
            } else {
                DeployKind::Skip
            }
        },
        None => DeployKind::Skip,
    }
}

/// What stands after the last `/`: the file a download address names.
pub open spec fn spec_file_name(s: Seq<char>) -> Seq<char>
    decreases s.len(),
{
    if s.len() == 0 {
        Seq::empty()
    } else if s.last() == '/' {
        Seq::empty()
    } else {
        spec_file_name(s.drop_last()).push(s.last())
    }
}

/// A suffix free of `/` that begins right after one is the file name.
proof fn lemma_file_name_suffix(s: Seq<char>, i: int)
    requires
        0 <= i <= s.len(),
        forall|j: int| i <= j < s.len() ==> s[j] != '/',
        i > 0 ==> s[i - 1] == '/',
    ensures
        spec_file_name(s) == s.skip(i),
    decreases s.len(),
{
    if s.len() == 0 {
        assert(s.skip(i) =~= s);
    } else if i == s.len() {
        assert(s.skip(i) =~= Seq::<char>::empty());
    } else {
        assert(s.last() != '/');
        lemma_file_name_suffix(s.drop_last(), i);
        assert(spec_file_name(s) == s.drop_last().skip(i).push(s.last()));
        assert(s.drop_last().skip(i).push(s.last()) =~= s.skip(i));
    }
}

/// The file a download address names: everything after its last `/`, or
/// the whole address when it holds none.
pub fn download_file_name(address: &str) -> (r: String)
    ensures
        r@ == spec_file_name(address@),
{
    let n = address.unicode_len();
    let mut start: usize = 0;
    let mut m: usize = 0;
    while m < n
        invariant
            n == address@.len(),
            0 <= m <= n,
            0 <= start <= m,
            start > 0 ==> address@[start - 1] == '/',
            forall|j: int| start <= j < m ==> address@[j] != '/',
        decreases n - m,
    {
        if address.get_char(m) == '/' {
            start = m + 1;
        }
        m += 1;
    }
    proof {
        lemma_file_name_suffix(address@, start as int);
    }
    let tail = address.substring_char(start, n);
    proof {
        assert(tail@ =~= address@.skip(start as int));
    }
    tail.to_owned()
}

/// The argument lists the agent hands to a tool for one component.
pub open spec fn view_args(args: Seq<String>) -> Seq<Seq<char>> {
    args.map_values(|s: String| s@)
}

/// The `docker` arguments that run a component: `run`, the configured
/// runtime when `container.runtime` is set, then detached with the
/// component's name and the image `container.image` names. Nothing runs
/// without an image.
pub open spec fn spec_docker_args(c: ComponentSpec) -> Option<Seq<Seq<char>>> {
    match spec_component_prop(c, "container.image"@) {
        Some(img) => Some(
            (match spec_component_prop(c, "container.runtime"@) {
                Some(rt) => seq!["run"@, "--runtime"@, rt],
                None => seq!["run"@],
            }) + seq!["-d"@, "--name"@, c.name@, img],
        ),
        None => None,
    }
}

/// Plans the `docker` invocation for a component; `None` exactly when the
/// component names no image.
pub fn docker_run_args(c: &ComponentSpec) -> (r: Option<Vec<String>>)
    ensures
        match r {
            Some(args) => spec_docker_args(*c) == Some(view_args(args@)),
            None => spec_docker_args(*c) is None,
        },
{
    let image = match string_prop(c, "container.image") {
        Some(s) => s,
        None => {
            return None;
        },
    };
    let mut args: Vec<String> = Vec::new();
    args.push(String::from_str("run"));
    match string_prop(c, "container.runtime") {
        Some(rt) => {
            args.push(String::from_str("--runtime"));
            args.push(rt);
        },
        None => {
        },
    }
    args.push(String::from_str("-d"));
    args.push(String::from_str("--name"));
    args.push(c.name.clone());
    args.push(image);
    proof {
        assert(view_args(args@) =~= spec_docker_args(*c)->Some_0);
    }
    Some(args)
}

/// Reads a string property of a component.
fn string_prop(c: &ComponentSpec, key: &str) -> (r: Option<String>)
    ensures
        match r {
            Some(s) => spec_component_prop(*c, key@) == Some(s@),
            None => spec_component_prop(*c, key@) is None,
        },
{
    match &c.properties {
        Some(props) => match kvlist::lookup(props, key) {
            Some(JsonValue::Str(s)) => Some(s.clone()),
            _ => None,
        },
        None => None,
    }
}

/// What the agent runs for a WebAssembly component: the module downloaded
/// from `wasm.url`, preceded by the preopened directory `wasm.dir` names,
/// when it names one.
pub open spec fn spec_wasm_args(c: ComponentSpec) -> Option<(Seq<char>, Seq<Seq<char>>)> {
    match spec_component_prop(c, "wasm.url"@) {
        Some(url) => Some(
            (
                url,
                (match spec_component_prop(c, "wasm.dir"@) {
                    Some(dir) => seq!["--dir"@, dir],
                    None => Seq::empty(),
                }) + seq![spec_file_name(url)],
            ),
        ),
        None => None,
    }
}

/// Plans the `wasmedge` invocation for a component: the address to fetch
/// and the arguments to run. `None` exactly when the component names no
/// module address.
pub fn wasmedge_args(c: &ComponentSpec) -> (r: Option<(String, Vec<String>)>)
    ensures
        match r {
            Some(p) => spec_wasm_args(*c) == Some((p.0@, view_args(p.1@))),
            None => spec_wasm_args(*c) is None,
        },
{
    let url = match string_prop(c, "wasm.url") {
        Some(s) => s,
        None => {
            return None;
        },
    };
    let mut args: Vec<String> = Vec::new();
    match string_prop(c, "wasm.dir") {
        Some(dir) => {
            args.push(String::from_str("--dir"));
            args.push(dir);
        },
        None => {
        },
    }
    args.push(download_file_name(url.as_str()));
    proof {
        assert(view_args(args@) =~= spec_wasm_args(*c)->Some_0.1);
    }
    Some((url, args))
}

/// What the agent runs for an eBPF component.
#[derive(Debug)]
pub struct EbpfPlan {
    /// The address the program is downloaded from.
    pub url: String,
    /// `bpftool` arguments that check whether the program is loaded.
    pub show_args: Vec<String>,
    /// `bpftool` arguments that load the program and pin it.
    pub load_args: Vec<String>,
    /// `bpftool` arguments that attach it to `ebpf.event`, when set.
    pub attach_args: Option<Vec<String>>,
}

/// The `bpftool` show arguments for a component's program.
pub open spec fn spec_ebpf_show_args(c: ComponentSpec) -> Seq<Seq<char>> {
    seq!["prog"@, "show"@, "name"@, c.name@]
}

/// The `bpftool` load arguments: the downloaded file, pinned under the
/// component's name.
pub open spec fn spec_ebpf_load_args(c: ComponentSpec, url: Seq<char>) -> Seq<Seq<char>> {
    seq!["prog"@, "load"@, spec_file_name(url), "/sys/fs/bpf/"@ + c.name@]
}

/// The `bpftool` attach arguments for an event.
pub open spec fn spec_ebpf_attach_args(c: ComponentSpec, event: Seq<char>) -> Seq<Seq<char>> {
    seq!["net"@, "attach"@, event, "name"@, c.name@, "dev"@, "eth0"@]
}

/// Plans the `bpftool` invocations for a component: check, load and pin,
/// and attach to the configured event when `ebpf.event` is set. `None`
/// exactly when the component names no program address under `ebpf.url`.
pub fn ebpf_plan(c: &ComponentSpec) -> (r: Option<EbpfPlan>)
    ensures
        match r {
            Some(p) => {
                &&& spec_component_prop(*c, "ebpf.url"@) == Some(p.url@)
                &&& view_args(p.show_args@) == spec_ebpf_show_args(*c)
                &&& view_args(p.load_args@) == spec_ebpf_load_args(*c, p.url@)
                &&& match p.attach_args {
                    Some(a) => spec_component_prop(*c, "ebpf.event"@) matches Some(ev)
                        && view_args(a@) == spec_ebpf_attach_args(*c, ev),
                    None => spec_component_prop(*c, "ebpf.event"@) is None,
                }
            },
            None => spec_component_prop(*c, "ebpf.url"@) is None,
        },
{
    let url = match string_prop(c, "ebpf.url") {
        Some(s) => s,
        None => {
            return None;
        },
    };
    let mut show_args: Vec<String> = Vec::new();
    show_args.push(String::from_str("prog"));
    show_args.push(String::from_str("show"));
    show_args.push(String::from_str("name"));
    show_args.push(c.name.clone());
    proof {
        assert(view_args(show_args@) =~= spec_ebpf_show_args(*c));
    }
    let mut load_args: Vec<String> = Vec::new();
    load_args.push(String::from_str("prog"));
    load_args.push(String::from_str("load"));
    load_args.push(download_file_name(url.as_str()));
    load_args.push(String::from_str("/sys/fs/bpf/").concat(c.name.as_str()));
    proof {
        assert(view_args(load_args@) =~= spec_ebpf_load_args(*c, url@));
    }
    let attach_args: Option<Vec<String>> = match string_prop(c, "ebpf.event") {
        Some(event) => {
            let mut a: Vec<String> = Vec::new();
            a.push(String::from_str("net"));
            a.push(String::from_str("attach"));
            let ghost ev = event@;
            a.push(event);
            a.push(String::from_str("name"));
            a.push(c.name.clone());
            a.push(String::from_str("dev"));
            a.push(String::from_str("eth0"));
            proof {
                assert(view_args(a@) =~= spec_ebpf_attach_args(*c, ev));
            }
            Some(a)
        },
        None => None,
    };
    Some(EbpfPlan { url, show_args, load_args, attach_args })
}

/// The processes the agent has launched, by the key `catalog-component`.
#[derive(Debug)]
pub struct ProcessTable {
    pub entries: Vec<(String, String)>,
}

impl ProcessTable {
    /// No two entries share a key.
    pub open spec fn wf(&self) -> bool {
        kvlist::unique_keys(self.entries@)
    }

    /// An empty table.
    pub fn new() -> (r: Self)
        ensures
            r.wf(),
            r.entries@.len() == 0,
    {
        ProcessTable { entries: Vec::new() }
    }

    /// The process id recorded under `key`, if any.
    pub fn lookup(&self, key: &str) -> (r: Option<String>)
        ensures
            match r {
                Some(pid) => kvlist::spec_lookup(self.entries@, key@) matches Some(p) && p@ == pid@,
                None => kvlist::spec_lookup(self.entries@, key@) is None,
            },
    {
        match kvlist::lookup(&self.entries, key) {
            Some(pid) => Some(pid.clone()),
            None => None,
        }
    }

    /// Records a process id under `key`, replacing what the key held.
    pub fn record(&mut self, key: String, pid: String)
        requires
            old(self).wf(),
        ensures
            final(self).wf(),
            kvlist::spec_lookup(final(self).entries@, key@) matches Some(p) && p@ == pid@,
            forall|k: Seq<char>|
                k != key@ ==> kvlist::spec_lookup(final(self).entries@, k) == kvlist::spec_lookup(
                    old(self).entries@,
                    k,
                ),
    {
        let ghost old_entries = self.entries@;
        match kvlist::find_key_index(&self.entries, key.as_str()) {
            Some(p) => {
                self.entries.remove(p);
                self.entries.insert(p, (key, pid));
                proof {
                    assert(self.entries@ =~= old_entries.update(
                        p as int,
                        (self.entries@[p as int].0, self.entries@[p as int].1),
                    ));
                    assert forall|k: Seq<char>| k != self.entries@[p as int].0@ implies
                        kvlist::spec_lookup(self.entries@, k) == kvlist::spec_lookup(
                        old_entries,
                        k,
                    ) by {
                        lemma_lookup_update_other(old_entries, p as int, self.entries@[p as int], k);
                    }
                    kvlist::lemma_lookup_entry(self.entries@, self.entries@[p as int].0@, p as int);
                }
            },
            None => {
                self.entries.insert(0, (key, pid));
                proof {
                    assert(self.entries@.drop_first() =~= old_entries);
                    assert forall|a: int, b: int| 0 <= a < b < self.entries@.len() implies (
                    #[trigger] self.entries@[a]).0@ != (#[trigger] self.entries@[b]).0@ by {
                        if a == 0 {
                            assert(self.entries@[b] == old_entries[b - 1]);
                        } else {
                            assert(self.entries@[a] == old_entries[a - 1]);
                            assert(self.entries@[b] == old_entries[b - 1]);
                        }
                    }
                }
            },
        }
    }
}

/// Replacing one entry leaves every other key's lookup unchanged.
proof fn lemma_lookup_update_other(
    entries: Seq<(String, String)>,
    p: int,
    e: (String, String),
    k: Seq<char>,
)
    requires
        0 <= p < entries.len(),
        e.0@ == entries[p].0@,
        k != e.0@,
    ensures
        kvlist::spec_lookup(entries.update(p, e), k) == kvlist::spec_lookup(entries, k),
    decreases entries.len(),
{
    if p == 0 {
        assert(entries.update(0, e)[0] == e);
        assert(entries.update(0, e).drop_first() =~= entries.drop_first());
    } else {
        assert(entries.update(p, e)[0] == entries[0]);
        assert(entries.update(p, e).drop_first() =~= entries.drop_first().update(p - 1, e));
        lemma_lookup_update_other(entries.drop_first(), p - 1, e, k);
    }
}

/// The key a launched component is tracked under: `catalog-component`.
pub fn process_key(catalog_name: &str, component_name: &str) -> (r: String)
    ensures
        r@ == catalog_name@ + "-"@ + component_name@,
{
    String::from_str(catalog_name).concat("-").concat(component_name)
}

/// The page served for one request of the sample trace server: the index
/// links to the traces, the trace page shows what was read from the trace
/// pipe or that there is none, and anything else is not found.
pub open spec fn spec_echo_response(
    method: Seq<char>,
    path: Seq<char>,
    trace: Option<Seq<char>>,
) -> Seq<char> {
    if method == "GET"@ && path == "/"@ {
        "<h1>Web server inside WebAssembly</h1><a href='/trace'>eBFP Traces</a>"@
    } else if method == "GET"@ && path == "/trace"@ {
        match trace {
            Some(t) => "<h1>Web server inside WebAssembly</h1><p>eBFP Traces:</p><pre>"@ + t
                + "</pre>"@,
            None => "<h1>Web server inside WebAssembly</h1><p>No traces</p></p>"@,
        }
    } else {
        "Not found"@
    }
}

/// Builds the response body for one request of the sample trace server;
/// `trace` carries what could be read from the trace pipe.
pub fn echo_response(method: &str, path: &str, trace: Option<String>) -> (r: String)
    ensures
        r@ == spec_echo_response(
            method@,
            path@,
            match trace {
                Some(t) => Some(t@),
                None => None,
            },
        ),
{
    if str_eq(method, "GET") && str_eq(path, "/") {
        String::from_str("<h1>Web server inside WebAssembly</h1><a href='/trace'>eBFP Traces</a>")
    } else if str_eq(method, "GET") && str_eq(path, "/trace") {
        match trace {
            Some(t) => String::from_str(
                "<h1>Web server inside WebAssembly</h1><p>eBFP Traces:</p><pre>",
            ).concat(t.as_str()).concat("</pre>"),
            None => String::from_str(
                "<h1>Web server inside WebAssembly</h1><p>No traces</p></p>",
            ),
        }
    } else {
        String::from_str("Not found")
    }
}

} // verus!
