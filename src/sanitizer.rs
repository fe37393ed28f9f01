//! Startup Sanitizer: the clean-up that a run performs before anything else,
//! so that orphans of an earlier, uncleanly ended run cannot interfere.
use vstd::prelude::*;
use vstd::string::*;

use crate::config::{supplicant_conf, supplicant_conf_spec, ApConfig};

verus! {

/// Client control socket that an earlier run may have left behind.
pub const STALE_CLIENT_SOCKET: &'static str = "/tmp/wpa_ctrl_1";

/// One host operation of the clean-up.
#[derive(Debug, Clone)]
pub enum HostStep {
    /// `SIGKILL` every process with this name.
    KillAll(String),
    /// Wait this many milliseconds.
    Pause(u64),
    /// Set the link of an interface down or up.
    SetLink { interface: String, up: bool },
    /// Delete a file if it exists.
    RemoveFile(String),
    /// Write a file with this content.
    WriteFile { path: String, content: String },
    /// Start the supplicant as a daemon on the interface with the
    /// configuration file; it creates its control socket. Failure is fatal.
    StartSupplicant { interface: String, conf_path: String, control_socket: String },
    /// Wait up to this many milliseconds for the file to appear.
    WaitForFile { path: String, timeout_ms: u64 },
}

/// A host operation, as mathematical values.
pub enum HostStepView {
    KillAll(Seq<char>),
    Pause(u64),
    SetLink { interface: Seq<char>, up: bool },
    RemoveFile(Seq<char>),
    WriteFile { path: Seq<char>, content: Seq<char> },
    StartSupplicant { interface: Seq<char>, conf_path: Seq<char>, control_socket: Seq<char> },
    WaitForFile { path: Seq<char>, timeout_ms: u64 },
}

impl View for HostStep {
    type V = HostStepView;

    open spec fn view(&self) -> HostStepView {
        match self {
            HostStep::KillAll(n) => HostStepView::KillAll(n@),
            HostStep::Pause(ms) => HostStepView::Pause(*ms),
            HostStep::SetLink { interface, up } => HostStepView::SetLink {
                interface: interface@,
                up: *up,
            },
            HostStep::RemoveFile(p) => HostStepView::RemoveFile(p@),
            HostStep::WriteFile { path, content } => HostStepView::WriteFile {
                path: path@,
                content: content@,
            },
            HostStep::StartSupplicant { interface, conf_path, control_socket } =>
                HostStepView::StartSupplicant {
                interface: interface@,
                conf_path: conf_path@,
                control_socket: control_socket@,
            },
            HostStep::WaitForFile { path, timeout_ms } => HostStepView::WaitForFile {
                path: path@,
                timeout_ms: *timeout_ms,
            },
        }
    }
}

/// `dir` joined with `name`, with one '/' between them.
pub open spec fn join_path(dir: Seq<char>, name: Seq<char>) -> Seq<char> {
    if dir.len() > 0 && dir.last() == '/' {
        dir + name
    } else {
        dir + "/"@ + name
    }
}

/// The clean-up, in order: kill orphan daemons, pause, cycle the interface
/// down and up with pauses, remove the stale client and server sockets,
/// write a fresh supplicant configuration, start the supplicant, and wait
/// for its control socket.
pub open spec fn cleanup_plan_spec(c: ApConfig) -> Seq<HostStepView> {
    let socket = join_path(c.wpa_ctrl_interface@, c.interface_name@);
    seq![
        HostStepView::KillAll("wpa_supplicant"@),
        HostStepView::KillAll("hostapd"@),
        HostStepView::KillAll("dnsmasq"@),
        HostStepView::Pause(500),
        HostStepView::SetLink { interface: c.interface_name@, up: false },
        HostStepView::Pause(500),
        HostStepView::SetLink { interface: c.interface_name@, up: true },
        HostStepView::Pause(500),
        HostStepView::RemoveFile(STALE_CLIENT_SOCKET@),
        HostStepView::RemoveFile(socket),
        HostStepView::WriteFile {
            path: c.wpa_conf_path@,
            content: supplicant_conf_spec(c.wpa_ctrl_interface@, c.wpa_group@, c.wpa_update_config),
        },
        HostStepView::StartSupplicant {
            interface: c.interface_name@,
            conf_path: c.wpa_conf_path@,
            control_socket: socket,
        },
        HostStepView::WaitForFile { path: socket, timeout_ms: 2000 },
    ]
}

pub open spec fn host_steps_view(v: Seq<HostStep>) -> Seq<HostStepView> {
    v.map_values(|s: HostStep| s@)
}

fn join(dir: &str, name: &str) -> (r: String)
    ensures
        r@ == join_path(dir@, name@),
{
    let n = dir.unicode_len();
    let mut s = String::from_str(dir);
    if n > 0 && dir.get_char(n - 1) == '/' {
        s.append(name);
    } else {
        s.append("/");
        s.append(name);
    }
    s
}

/// The clean-up for this configuration.
pub fn startup_cleanup_plan(config: &ApConfig) -> (r: Vec<HostStep>)
    ensures
        host_steps_view(r@) == cleanup_plan_spec(*config),
{
    let iface = config.interface_name.as_str();
    let socket = join(config.wpa_ctrl_interface.as_str(), iface);
    let mut v: Vec<HostStep> = Vec::new();
    v.push(HostStep::KillAll(String::from_str("wpa_supplicant")));
    v.push(HostStep::KillAll(String::from_str("hostapd")));
    v.push(HostStep::KillAll(String::from_str("dnsmasq")));
    v.push(HostStep::Pause(500));
    v.push(HostStep::SetLink { interface: String::from_str(iface), up: false });
    v.push(HostStep::Pause(500));
    v.push(HostStep::SetLink { interface: String::from_str(iface), up: true });
    v.push(HostStep::Pause(500));
    v.push(HostStep::RemoveFile(String::from_str(STALE_CLIENT_SOCKET)));
    v.push(HostStep::RemoveFile(socket.clone()));
    v.push(
        HostStep::WriteFile {
            path: String::from_str(config.wpa_conf_path.as_str()),
            content: supplicant_conf(config),
        },
    );
    v.push(
        HostStep::StartSupplicant {
            interface: String::from_str(iface),
            conf_path: String::from_str(config.wpa_conf_path.as_str()),
            control_socket: socket.clone(),
        },
    );
    v.push(HostStep::WaitForFile { path: socket, timeout_ms: 2000 });
    assert(host_steps_view(v@) =~= cleanup_plan_spec(*config));
    v
}

/// The parts of the host that the clean-up touches.
pub struct HostView {
    /// Names of the running processes.
    pub processes: Set<Seq<char>>,
    /// Files, by path, with their content (empty for a socket).
    pub files: Map<Seq<char>, Seq<char>>,
    /// Whether each interface's link is up.
    pub links: Map<Seq<char>, bool>,
}

/// The host after one step.
pub open spec fn apply_step(h: HostView, s: HostStepView) -> HostView {
    match s {
        HostStepView::KillAll(n) => HostView { processes: h.processes.remove(n), ..h },
        HostStepView::SetLink { interface, up } => HostView {
            links: h.links.insert(interface, up),
            ..h
        },
        HostStepView::RemoveFile(p) => HostView { files: h.files.remove(p), ..h },
        HostStepView::WriteFile { path, content } => HostView {
            files: h.files.insert(path, content),
            ..h
        },
        HostStepView::StartSupplicant { control_socket, .. } => HostView {
            processes: h.processes.insert("wpa_supplicant"@),
            files: h.files.insert(control_socket, Seq::empty()),
            ..h
        },
        _ => h,
    }
}

/// The host after each of the steps in turn.
pub open spec fn apply_steps(h: HostView, steps: Seq<HostStepView>) -> HostView
    decreases steps.len(),
{
    if steps.len() == 0 {
        h
    } else {
        apply_steps(apply_step(h, steps[0]), steps.skip(1))
    }
}

proof fn lemma_apply_steps_cons(h: HostView, s: HostStepView, rest: Seq<HostStepView>)
    ensures
        apply_steps(h, seq![s] + rest) == apply_steps(apply_step(h, s), rest),
{
    assert((seq![s] + rest).skip(1) =~= rest);
}

/// The host after the clean-up, stated directly.
pub open spec fn cleaned(h: HostView, c: ApConfig) -> HostView {
    let socket = join_path(c.wpa_ctrl_interface@, c.interface_name@);
    HostView {
        processes: h.processes.remove("wpa_supplicant"@).remove("hostapd"@).remove(
            "dnsmasq"@,
        ).insert("wpa_supplicant"@),
        files: h.files.remove(STALE_CLIENT_SOCKET@).remove(socket).insert(
            c.wpa_conf_path@,
            supplicant_conf_spec(c.wpa_ctrl_interface@, c.wpa_group@, c.wpa_update_config),
        ).insert(socket, Seq::empty()),
        links: h.links.insert(c.interface_name@, false).insert(c.interface_name@, true),
    }
}

proof fn lemma_cleanup_effect(h: HostView, c: ApConfig)
    ensures
        apply_steps(h, cleanup_plan_spec(c)) == cleaned(h, c),
{
    let p = cleanup_plan_spec(c);
    let mut g = h;
    assert(p.skip(0) =~= seq![p[0]] + p.skip(1));
    lemma_apply_steps_cons(g, p[0], p.skip(1));
    g = apply_step(g, p[0]);
    assert(p.skip(1) =~= seq![p[1]] + p.skip(2));
    lemma_apply_steps_cons(g, p[1], p.skip(2));
    g = apply_step(g, p[1]);
    assert(p.skip(2) =~= seq![p[2]] + p.skip(3));
    lemma_apply_steps_cons(g, p[2], p.skip(3));
    g = apply_step(g, p[2]);
    assert(p.skip(3) =~= seq![p[3]] + p.skip(4));
    lemma_apply_steps_cons(g, p[3], p.skip(4));
    g = apply_step(g, p[3]);
    assert(p.skip(4) =~= seq![p[4]] + p.skip(5));
    lemma_apply_steps_cons(g, p[4], p.skip(5));
    g = apply_step(g, p[4]);
    assert(p.skip(5) =~= seq![p[5]] + p.skip(6));
    lemma_apply_steps_cons(g, p[5], p.skip(6));
    g = apply_step(g, p[5]);
    assert(p.skip(6) =~= seq![p[6]] + p.skip(7));
    lemma_apply_steps_cons(g, p[6], p.skip(7));
    g = apply_step(g, p[6]);
    assert(p.skip(7) =~= seq![p[7]] + p.skip(8));
    lemma_apply_steps_cons(g, p[7], p.skip(8));
    g = apply_step(g, p[7]);
    assert(p.skip(8) =~= seq![p[8]] + p.skip(9));
    lemma_apply_steps_cons(g, p[8], p.skip(9));
    g = apply_step(g, p[8]);
    assert(p.skip(9) =~= seq![p[9]] + p.skip(10));
    lemma_apply_steps_cons(g, p[9], p.skip(10));
    g = apply_step(g, p[9]);
    assert(p.skip(10) =~= seq![p[10]] + p.skip(11));
    lemma_apply_steps_cons(g, p[10], p.skip(11));
    g = apply_step(g, p[10]);
    assert(p.skip(11) =~= seq![p[11]] + p.skip(12));
    lemma_apply_steps_cons(g, p[11], p.skip(12));
    g = apply_step(g, p[11]);
    assert(p.skip(12) =~= seq![p[12]] + p.skip(13));
    lemma_apply_steps_cons(g, p[12], p.skip(13));
    g = apply_step(g, p[12]);
    assert(p.skip(0) =~= p);
    assert(p.skip(13) =~= Seq::<HostStepView>::empty());
    assert(g.processes =~= cleaned(h, c).processes);
    assert(g.files =~= cleaned(h, c).files);
    assert(g.links =~= cleaned(h, c).links);
}

/// Idempotence: running the clean-up twice in a row leaves the host as
/// running it once does.
pub proof fn lemma_cleanup_idempotent(h: HostView, c: ApConfig)
    ensures
        apply_steps(apply_steps(h, cleanup_plan_spec(c)), cleanup_plan_spec(c)) == apply_steps(
            h,
            cleanup_plan_spec(c),
        ),
{
    lemma_cleanup_effect(h, c);
    let once = cleaned(h, c);
    lemma_cleanup_effect(once, c);
    let twice = cleaned(once, c);
    assert(twice.processes =~= once.processes);
    assert(twice.files =~= once.files);
    assert(twice.links =~= once.links);
}

/// The host after the clean-up has run `n` times in a row.
pub open spec fn cleanup_runs(h: HostView, c: ApConfig, n: nat) -> HostView
    decreases n,
{
    if n == 0 {
        h
    } else {
        apply_steps(cleanup_runs(h, c, (n - 1) as nat), cleanup_plan_spec(c))
    }
}

/// Running the clean-up any number of times in a row, at least once, leaves
/// the host as running it once does.
pub proof fn lemma_cleanup_runs(h: HostView, c: ApConfig, n: nat)
    requires
        n >= 1,
    ensures
        cleanup_runs(h, c, n) == apply_steps(h, cleanup_plan_spec(c)),
    decreases n,
{
    if n > 1 {
        lemma_cleanup_runs(h, c, (n - 1) as nat);
        lemma_cleanup_idempotent(h, c);
    } else {
        assert(cleanup_runs(h, c, 0) == h);
    }
}

} // verus!
