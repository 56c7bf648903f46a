//! Sandboxes: where a lambda's script is materialized and how it is
//! launched.
//!
//! A sandbox owns a working directory.  It answers two questions: at
//! which path a script artifact belongs (`injest_path`), and what
//! command launches an artifact (`prepare_spawn`).  The launch
//! description is returned as plain values; the surrounding process
//! turns it into an operating-system command and performs the file and
//! process I/O.

use vstd::prelude::*;

verus! {

/// An unstarted launch description: the program to run, its argument
/// vector, and, when one is imposed, the working directory.
pub struct LaunchSpec {
    /// Absolute path of the executable.
    pub program: String,
    /// Arguments, in order.
    pub args: Vec<String>,
    /// Working directory for the child, where one is imposed.
    pub current_dir: Option<String>,
}

/// A no-isolation sandbox: scripts run directly from a working
/// directory on the host.
#[derive(Debug)]
pub struct Host(pub String);

/// A kernel-namespace sandbox: scripts run under the bubblewrap jailing
/// binary with a stored sequence of isolation flags.
#[derive(Debug)]
pub struct BubbleWrap {
    /// Working directory that scripts are materialized into.
    pub path: String,
    /// Isolation flags passed through to the jailing binary.
    pub options: Vec<String>,
}

/// Kind of sandbox to isolate code.
#[derive(Debug)]
pub enum SandboxKind {
    /// Run directly on the host.
    Host(Host),
    /// Run under the bubblewrap jail.
    BubbleWrap(BubbleWrap),
}

/// Absolute path of the jailing binary.
pub open spec fn spec_bwrap_program() -> Seq<char> {
    "/usr/bin/bwrap"@
}

/// Mount point of the sandbox working directory inside the jail.
pub open spec fn spec_jail_wd() -> Seq<char> {
    "/wd"@
}

/// Copy a vector of strings element by element.
pub(crate) fn clone_string_vec(v: &Vec<String>) -> (r: Vec<String>)
    ensures
        r.deep_view() =~= v.deep_view(),
{
    let mut r: Vec<String> = Vec::new();
    let mut i: usize = 0;
    while i < v.len()
        invariant
            i <= v.len(),
            r.len() == i,
            forall|j: int| 0 <= j < i ==> r@[j]@ == v@[j]@,
        decreases v.len() - i,
    {
        r.push(v[i].clone());
        i = i + 1;
    }
    assert(r.deep_view() =~= v.deep_view());
    r
}

impl Host {
    /// Path at which an artifact named `filename` is placed in this
    /// sandbox: the working directory, a separator, the name.
    pub fn injest_path(&self, filename: &str) -> (p: String)
        ensures
            p@ == self.0@ + "/"@ + filename@,
    {
        self.0.clone().concat("/").concat(filename)
    }

    /// Launch description for an artifact: the artifact itself is the
    /// program, run from the working directory with the given
    /// arguments.
    pub fn prepare_spawn(&self, prg: &str, args: &Vec<String>) -> (r: LaunchSpec)
        ensures
            r.program@ == self.0@ + "/"@ + prg@,
            r.args.deep_view() =~= args.deep_view(),
            r.current_dir matches Some(d) && d@ == self.0@,
    {
        LaunchSpec {
            program: self.0.clone().concat("/").concat(prg),
            args: clone_string_vec(args),
            current_dir: Some(self.0.clone()),
        }
    }
}

impl BubbleWrap {
    /// Create a bubblewrap sandbox over a working directory with a
    /// sequence of isolation flags.
    pub fn new(path: String, options: Vec<String>) -> (r: Self)
        ensures
            r.path == path,
            r.options == options,
    {
        BubbleWrap { path, options }
    }

    /// Path at which an artifact named `filename` is placed in this
    /// sandbox.
    pub fn injest_path(&self, filename: &str) -> (p: String)
        ensures
            p@ == self.path@ + "/"@ + filename@,
    {
        self.path.clone().concat("/").concat(filename)
    }

    /// Launch description for an artifact: the jailing binary, told to
    /// bind the working directory at its mount point, then the stored
    /// isolation flags, then the artifact inside the jail and its
    /// arguments.  The jail controls the working directory.
    pub fn prepare_spawn(&self, prg: &str, args: &Vec<String>) -> (r: LaunchSpec)
        ensures
            r.program@ == spec_bwrap_program(),
            r.current_dir is None,
            r.args.deep_view() =~= seq!["--bind"@, self.path@, spec_jail_wd()]
                + self.options.deep_view() + seq!["--"@, spec_jail_wd() + "/"@ + prg@]
                + args.deep_view(),
    {
        let mut a: Vec<String> = Vec::new();
        a.push(String::from_str("--bind"));
        a.push(self.path.clone());
        a.push(String::from_str("/wd"));
        let mut i: usize = 0;
        while i < self.options.len()
            invariant
                i <= self.options.len(),
                a.len() == 3 + i,
                a@[0]@ == "--bind"@,
                a@[1]@ == self.path@,
                a@[2]@ == "/wd"@,
                forall|j: int| 0 <= j < i ==> a@[3 + j]@ == self.options@[j]@,
            decreases self.options.len() - i,
        {
            a.push(self.options[i].clone());
            i = i + 1;
        }
        a.push(String::from_str("--"));
        a.push(String::from_str("/wd").concat("/").concat(prg));
        let mut k: usize = 0;
        let base = a.len();
        while k < args.len()
            invariant
                k <= args.len(),
                a.len() == base + k,
                base == 5 + self.options.len(),
                a@[0]@ == "--bind"@,
                a@[1]@ == self.path@,
                a@[2]@ == "/wd"@,
                forall|j: int| 0 <= j < self.options.len() ==> a@[3 + j]@ == self.options@[j]@,
                a@[3 + self.options.len()]@ == "--"@,
                a@[4 + self.options.len()]@ == "/wd"@ + "/"@ + prg@,
                forall|j: int| 0 <= j < k ==> a@[base + j]@ == args@[j]@,
            decreases args.len() - k,
        {
            a.push(args[k].clone());
            k = k + 1;
        }
        proof {
            assert(spec_jail_wd() + "/"@ + prg@ == "/wd"@ + "/"@ + prg@);
            assert(a.deep_view() =~= seq!["--bind"@, self.path@, spec_jail_wd()]
                + self.options.deep_view() + seq!["--"@, spec_jail_wd() + "/"@ + prg@]
                + args.deep_view());
        }
        LaunchSpec { program: String::from_str("/usr/bin/bwrap"), args: a, current_dir: None }
    }
}

/// What a launch description for the artifact `prg` with arguments
/// `args` must hold for each sandbox kind.
pub open spec fn launch_matches(
    sb: &SandboxKind,
    prg: Seq<char>,
    args: Seq<Seq<char>>,
    r: &LaunchSpec,
) -> bool {
    match sb {
        SandboxKind::Host(h) => {
            &&& r.program@ == h.0@ + "/"@ + prg
            &&& r.args.deep_view() == args
            &&& r.current_dir matches Some(d) && d@ == h.0@
        },
        SandboxKind::BubbleWrap(b) => {
            &&& r.program@ == spec_bwrap_program()
            &&& r.current_dir is None
            &&& r.args.deep_view() == seq!["--bind"@, b.path@, spec_jail_wd()]
                + b.options.deep_view() + seq!["--"@, spec_jail_wd() + "/"@ + prg] + args
        },
    }
}

impl SandboxKind {
    /// The sandbox's working directory.
    pub open spec fn spec_wd(&self) -> Seq<char> {
        match self {
            SandboxKind::Host(h) => h.0@,
            SandboxKind::BubbleWrap(b) => b.path@,
        }
    }

    /// Path at which an artifact named `filename` is placed in this
    /// sandbox.
    pub fn injest_path(&self, filename: &str) -> (p: String)
        ensures
            p@ == self.spec_wd() + "/"@ + filename@,
    {
        match self {
            SandboxKind::Host(h) => h.injest_path(filename),
            SandboxKind::BubbleWrap(b) => b.injest_path(filename),
        }
    }

    /// Launch description for an artifact in this sandbox.
    pub fn prepare_spawn(&self, prg: &str, args: &Vec<String>) -> (r: LaunchSpec)
        ensures
            launch_matches(self, prg@, args.deep_view(), &r),
            (match self {
                SandboxKind::Host(h) => {
                    &&& r.program@ == h.0@ + "/"@ + prg@
                    &&& r.args.deep_view() =~= args.deep_view()
                    &&& r.current_dir matches Some(d) && d@ == h.0@
                },
                SandboxKind::BubbleWrap(b) => {
                    &&& r.program@ == spec_bwrap_program()
                    &&& r.current_dir is None
                    &&& r.args.deep_view() =~= seq!["--bind"@, b.path@, spec_jail_wd()]
                        + b.options.deep_view() + seq!["--"@, spec_jail_wd() + "/"@ + prg@]
                        + args.deep_view()
                },
            }),
    {
        match self {
            SandboxKind::Host(h) => h.prepare_spawn(prg, args),
            SandboxKind::BubbleWrap(b) => b.prepare_spawn(prg, args),
        }
    }
}

/// The flags the default jail is created with: read-only binds of the
/// system directories, fresh /dev, /proc and /tmp, full namespace
/// unsharing except the network, a fixed hostname, and session and
/// lifetime containment.
pub open spec fn spec_default_bwrap_options() -> Seq<Seq<char>> {
    seq![
        "--ro-bind"@,
        "/lib"@,
        "/lib"@,
        "--ro-bind"@,
        "/lib64"@,
        "/lib64"@,
        "--ro-bind"@,
        "/usr"@,
        "/usr"@,
        "--ro-bind"@,
        "/bin"@,
        "/bin"@,
        "--ro-bind"@,
        "/etc/alternatives"@,
        "/etc/alternatives"@,
        "/app"@,
        "--ro-bind"@,
        "/etc/ssl/certs"@,
        "/etc/ssl/certs"@,
        "--ro-bind"@,
        "/usr/share/ca-certificates"@,
        "/usr/share/ca-certificates"@,
        "--ro-bind"@,
        "/etc/resolv.conf"@,
        "/etc/resolv.conf"@,
        "--ro-bind"@,
        "/run/systemd/resolve/stub-resolv.conf"@,
        "/run/systemd/resolve/stub-resolv.conf"@,
        "--ro-bind"@,
        "/etc/machine-id"@,
        "/etc/machine-id"@,
        "--dev"@,
        "/dev"@,
        "--proc"@,
        "/proc"@,
        "--tmpfs"@,
        "/tmp"@,
        "--unshare-all"@,
        "--share-net"@,
        "--hostname"@,
        "RESTRICTED"@,
        "--die-with-parent"@,
        "--new-session"@,
    ]
}

/// The two sandboxes every process starts with: a host sandbox over one
/// working directory and a bubblewrap sandbox over another, the latter
/// with the default isolation flags.
pub fn default_sandboxs(host_wd: String, bwrap_wd: String) -> (r: (Host, BubbleWrap))
    ensures
        r.0.0@ == host_wd@,
        r.1.path@ == bwrap_wd@,
        r.1.options.deep_view() =~= spec_default_bwrap_options(),
{
    let host_sb = Host(host_wd);
    let mut options: Vec<String> = Vec::new();
    options.push(String::from_str("--ro-bind"));
    options.push(String::from_str("/lib"));
    options.push(String::from_str("/lib"));
    options.push(String::from_str("--ro-bind"));
    options.push(String::from_str("/lib64"));
    options.push(String::from_str("/lib64"));
    options.push(String::from_str("--ro-bind"));
    options.push(String::from_str("/usr"));
    options.push(String::from_str("/usr"));
    options.push(String::from_str("--ro-bind"));
    options.push(String::from_str("/bin"));
    options.push(String::from_str("/bin"));
    options.push(String::from_str("--ro-bind"));
    options.push(String::from_str("/etc/alternatives"));
    options.push(String::from_str("/etc/alternatives"));
    options.push(String::from_str("/app"));
    options.push(String::from_str("--ro-bind"));
    options.push(String::from_str("/etc/ssl/certs"));
    options.push(String::from_str("/etc/ssl/certs"));
    options.push(String::from_str("--ro-bind"));
    options.push(String::from_str("/usr/share/ca-certificates"));
    options.push(String::from_str("/usr/share/ca-certificates"));
    options.push(String::from_str("--ro-bind"));
    options.push(String::from_str("/etc/resolv.conf"));
    options.push(String::from_str("/etc/resolv.conf"));
    options.push(String::from_str("--ro-bind"));
    options.push(String::from_str("/run/systemd/resolve/stub-resolv.conf"));
    options.push(String::from_str("/run/systemd/resolve/stub-resolv.conf"));
    options.push(String::from_str("--ro-bind"));
    options.push(String::from_str("/etc/machine-id"));
    options.push(String::from_str("/etc/machine-id"));
    options.push(String::from_str("--dev"));
    options.push(String::from_str("/dev"));
    options.push(String::from_str("--proc"));
    options.push(String::from_str("/proc"));
    options.push(String::from_str("--tmpfs"));
    options.push(String::from_str("/tmp"));
    options.push(String::from_str("--unshare-all"));
    options.push(String::from_str("--share-net"));
    options.push(String::from_str("--hostname"));
    options.push(String::from_str("RESTRICTED"));
    options.push(String::from_str("--die-with-parent"));
    options.push(String::from_str("--new-session"));
    proof {
        assert(options.deep_view() =~= spec_default_bwrap_options());
    }
    let bwrap_sb = BubbleWrap::new(bwrap_wd, options);
    (host_sb, bwrap_sb)
}

} // verus!
