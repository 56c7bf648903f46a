//! Lambdas: named, immutable script definitions, and how they are
//! materialized into a sandbox.
//!
//! A lambda is a Python or a Bash script.  Materialization computes the
//! effective script (the payload, given an interpreter shebang line if
//! it does not already carry one) and a deterministic artifact name
//! derived from a stable hash of the effective script plus the
//! variant's extension.  Identical scripts therefore map to the same
//! artifact, across executions and across concurrent requests.

use vstd::prelude::*;

use crate::sandbox::{LaunchSpec, SandboxKind};

verus! {

/// Offset basis of the 64-bit FNV-1a hash.
pub const FNV_OFFSET: u64 = 0xcbf2_9ce4_8422_2325;

/// Prime multiplier of the 64-bit FNV-1a hash.
pub const FNV_PRIME: u64 = 0x100_0000_01b3;

/// One FNV-1a round: fold one byte into the running hash.
pub open spec fn fnv1a_step(h: u64, b: u8) -> u64 {
    (h ^ (b as u64)).wrapping_mul(FNV_PRIME)
}

/// The running FNV-1a hash after folding in every byte of `bytes`,
/// starting from `h`.
pub open spec fn fnv1a_from(h: u64, bytes: Seq<u8>) -> u64
    decreases bytes.len(),
{
    if bytes.len() == 0 {
        h
    } else {
        fnv1a_from(fnv1a_step(h, bytes[0]), bytes.drop_first())
    }
}

/// The 64-bit FNV-1a hash of a byte sequence: a stable, deterministic
/// function of the bytes alone.
pub open spec fn fnv1a(bytes: Seq<u8>) -> u64 {
    fnv1a_from(FNV_OFFSET, bytes)
}

/// Compute the 64-bit FNV-1a hash of a byte slice.
pub fn fnv1a_hash(bytes: &[u8]) -> (h: u64)
    ensures
        h == fnv1a(bytes@),
{
    let mut h: u64 = FNV_OFFSET;
    let mut i: usize = 0;
    proof {
        assert(bytes@.skip(0) =~= bytes@);
    }
    while i < bytes.len()
        invariant
            i <= bytes@.len(),
            fnv1a_from(h, bytes@.skip(i as int)) == fnv1a(bytes@),
        decreases bytes@.len() - i,
    {
        let b = bytes[i];
        proof {
            assert(bytes@.skip(i as int)[0] == b);
            assert(bytes@.skip(i as int).drop_first() =~= bytes@.skip(i as int + 1));
        }
        h = (h ^ (b as u64)).wrapping_mul(FNV_PRIME);
        i = i + 1;
    }
    proof {
        assert(bytes@.skip(i as int) =~= Seq::<u8>::empty());
    }
    h
}

/// The decimal digit character for a value below ten.
pub open spec fn spec_digit_char(d: int) -> char {
    if d == 0 {
        '0'
    } else if d == 1 {
        '1'
    } else if d == 2 {
        '2'
    } else if d == 3 {
        '3'
    } else if d == 4 {
        '4'
    } else if d == 5 {
        '5'
    } else if d == 6 {
        '6'
    } else if d == 7 {
        '7'
    } else if d == 8 {
        '8'
    } else {
        '9'
    }
}

/// The decimal representation of a natural number, most significant
/// digit first, with no leading zero except for zero itself.
pub open spec fn spec_dec(n: nat) -> Seq<char>
    decreases n,
{
    if n < 10 {
        seq![spec_digit_char(n as int)]
    } else {
        spec_dec(n / 10) + seq![spec_digit_char((n % 10) as int)]
    }
}

/// The decimal digit string for a value below ten.
fn digit_str(d: u64) -> (s: &'static str)
    requires
        d < 10,
    ensures
        s@ =~= seq![spec_digit_char(d as int)],
{
    proof {
        reveal_strlit("0");
        reveal_strlit("1");
        reveal_strlit("2");
        reveal_strlit("3");
        reveal_strlit("4");
        reveal_strlit("5");
        reveal_strlit("6");
        reveal_strlit("7");
        reveal_strlit("8");
        reveal_strlit("9");
    }
    if d == 0 {
        "0"
    } else if d == 1 {
        "1"
    } else if d == 2 {
        "2"
    } else if d == 3 {
        "3"
    } else if d == 4 {
        "4"
    } else if d == 5 {
        "5"
    } else if d == 6 {
        "6"
    } else if d == 7 {
        "7"
    } else if d == 8 {
        "8"
    } else {
        "9"
    }
}

/// Render a 64-bit value in decimal.
pub fn u64_to_dec(n: u64) -> (s: String)
    ensures
        s@ == spec_dec(n as nat),
    decreases n,
{
    let d = digit_str(n % 10);
    if n < 10 {
        d.to_owned()
    } else {
        u64_to_dec(n / 10).concat(d)
    }
}

/// Whether a script payload already starts with an interpreter line.
pub open spec fn spec_has_shebang(s: Seq<char>) -> bool {
    s.len() >= 2 && s[0] == '#' && s[1] == '!'
}

/// The effective script: the payload itself when it already carries an
/// interpreter line, otherwise the shebang line followed by the
/// payload.
pub open spec fn spec_effective(shebang: Seq<char>, code: Seq<char>) -> Seq<char> {
    if spec_has_shebang(code) {
        code
    } else {
        shebang + code
    }
}

/// Whether a script payload already starts with an interpreter line.
pub fn has_shebang(s: &str) -> (r: bool)
    ensures
        r == spec_has_shebang(s@),
{
    let n = s.unicode_len();
    if n < 2 {
        false
    } else {
        let c0 = s.get_char(0);
        let c1 = s.get_char(1);
        c0 == '#' && c1 == '!'
    }
}

/// A Python lambda: a script payload and an entrypoint identifier.
pub struct PyApp {
    /// The Python source.
    pub pycode: String,
    /// Entrypoint identifier carried with the definition.
    pub entrypoint: String,
}

/// A Bash lambda: a script payload.
pub struct BashApp {
    /// The Bash source.
    pub script: String,
}

impl PyApp {
    /// Create a new Python lambda.
    pub fn new(pycode: String, entrypoint: String) -> (r: Self)
        ensures
            r.pycode == pycode,
            r.entrypoint == entrypoint,
    {
        PyApp { pycode, entrypoint }
    }
}

impl BashApp {
    /// Create a new Bash lambda.
    pub fn new(script: String) -> (r: Self)
        ensures
            r.script == script,
    {
        BashApp { script }
    }
}

/// Kind of lambda app: Python or Bash.
pub enum LambdaAppKind {
    /// Python wrapper.
    Py(PyApp),
    /// Bash wrapper.
    Bash(BashApp),
}

/// The Python interpreter line.
pub open spec fn spec_py_shebang() -> Seq<char> {
    "#!/bin/env python3\n"@
}

/// The Bash interpreter line.
pub open spec fn spec_bash_shebang() -> Seq<char> {
    "#!/bin/env bash\n"@
}

/// Everything the surrounding process needs to materialize and launch
/// one lambda in one sandbox: the artifact's name, its content, the
/// path it is placed at, and the launch description.  Placing the file
/// (world-executable) and spawning the child are I/O and happen
/// outside.
pub struct SpawnPlan {
    /// Artifact file name: the decimal hash of the content plus the
    /// variant's extension.
    pub filename: String,
    /// Artifact content: the effective script.
    pub content: String,
    /// Absolute path of the artifact in the sandbox working directory.
    pub dest_path: String,
    /// How to launch the artifact.
    pub launch: LaunchSpec,
}

impl LambdaAppKind {
    /// The interpreter line for this variant.
    pub open spec fn spec_shebang(&self) -> Seq<char> {
        match self {
            LambdaAppKind::Py(_) => spec_py_shebang(),
            LambdaAppKind::Bash(_) => spec_bash_shebang(),
        }
    }

    /// The script payload carried by this lambda.
    pub open spec fn spec_code(&self) -> Seq<char> {
        match self {
            LambdaAppKind::Py(p) => p.pycode@,
            LambdaAppKind::Bash(b) => b.script@,
        }
    }

    /// The artifact extension for this variant.
    pub open spec fn spec_extension(&self) -> Seq<char> {
        match self {
            LambdaAppKind::Py(_) => ".py"@,
            LambdaAppKind::Bash(_) => ".bash"@,
        }
    }

    /// The effective script this lambda materializes to.
    pub open spec fn spec_effective_script(&self) -> Seq<char> {
        spec_effective(self.spec_shebang(), self.spec_code())
    }

    /// The artifact name this lambda materializes to: the decimal form
    /// of the hash of the effective script's bytes, plus the extension.
    pub open spec fn spec_filename(&self) -> Seq<char> {
        spec_dec(fnv1a(vstd::utf8::encode_utf8(self.spec_effective_script())) as nat)
            + self.spec_extension()
    }

    /// Compute the effective script.
    pub fn effective_script(&self) -> (r: String)
        ensures
            r@ == self.spec_effective_script(),
            spec_has_shebang(r@),
    {
        proof {
            reveal_strlit("#!/bin/env python3\n");
            reveal_strlit("#!/bin/env bash\n");
        }
        match self {
            LambdaAppKind::Py(p) => {
                if has_shebang(p.pycode.as_str()) {
                    p.pycode.clone()
                } else {
                    String::from_str("#!/bin/env python3\n").concat(p.pycode.as_str())
                }
            },
            LambdaAppKind::Bash(b) => {
                if has_shebang(b.script.as_str()) {
                    b.script.clone()
                } else {
                    String::from_str("#!/bin/env bash\n").concat(b.script.as_str())
                }
            },
        }
    }

    /// Compute the artifact name.
    pub fn script_filename(&self) -> (r: String)
        ensures
            r@ == self.spec_filename(),
    {
        let eff = self.effective_script();
        let h = fnv1a_hash(eff.as_str().as_bytes());
        let ext: &str = match self {
            LambdaAppKind::Py(_) => ".py",
            LambdaAppKind::Bash(_) => ".bash",
        };
        u64_to_dec(h).concat(ext)
    }

    /// Compute everything needed to materialize and launch this lambda
    /// in the given sandbox with the given arguments: the artifact's
    /// deterministic name and content, its destination path, and the
    /// launch description for it.
    pub fn spawn_plan(&self, sandbox: &SandboxKind, args: &Vec<String>) -> (p: SpawnPlan)
        ensures
            p.content@ == self.spec_effective_script(),
            spec_has_shebang(p.content@),
            p.filename@ == self.spec_filename(),
            p.dest_path@ == sandbox.spec_wd() + "/"@ + p.filename@,
            crate::sandbox::launch_matches(sandbox, p.filename@, args.deep_view(), &p.launch),
    {
        let content = self.effective_script();
        let filename = self.script_filename();
        let dest_path = sandbox.injest_path(filename.as_str());
        let launch = sandbox.prepare_spawn(filename.as_str(), args);
        SpawnPlan { filename, content, dest_path, launch }
    }
}

/// Materialization is deterministic: two lambdas of the same variant
/// that carry the same script produce the same artifact content under
/// the same artifact name, so concurrent executions of identical
/// lambdas write the same bytes to the same file.
pub proof fn lemma_artifact_deterministic(a: &LambdaAppKind, b: &LambdaAppKind)
    requires
        a.spec_code() == b.spec_code(),
        a is Py <==> b is Py,
    ensures
        a.spec_effective_script() == b.spec_effective_script(),
        a.spec_filename() == b.spec_filename(),
{
}

} // verus!
