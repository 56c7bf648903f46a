//! Handler cores: the decisions behind each HTTP endpoint.
//!
//! Each function here is the computational part of one endpoint: it
//! takes plain values (the route parameters, the query parameters, the
//! decoded body) and the application state, and returns plain values
//! (the result, or the error with its status).  The surrounding process
//! does the HTTP decoding and encoding around these calls and, for an
//! execution, runs the multiplexer loop.

use vstd::prelude::*;

use crate::catalog::AppState;
use crate::error::{HttpErr, STATUS_CREATED, STATUS_NOT_FOUND, STATUS_OK};
use crate::lambda_app::{LambdaAppKind, SpawnPlan};
use crate::mux::MuxState;
use crate::pagination::Pagination;
use crate::sandbox::SandboxKind;

verus! {

/// Whether a character is whitespace, by its scalar value: the
/// characters the whitespace splitting of the argument string breaks
/// on.
pub open spec fn spec_is_ws(c: char) -> bool {
    ||| 0x9 <= c as u32 <= 0xd
    ||| c as u32 == 0x20
    ||| c as u32 == 0x85
    ||| c as u32 == 0xa0
    ||| c as u32 == 0x1680
    ||| 0x2000 <= c as u32 <= 0x200a
    ||| c as u32 == 0x2028
    ||| c as u32 == 0x2029
    ||| c as u32 == 0x202f
    ||| c as u32 == 0x205f
    ||| c as u32 == 0x3000
}

/// Whether a character is whitespace.
pub fn is_ws(c: char) -> (r: bool)
    ensures
        r == spec_is_ws(c),
{
    let u = c as u32;
    (0x9 <= u && u <= 0xd) || u == 0x20 || u == 0x85 || u == 0xa0 || u == 0x1680 || (0x2000 <= u
        && u <= 0x200a) || u == 0x2028 || u == 0x2029 || u == 0x202f || u == 0x205f || u == 0x3000
}

/// Splitting on whitespace, walked from the front with the token
/// gathered so far: whitespace closes the gathered token (if any),
/// anything else extends it, and the end closes what is left.
pub open spec fn spec_split_ws_from(s: Seq<char>, cur: Seq<char>) -> Seq<Seq<char>>
    decreases s.len(),
{
    if s.len() == 0 {
        if cur.len() == 0 {
            Seq::<Seq<char>>::empty()
        } else {
            seq![cur]
        }
    } else if spec_is_ws(s[0]) {
        (if cur.len() == 0 {
            Seq::<Seq<char>>::empty()
        } else {
            seq![cur]
        }) + spec_split_ws_from(s.drop_first(), Seq::<char>::empty())
    } else {
        spec_split_ws_from(s.drop_first(), cur.push(s[0]))
    }
}

/// The whitespace-separated tokens of a string, in order.  An empty or
/// all-whitespace string has no tokens.
pub open spec fn spec_split_ws(s: Seq<char>) -> Seq<Seq<char>> {
    spec_split_ws_from(s, Seq::<char>::empty())
}

/// Split a string on whitespace into its tokens.
pub fn split_args(s: &str) -> (r: Vec<String>)
    ensures
        r.deep_view() =~= spec_split_ws(s@),
{
    let n = s.unicode_len();
    let mut r: Vec<String> = Vec::new();
    let mut cur = String::new();
    let mut i: usize = 0;
    proof {
        assert(s@.skip(0) =~= s@);
    }
    while i < n
        invariant
            i <= n,
            n == s@.len(),
            spec_split_ws(s@) == r.deep_view() + spec_split_ws_from(s@.skip(i as int), cur@),
        decreases n - i,
    {
        let ghost pre = s@.skip(i as int);
        proof {
            assert(pre[0] == s@[i as int]);
            assert(pre.drop_first() =~= s@.skip(i as int + 1));
        }
        let c = s.get_char(i);
        if is_ws(c) {
            if !cur.as_str().is_empty() {
                let mut done = String::new();
                core::mem::swap(&mut done, &mut cur);
                let ghost old_dv = r.deep_view();
                r.push(done);
                proof {
                    assert(r.deep_view() =~= old_dv.push(done@));
                    assert(old_dv.push(done@) =~= old_dv + seq![done@]);
                    assert(cur@ =~= Seq::<char>::empty());
                }
            } else {
                proof {
                    assert(cur@ =~= Seq::<char>::empty());
                }
            }
        } else {
            let piece = s.substring_char(i, i + 1);
            proof {
                assert(piece@ =~= seq![s@[i as int]]);
            }
            let ghost old_cur = cur@;
            cur = cur.concat(piece);
            proof {
                assert(cur@ =~= old_cur.push(s@[i as int]));
            }
        }
        i = i + 1;
    }
    proof {
        assert(s@.skip(i as int) =~= Seq::<char>::empty());
    }
    if !cur.as_str().is_empty() {
        let ghost old_dv = r.deep_view();
        r.push(cur);
        proof {
            assert(r.deep_view() =~= old_dv.push(cur@));
        }
    }
    r
}

/// Execution query parameters: the sandbox to run in, the argument
/// string, and whether the exit status is appended to the stream.
#[derive(Debug)]
pub struct ExecParams {
    /// Name of the sandbox to run in.
    pub sandbox: String,
    /// Whitespace-separated arguments for the script.
    pub args: String,
    /// Whether a final status chunk is owed.
    pub status: bool,
}

impl core::default::Default for ExecParams {
    /// Without parameters an execution runs in the host sandbox, with
    /// no arguments and no status chunk.
    fn default() -> (r: Self)
        ensures
            r.sandbox@ == "host"@,
            r.args@ == Seq::<char>::empty(),
            r.status == false,
    {
        ExecParams { sandbox: String::from_str("host"), args: String::new(), status: false }
    }
}

/// What an insert carries: the new lambda's name and its definition.
pub struct LambdasInsert {
    /// Name the lambda is registered under.
    pub name: String,
    /// The definition itself.
    pub app: LambdaAppKind,
}

/// One page of the sandbox catalog.
pub fn sandboxs_index<'a>(state: &'a AppState, pagination: &Pagination) -> (r: Vec<
    (&'a String, &'a SandboxKind),
>)
    ensures
        r@.len() == (if pagination.offset > state.sandboxs.spec_entries().len() {
            0
        } else if pagination.limit > state.sandboxs.spec_entries().len() - pagination.offset {
            state.sandboxs.spec_entries().len() - pagination.offset
        } else {
            pagination.limit as int
        }),
        forall|j: int|
            0 <= j < r@.len() ==> (#[trigger] r@[j]).0@ == state.sandboxs.spec_entries()[
                pagination.offset + j
            ].0@ && *r@[j].1 == state.sandboxs.spec_entries()[pagination.offset + j].1,
{
    state.sandboxs.page(pagination.offset, pagination.limit)
}

/// One page of the lambda catalog.
pub fn lambdas_index<'a>(state: &'a AppState, pagination: &Pagination) -> (r: Vec<
    (&'a String, &'a LambdaAppKind),
>)
    ensures
        r@.len() == (if pagination.offset > state.lambdas.spec_entries().len() {
            0
        } else if pagination.limit > state.lambdas.spec_entries().len() - pagination.offset {
            state.lambdas.spec_entries().len() - pagination.offset
        } else {
            pagination.limit as int
        }),
        forall|j: int|
            0 <= j < r@.len() ==> (#[trigger] r@[j]).0@ == state.lambdas.spec_entries()[
                pagination.offset + j
            ].0@ && *r@[j].1 == state.lambdas.spec_entries()[pagination.offset + j].1,
{
    state.lambdas.page(pagination.offset, pagination.limit)
}

/// Register a lambda under a name, replacing any lambda the name
/// already carried.
pub fn lambdas_insert(state: &mut AppState, insert: LambdasInsert) -> (status: u16)
    ensures
        final(state).lambdas@ =~= old(state).lambdas@.insert(insert.name@, insert.app),
        final(state).sandboxs == old(state).sandboxs,
        status == STATUS_CREATED,
{
    state.lambdas.insert(insert.name, insert.app);
    STATUS_CREATED
}

/// Look a lambda up by name: the definition, or not-found.
pub fn lambda_get<'a>(state: &'a AppState, name: &String) -> (r: Result<&'a LambdaAppKind, HttpErr>)
    ensures
        r is Ok <==> state.lambdas@.contains_key(name@),
        (match r {
            Ok(l) => *l == state.lambdas@[name@],
            Err(e) => e == HttpErr::Status(STATUS_NOT_FOUND),
        }),
{
    match state.lambdas.get(name) {
        Some(l) => Ok(l),
        None => Err(HttpErr::Status(STATUS_NOT_FOUND)),
    }
}

/// Delete a lambda by name: plain success, or not-found with the state
/// unchanged.
pub fn lambda_delete(state: &mut AppState, name: &String) -> (r: Result<u16, HttpErr>)
    ensures
        final(state).lambdas@ =~= old(state).lambdas@.remove(name@),
        final(state).sandboxs == old(state).sandboxs,
        r is Ok <==> old(state).lambdas@.contains_key(name@),
        (match r {
            Ok(status) => status == STATUS_OK,
            Err(e) => e == HttpErr::Status(STATUS_NOT_FOUND) && *final(state) == *old(state),
        }),
{
    match state.lambdas.remove(name) {
        Some(_) => Ok(STATUS_OK),
        None => Err(HttpErr::Status(STATUS_NOT_FOUND)),
    }
}

/// Everything the surrounding process needs to run one execution: the
/// materialization and launch plan, and the fresh multiplexer session.
pub struct ExecSetup {
    /// Artifact and launch description for the resolved lambda in the
    /// resolved sandbox.
    pub plan: SpawnPlan,
    /// The multiplexer session to drive once the child is spawned.
    pub mux: MuxState,
}

/// Resolve an execution request: split the argument string, look the
/// lambda and the sandbox up by name, and build the spawn plan and the
/// multiplexer session.  Fails with not-found exactly when either name
/// is absent; the catalogs are read, never changed.
pub fn lambda_exec_setup(state: &AppState, name: &String, params: &ExecParams) -> (r: Result<
    ExecSetup,
    HttpErr,
>)
    ensures
        r is Ok <==> state.lambdas@.contains_key(name@) && state.sandboxs@.contains_key(
            params.sandbox@,
        ),
        (match r {
            Ok(setup) => {
                let lambda = state.lambdas@[name@];
                let sandbox = state.sandboxs@[params.sandbox@];
                &&& setup.plan.content@ == lambda.spec_effective_script()
                &&& crate::lambda_app::spec_has_shebang(setup.plan.content@)
                &&& setup.plan.filename@ == lambda.spec_filename()
                &&& setup.plan.dest_path@ == sandbox.spec_wd() + "/"@ + setup.plan.filename@
                &&& crate::sandbox::launch_matches(
                    &sandbox,
                    setup.plan.filename@,
                    spec_split_ws(params.args@),
                    &setup.plan.launch,
                )
                &&& setup.mux == (MuxState {
                    stdin_open: true,
                    print_status: params.status,
                    terminated: false,
                })
            },
            Err(e) => e == HttpErr::Status(STATUS_NOT_FOUND),
        }),
{
    let args = split_args(params.args.as_str());
    let lambda = match state.lambdas.get(name) {
        Some(l) => l,
        None => {
            return Err(HttpErr::Status(STATUS_NOT_FOUND));
        },
    };
    let sandbox = match state.sandboxs.get(&params.sandbox) {
        Some(s) => s,
        None => {
            return Err(HttpErr::Status(STATUS_NOT_FOUND));
        },
    };
    let plan = lambda.spawn_plan(sandbox, &args);
    let mux = MuxState::new(params.status);
    Ok(ExecSetup { plan, mux })
}

} // verus!
