//! The command descriptor: an immutable-update builder for one invocation.
//!
//! Every builder call consumes the old descriptor and returns a new value;
//! no in-place mutation is observable. The abstract value of a descriptor
//! is a [`CmdView`]: the argument vector (program name first), the optional
//! map of environment overrides, and the optional standard-input payload.
use crate::envmap::last_value;
use crate::envmap::lemma_overlay_append;
use crate::envmap::lemma_overlay_lookup;
use crate::envmap::overlay;
use vstd::prelude::*;

verus! {

/// The abstract value of a [`ShellCommand`].
#[verifier::ext_equal]
pub ghost struct CmdView {
    /// The full argument vector; the program name occupies index 0.
    pub argv: Seq<Seq<char>>,
    /// `None` means the child inherits the parent's environment unmodified;
    /// `Some(m)` means the bindings of `m` are overlaid onto it.
    pub env: Option<Map<Seq<char>, Seq<char>>>,
    /// `None` means the child's input stream is closed with no data written.
    pub stdin: Option<Seq<char>>,
}

impl CmdView {
    /// The descriptor that `ShellCommand::new` yields: only the program
    /// name, no overrides, no input.
    pub open spec fn init(program: Seq<char>) -> CmdView {
        CmdView { argv: seq![program], env: None, stdin: None }
    }

    /// The program name: the zeroth element of the argument vector.
    pub open spec fn program(self) -> Seq<char> {
        self.argv[0]
    }

    /// A descriptor always carries at least the program name.
    pub open spec fn wf(self) -> bool {
        self.argv.len() >= 1
    }

    /// The environment overrides as a total value: the empty map when no
    /// override was ever recorded.
    pub open spec fn env_overrides(self) -> Map<Seq<char>, Seq<char>> {
        match self.env {
            Some(m) => m,
            None => Map::empty(),
        }
    }

    /// The descriptor after appending an argument batch.
    pub open spec fn with_args(self, args: Seq<Seq<char>>) -> CmdView {
        CmdView { argv: self.argv + args, env: self.env, stdin: self.stdin }
    }

    /// The descriptor after overlaying an environment batch.
    pub open spec fn with_env(self, pairs: Seq<(Seq<char>, Seq<char>)>) -> CmdView {
        CmdView { argv: self.argv, env: Some(overlay(self.env_overrides(), pairs)), stdin: self.stdin }
    }

    /// The descriptor after replacing the standard-input payload.
    pub open spec fn with_stdin(self, text: Seq<char>) -> CmdView {
        CmdView { argv: self.argv, env: self.env, stdin: Some(text) }
    }
}

/// Shell command structure.
/// Holds all the information needed to have the OS dispatch a process.
pub struct ShellCommand {
    pub(crate) env_var: Option<Vec<(String, String)>>,
    pub(crate) stdin: Option<String>,
    pub(crate) argv: Vec<String>,
}

impl View for ShellCommand {
    type V = CmdView;

    closed spec fn view(&self) -> CmdView {
        CmdView {
            argv: self.argv.deep_view(),
            env: match self.env_var {
                Some(table) => Some(overlay(Map::empty(), table.deep_view())),
                None => None,
            },
            stdin: match self.stdin {
                Some(text) => Some(text@),
                None => None,
            },
        }
    }
}

/// How the abstract value of a descriptor is laid over its fields; for the
/// engine, which consumes the fields directly.
pub(crate) proof fn lemma_view_parts(c: &ShellCommand)
    ensures
        c@.argv == c.argv.deep_view(),
        c@.env == (match c.env_var {
            Some(table) => Some(overlay(Map::empty(), table.deep_view())),
            None => None,
        }),
        c@.stdin == (match c.stdin {
            Some(text) => Some(text@),
            None => None,
        }),
{
}

impl ShellCommand {
    /// Create a new ShellCommand for the given program; the program name
    /// must not be empty.
    pub fn new(arg0: &str) -> (r: ShellCommand)
        requires
            arg0@.len() > 0,
        ensures
            r@ == CmdView::init(arg0@),
            r@.wf(),
    {
        let r = ShellCommand { env_var: None, stdin: None, argv: vec![arg0.to_owned()] };
        proof {
            assert(r@.argv =~= seq![arg0@]);
            assert(r@ =~= CmdView::init(arg0@));
        }
        r
    }

    /// Add arguments to a ShellCommand: each element of the batch is
    /// appended, in order, after the arguments already present.
    pub fn args(self, args: Vec<String>) -> (r: ShellCommand)
        ensures
            r@ == self@.with_args(args.deep_view()),
    {
        let ghost pre = self@;
        let ghost batch = args.deep_view();
        let ShellCommand { env_var, stdin, mut argv } = self;
        let mut addition = args;
        argv.append(&mut addition);
        let r = ShellCommand { env_var, stdin, argv };
        proof {
            assert(r@.argv =~= pre.argv + batch);
            assert(r@ =~= pre.with_args(batch));
        }
        r
    }

    /// Add envvars to a ShellCommand: each pair of the batch is overlaid,
    /// in order, onto the overrides already recorded, so a later pair wins
    /// over an earlier one sharing the same name.
    pub fn envs(self, envs: Vec<(String, String)>) -> (r: ShellCommand)
        ensures
            r@ == self@.with_env(envs.deep_view()),
    {
        let ghost pre = self@;
        let ghost batch = envs.deep_view();
        let ShellCommand { env_var, stdin, argv } = self;
        let mut table = match env_var {
            Some(table) => table,
            None => Vec::new(),
        };
        let ghost recorded = table.deep_view();
        let mut addition = envs;
        table.append(&mut addition);
        let r = ShellCommand { env_var: Some(table), stdin, argv };
        proof {
            assert(table.deep_view() =~= recorded + batch);
            lemma_overlay_append(Map::empty(), recorded, batch);
            assert(overlay(Map::empty(), recorded) == pre.env_overrides());
            assert(r@ =~= pre.with_env(batch));
        }
        r
    }

    /// Pipe a string into a ShellCommand: the text replaces any payload set
    /// earlier; the last call wins.
    pub fn pipe_string(self, input: &str) -> (r: ShellCommand)
        ensures
            r@ == self@.with_stdin(input@),
    {
        let ghost pre = self@;
        let ShellCommand { env_var, stdin: _, argv } = self;
        let r = ShellCommand { env_var, stdin: Some(input.to_owned()), argv };
        proof {
            assert(r@ =~= pre.with_stdin(input@));
        }
        r
    }

    /// What is the name of the program this command will call.
    pub fn command(&self) -> (r: &String)
        requires
            self@.wf(),
        ensures
            r@ == self@.program(),
    {
        &self.argv[0]
    }
}

/// Law: the program name set at construction survives every later builder
/// call; `command` reports it for the freshly built descriptor and for the
/// descriptor after any argument, environment or input update.
pub proof fn lemma_program_name_stable(
    program: Seq<char>,
    args: Seq<Seq<char>>,
    pairs: Seq<(Seq<char>, Seq<char>)>,
    input: Seq<char>,
)
    ensures
        CmdView::init(program).with_args(args).with_env(pairs).with_stdin(input).program()
            == program,
        forall|d: CmdView| d.wf() ==> #[trigger] d.with_args(args).program() == d.program(),
        forall|d: CmdView| d.wf() ==> #[trigger] d.with_env(pairs).program() == d.program(),
        forall|d: CmdView| d.wf() ==> #[trigger] d.with_stdin(input).program() == d.program(),
{
}

/// Law: appending an argument batch `a` and then a batch `b` yields the
/// argument vector `[program] + a + b`, in that exact order.
pub proof fn lemma_args_accumulate(program: Seq<char>, a: Seq<Seq<char>>, b: Seq<Seq<char>>)
    ensures
        CmdView::init(program).with_args(a).with_args(b).argv == seq![program] + a + b,
{
    assert(CmdView::init(program).with_args(a).with_args(b).argv =~= seq![program] + a + b);
}

/// Law: when two environment batches both set the key `k` (to differing
/// values), the value recorded for `k` after applying the first batch and
/// then the second is the last value the second batch gives it.
pub proof fn lemma_env_later_batch_wins(
    d: CmdView,
    e1: Seq<(Seq<char>, Seq<char>)>,
    e2: Seq<(Seq<char>, Seq<char>)>,
    k: Seq<char>,
)
    requires
        last_value(e1, k) is Some,
        last_value(e2, k) is Some,
        last_value(e1, k) != last_value(e2, k),
    ensures
        ({
            let m = d.with_env(e1).with_env(e2).env_overrides();
            m.contains_key(k) && last_value(e2, k) == Some(m[k])
        }),
{
    lemma_overlay_lookup(d.with_env(e1).env_overrides(), e2, k);
}

} // verus!
