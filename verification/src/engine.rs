//! The execution engine: maps one descriptor onto OS process creation and
//! reports the captured result.
//!
//! The engine spawns the child with all three standard streams piped (never
//! inherited), overlays the recorded environment overrides onto the parent's
//! environment, writes the optional input payload and closes the stream,
//! waits for termination while draining both output streams, decodes them as
//! UTF-8, and reports an outcome whose channel reflects the exit status. A
//! spawn failure or a decoding failure is fatal for the call; a non-zero
//! exit status is the designed, inspectable failure channel.
use crate::descriptor::ShellCommand;
use crate::envmap::lemma_overlay_prepend;
use crate::envmap::overlay;
use vstd::prelude::*;

verus! {

/// The result of a completed execution: the success flag of the exit
/// status, and the full standard-output and standard-error text.
#[derive(Debug)]
pub struct ShellCommandOutput {
    pub success: bool,
    pub stdout: String,
    pub stderr: String,
}

/// The channel that `run` chooses for a completed process observation:
/// the success channel carries the observation when the exit status was
/// success, the failure channel carries the identical observation otherwise.
pub open spec fn channelled(success: bool, stdout: Seq<char>, stderr: Seq<char>) -> Result<
    (bool, Seq<char>, Seq<char>),
    (bool, Seq<char>, Seq<char>),
> {
    if success {
        Ok((success, stdout, stderr))
    } else {
        Err((success, stdout, stderr))
    }
}

/// What `result` reports of a channelled observation: either channel's
/// payload, unchanged.
pub open spec fn collapsed(
    r: Result<(bool, Seq<char>, Seq<char>), (bool, Seq<char>, Seq<char>)>,
) -> (bool, Seq<char>, Seq<char>) {
    match r {
        Ok(o) => o,
        Err(o) => o,
    }
}

/// Law: for one and the same process observation, the success-sensitive
/// channelling of `run` and the channel-blind report of `result` carry
/// identical fields; only the channel differs.
pub proof fn lemma_channels_agree(success: bool, stdout: Seq<char>, stderr: Seq<char>)
    ensures
        collapsed(channelled(success, stdout, stderr)) == (success, stdout, stderr),
{
}

impl ShellCommandOutput {
    /// The fields of an outcome as one abstract observation.
    pub open spec fn observation(self) -> (bool, Seq<char>, Seq<char>) {
        (self.success, self.stdout@, self.stderr@)
    }

    /// Builds the outcome of a completed process and chooses the reporting
    /// channel: the success channel if and only if the exit status was
    /// success, with the identical payload on either channel.
    pub fn from_capture(success: bool, stdout: String, stderr: String) -> (r: Result<
        ShellCommandOutput,
        ShellCommandOutput,
    >)
        ensures
            r is Ok <==> success,
            (match r {
                Ok(o) => channelled(success, stdout@, stderr@) == Ok::<
                    (bool, Seq<char>, Seq<char>),
                    (bool, Seq<char>, Seq<char>),
                >(o.observation()),
                Err(o) => channelled(success, stdout@, stderr@) == Err::<
                    (bool, Seq<char>, Seq<char>),
                    (bool, Seq<char>, Seq<char>),
                >(o.observation()),
            }),
    {
        let sc_output = ShellCommandOutput { success, stdout, stderr };
        if !sc_output.success {
            return Err(sc_output);
        }
        Ok(sc_output)
    }
}

#[verifier::external_type_specification]
#[verifier::external_body]
pub struct ExExpression(duct::Expression);

/// What `String::from_utf8` yields on bytes that are valid UTF-8: a pure
/// function of the bytes alone, the same in every process.
pub uninterp spec fn decoded_utf8(bytes: Seq<u8>) -> Seq<char>;

/// The empty set of environment bindings.
pub open spec fn no_bindings() -> Map<Seq<char>, Seq<char>> {
    Map::empty()
}

/// The argument vector a command expression carries: the program name
/// followed by its arguments, exactly as `duct::cmd` recorded them.
pub uninterp spec fn expr_argv(e: duct::Expression) -> Seq<Seq<char>>;

/// The environment bindings a command expression imposes, when it runs, on
/// the environment it inherits from the parent.
pub uninterp spec fn expr_env(e: duct::Expression) -> Map<Seq<char>, Seq<char>>;

/// The standard-input payload a command expression carries, as text; `None`
/// when no payload was set, in which case the child's input is not piped by
/// this engine's doing.
pub uninterp spec fn expr_stdin(e: duct::Expression) -> Option<Seq<char>>;

/// Relies on duct::cmd: builds a command expression from the program and
/// its arguments, passed verbatim, one element per argument, with no shell
/// involved; the fresh expression imposes no environment bindings and
/// carries no input payload.
#[verifier::external_body]
fn cmd_build(program: &String, args: &Vec<String>) -> (r: duct::Expression)
    ensures
        expr_argv(r) == seq![program@] + args.deep_view(),
        expr_env(r) == no_bindings(),
        expr_stdin(r) == None::<Seq<char>>,
{
    duct::cmd(program, args)
}

/// Relies on duct::Expression::env: the new expression carries the same
/// argv and input payload, and additionally binds `name` to `value` —
/// unless the wrapped expression already binds `name`: duct applies the
/// outer, later-wrapped binding first and the wrapped expression's own
/// bindings afterwards, so a binding already present wins. The engine
/// therefore applies recorded pairs in reverse order.
#[verifier::external_body]
fn cmd_env(expr: duct::Expression, name: &String, value: &String) -> (r: duct::Expression)
    ensures
        expr_argv(r) == expr_argv(expr),
        expr_stdin(r) == expr_stdin(expr),
        expr_env(r) == (if expr_env(expr).contains_key(name@) {
            expr_env(expr)
        } else {
            expr_env(expr).insert(name@, value@)
        }),
{
    expr.env(name.as_str(), value.as_str())
}

/// Relies on duct::Expression::stdin_bytes: the new expression carries the
/// same argv and environment bindings, with the text's bytes as the input
/// payload — unless the wrapped expression already carries one, which duct
/// applies later and which therefore stays in force. When the expression
/// runs, a helper thread writes the payload to the child's standard input
/// in full and then closes the stream, concurrently with the capture of
/// the output streams, so a child that waits for end-of-input cannot
/// deadlock the call.
#[verifier::external_body]
fn cmd_stdin(expr: duct::Expression, input: &String) -> (r: duct::Expression)
    ensures
        expr_argv(r) == expr_argv(expr),
        expr_env(r) == expr_env(expr),
        expr_stdin(r) == (match expr_stdin(expr) {
            Some(text) => Some(text),
            None => Some(input@),
        }),
{
    expr.stdin_bytes(input.as_bytes())
}

/// Relies on duct::Expression::run, with stdout_capture, stderr_capture and
/// unchecked: spawns the child, waits for it to terminate, drains both
/// output streams fully, and reports the success flag of the exit status
/// without treating a non-zero status as an error. Panics when the OS
/// cannot run the process: a spawn failure is fatal for the call and no
/// partial outcome is produced.
#[verifier::external_body]
fn cmd_capture(expr: duct::Expression) -> (bool, Vec<u8>, Vec<u8>) {
    let out = expr.stdout_capture().stderr_capture().unchecked().run().expect(
        "Failed to spawn child process",
    );
    (out.status.success(), out.stdout, out.stderr)
}

/// Relies on String::from_utf8: the decoding of a captured stream, a
/// function of the bytes alone. Panics with the caller's message when the
/// bytes are not valid UTF-8: a decoding failure is fatal for the call and
/// the bytes are lost to the caller.
#[verifier::external_body]
fn decode_utf8(bytes: Vec<u8>, failure_msg: &str) -> (r: String)
    ensures
        r@ == decoded_utf8(bytes@),
{
    String::from_utf8(bytes).expect(failure_msg)
}

impl ShellCommand {
    /// Run the ShellCommand: spawn the process with piped standard streams,
    /// write the optional input, wait, and report the captured output on
    /// the channel that the exit status selects. The exit status of the
    /// child is not fixed by the descriptor, so only the channelling is
    /// promised: a success report always carries `success == true` and a
    /// failure report always carries `success == false`, with the full
    /// captured output either way.
    pub fn run(self) -> (r: Result<ShellCommandOutput, ShellCommandOutput>)
        requires
            self@.wf(),
        ensures
            r matches Ok(o) ==> o.success,
            r matches Err(o) ==> !o.success,
    {
        proof {
            crate::descriptor::lemma_view_parts(&self);
        }
        let ghost dscr = self@;
        let ShellCommand { env_var, stdin, mut argv } = self;
        let program = argv.remove(0);
        let mut expr = cmd_build(&program, &argv);
        proof {
            assert(seq![program@] + argv.deep_view() =~= dscr.argv);
        }
        match &env_var {
            Some(table) => {
                // Newest pair first: duct gives the first-applied binding
                // precedence, so walking the table backwards lets the latest
                // recorded pair win, as the overlay model demands.
                let ghost ps = table.deep_view();
                proof {
                    assert(ps.skip(ps.len() as int) =~= Seq::<(Seq<char>, Seq<char>)>::empty());
                }
                let mut i: usize = table.len();
                while i > 0
                    invariant
                        i <= table@.len(),
                        ps == table.deep_view(),
                        expr_argv(expr) == dscr.argv,
                        expr_stdin(expr) is None,
                        expr_env(expr) == overlay(Map::empty(), ps.skip(i as int)),
                    decreases i,
                {
                    i = i - 1;
                    expr = cmd_env(expr, &table[i].0, &table[i].1);
                    proof {
                        lemma_overlay_prepend(ps[i as int], ps.skip(i as int + 1));
                        assert(seq![ps[i as int]] + ps.skip(i as int + 1) =~= ps.skip(i as int));
                    }
                }
                proof {
                    assert(ps.skip(0) =~= ps);
                }
            },
            None => {},
        }
        proof {
            // The hand-off so far: the expression carries exactly the
            // descriptor's argv and the overlay of its recorded pairs.
            assert(expr_argv(expr) == dscr.argv);
            assert(expr_env(expr) == dscr.env_overrides());
            assert(expr_stdin(expr) is None);
        }
        let input = match stdin {
            Some(text) => text,
            None => String::new(),
        };
        expr = cmd_stdin(expr, &input);
        proof {
            // And the payload: the descriptor's input text, empty when the
            // descriptor carries none.
            assert(expr_stdin(expr) == Some(
                match dscr.stdin {
                    Some(text) => text,
                    None => Seq::<char>::empty(),
                },
            ));
        }
        let captured = cmd_capture(expr);
        let stdout_text = decode_utf8(captured.1, "Could not format stdout into utf-8");
        let stderr_text = decode_utf8(captured.2, "Could not format stderr into utf-8");
        ShellCommandOutput::from_capture(captured.0, stdout_text, stderr_text)
    }

    /// Extract the output of the command and ignore the success: the
    /// payload of either channel of `run`, unchanged; the exit-status
    /// distinction is never raised to the caller, though the payload's
    /// success flag still reports it. A spawn failure or a decoding
    /// failure still propagates as a fatal condition.
    pub fn result(self) -> (r: ShellCommandOutput)
        requires
            self@.wf(),
        ensures
            exists|ch: Result<ShellCommandOutput, ShellCommandOutput>|
                #[trigger] call_ensures(ShellCommand::run, (self,), ch) && r == (match ch {
                    Ok(o) => o,
                    Err(o) => o,
                }),
    {
        let ghost pre = self;
        let r = self.run();
        proof {
            assert(call_ensures(ShellCommand::run, (pre,), r));
        }
        match r {
            Ok(s) => s,
            Err(s) => s,
        }
    }
}

} // verus!
