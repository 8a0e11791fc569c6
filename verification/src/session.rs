//! Decisions around the agent CLI: where it is, the arguments an
//! interactive session and a one-shot prompt are started with, and what
//! their exit status and output mean.

use vstd::prelude::*;

use crate::text::{
    chars_of, push_all, push_string, signed_decimal, signed_decimal_chars, string_from_chars,
    texts, trim, trim_chars,
};

verus! {

/// Errors of an agent CLI session.
#[derive(Debug)]
pub enum AclaudeError {
    /// The agent CLI is not on `PATH`.
    ClaudeNotFound,
    /// Starting or running a session failed.
    Session { message: String },
}

pub enum AclaudeErrorView {
    ClaudeNotFound,
    Session { message: Seq<char> },
}

impl View for AclaudeError {
    type V = AclaudeErrorView;

    open spec fn view(&self) -> AclaudeErrorView {
        match self {
            AclaudeError::ClaudeNotFound => AclaudeErrorView::ClaudeNotFound,
            AclaudeError::Session { message } => AclaudeErrorView::Session { message: message@ },
        }
    }
}

/// The view of a result whose success value is text.
pub open spec fn text_result_view(r: Result<String, AclaudeError>) -> Result<Seq<char>, AclaudeErrorView> {
    match r {
        Ok(s) => Ok(s@),
        Err(e) => Err(e@),
    }
}

/// The view of a result without a success value.
pub open spec fn unit_result_view(r: Result<(), AclaudeError>) -> Result<(), AclaudeErrorView> {
    match r {
        Ok(_) => Ok(()),
        Err(e) => Err(e@),
    }
}

/// Where a `command -v` lookup says the CLI is: its output without
/// surrounding white space, when the lookup succeeded and said anything.
pub open spec fn claude_path_spec(success: bool, stdout: Seq<char>) -> Result<Seq<char>, AclaudeErrorView> {
    if !success || trim(stdout).len() == 0 {
        Err(AclaudeErrorView::ClaudeNotFound)
    } else {
        Ok(trim(stdout))
    }
}

/// The path of the agent CLI from the result of its `command -v` lookup:
/// whether it succeeded and its output.
pub fn claude_path_from_lookup(success: bool, stdout: &str) -> (r: Result<String, AclaudeError>)
    ensures
        text_result_view(r) == claude_path_spec(success, stdout@),
{
    if !success {
        return Err(AclaudeError::ClaudeNotFound);
    }
    let path = trim_chars(&chars_of(stdout));
    if path.len() == 0 {
        return Err(AclaudeError::ClaudeNotFound);
    }
    Ok(string_from_chars(path.as_slice()))
}

/// The persona prompt flag, when there is a prompt.
pub open spec fn prompt_flag(system_prompt: Seq<char>) -> Seq<Seq<char>> {
    if system_prompt.len() == 0 {
        Seq::empty()
    } else {
        seq!["--append-system-prompt"@, system_prompt]
    }
}

fn push_prompt_flag(v: &mut Vec<String>, system_prompt: &str)
    ensures
        texts(final(v)@) == texts(old(v)@) + prompt_flag(system_prompt@),
{
    let ghost before = texts(v@);
    if !system_prompt.is_empty() {
        push_string(v, "--append-system-prompt");
        push_string(v, system_prompt);
    }
    assert(texts(v@) =~= before + prompt_flag(system_prompt@));
}

/// Arguments of an interactive session: the model, then the persona
/// prompt when there is one.
pub open spec fn interactive_args_spec(model: Seq<char>, system_prompt: Seq<char>) -> Seq<Seq<char>> {
    seq!["--model"@, model] + prompt_flag(system_prompt)
}

/// Arguments the agent CLI is started with for an interactive session.
pub fn interactive_args(model: &str, system_prompt: &str) -> (r: Vec<String>)
    ensures
        texts(r@) == interactive_args_spec(model@, system_prompt@),
{
    let mut r: Vec<String> = Vec::new();
    push_string(&mut r, "--model");
    push_string(&mut r, model);
    push_prompt_flag(&mut r, system_prompt);
    assert(texts(r@) =~= interactive_args_spec(model@, system_prompt@));
    r
}

/// Arguments of a one-shot prompt: the prompt, the model, JSON output,
/// then the persona prompt when there is one.
pub open spec fn prompt_args_spec(prompt: Seq<char>, model: Seq<char>, system_prompt: Seq<char>) -> Seq<
    Seq<char>,
> {
    seq!["-p"@, prompt, "--model"@, model, "--output-format"@, "json"@] + prompt_flag(system_prompt)
}

/// Arguments the agent CLI is started with for a one-shot prompt.
pub fn prompt_args(prompt: &str, model: &str, system_prompt: &str) -> (r: Vec<String>)
    ensures
        texts(r@) == prompt_args_spec(prompt@, model@, system_prompt@),
{
    let mut r: Vec<String> = Vec::new();
    push_string(&mut r, "-p");
    push_string(&mut r, prompt);
    push_string(&mut r, "--model");
    push_string(&mut r, model);
    push_string(&mut r, "--output-format");
    push_string(&mut r, "json");
    push_prompt_flag(&mut r, system_prompt);
    assert(texts(r@) =~= prompt_args_spec(prompt@, model@, system_prompt@));
    r
}

/// The outcome of an interactive session of `program` from its exit
/// status: success, or an error naming the exit code (-1 when killed by a
/// signal).
pub open spec fn session_exit_spec(program: Seq<char>, success: bool, code: Option<i32>) -> Result<
    (),
    AclaudeErrorView,
> {
    let c: int = match code {
        Some(c) => c as int,
        None => -1,
    };
    if !success && c != 0 {
        Err(
            AclaudeErrorView::Session {
                message: program + " exited with code "@ + signed_decimal(c),
            },
        )
    } else {
        Ok(())
    }
}

/// The outcome of an interactive session of the CLI named `program` from
/// its exit status and code.
pub fn session_exit_result(program: &str, success: bool, code: Option<i32>) -> (r: Result<
    (),
    AclaudeError,
>)
    ensures
        unit_result_view(r) == session_exit_spec(program@, success, code),
{
    if !success {
        let c: i32 = match code {
            Some(c) => c,
            None => -1,
        };
        if c != 0 {
            let mut message = chars_of(program);
            push_all(&mut message, chars_of(" exited with code ").as_slice());
            let digits = signed_decimal_chars(c as i64);
            push_all(&mut message, digits.as_slice());
            return Err(AclaudeError::Session { message: string_from_chars(message.as_slice()) });
        }
    }
    Ok(())
}

/// The outcome of a one-shot prompt of `program`: its output on success,
/// else an error carrying what it wrote to stderr.
pub open spec fn prompt_output_spec(program: Seq<char>, success: bool, stdout: Seq<char>, stderr: Seq<char>) -> Result<
    Seq<char>,
    AclaudeErrorView,
> {
    if !success {
        Err(AclaudeErrorView::Session { message: program + " error: "@ + stderr })
    } else {
        Ok(stdout)
    }
}

/// The outcome of a one-shot prompt of the CLI named `program` from its
/// exit status and output.
pub fn prompt_output_result(program: &str, success: bool, stdout: &str, stderr: &str) -> (r: Result<
    String,
    AclaudeError,
>)
    ensures
        text_result_view(r) == prompt_output_spec(program@, success, stdout@, stderr@),
{
    if !success {
        let mut message = chars_of(program);
        push_all(&mut message, chars_of(" error: ").as_slice());
        push_all(&mut message, chars_of(stderr).as_slice());
        return Err(AclaudeError::Session { message: string_from_chars(message.as_slice()) });
    }
    Ok(stdout.to_owned())
}

// ── Laws ─────────────────────────────────────────────────────────────────

/// The CLI is found exactly when the lookup succeeded and printed
/// something besides white space; its path is that output, trimmed.
pub proof fn lemma_lookup_outcome(success: bool, stdout: Seq<char>)
    ensures
        !success ==> claude_path_spec(success, stdout) == Err::<Seq<char>, AclaudeErrorView>(
            AclaudeErrorView::ClaudeNotFound,
        ),
        success && trim(stdout).len() == 0 ==> claude_path_spec(success, stdout) is Err,
        success && trim(stdout).len() > 0 ==> claude_path_spec(success, stdout) == Ok::<
            Seq<char>,
            AclaudeErrorView,
        >(trim(stdout)),
{
}

/// An interactive session fails exactly when the CLI did not succeed and
/// its exit code (-1 when killed by a signal) is not 0; the error names
/// the program and the code.
pub proof fn lemma_session_outcome(program: Seq<char>, success: bool, code: Option<i32>)
    ensures
        success ==> session_exit_spec(program, success, code) is Ok,
        code == Some(0i32) ==> session_exit_spec(program, success, code) is Ok,
        code matches Some(c) ==> (!success && c != 0 ==> session_exit_spec(program, success, code) == Err::<
            (),
            AclaudeErrorView,
        >(AclaudeErrorView::Session { message: program + " exited with code "@ + signed_decimal(c as int) })),
        !success && code is None ==> session_exit_spec(program, success, code) == Err::<(), AclaudeErrorView>(
            AclaudeErrorView::Session { message: program + " exited with code "@ + seq!['-', '1'] },
        ),
{
    assert(crate::text::digit_char(1) == '1');
    assert(signed_decimal(-1) =~= seq!['-', '1']);
}

/// A one-shot prompt gives the CLI's output when it succeeds, else an
/// error carrying what it wrote to stderr.
pub proof fn lemma_prompt_outcome(program: Seq<char>, success: bool, stdout: Seq<char>, stderr: Seq<char>)
    ensures
        success ==> prompt_output_spec(program, success, stdout, stderr) == Ok::<Seq<char>, AclaudeErrorView>(
            stdout,
        ),
        !success ==> prompt_output_spec(program, success, stdout, stderr) == Err::<
            Seq<char>,
            AclaudeErrorView,
        >(AclaudeErrorView::Session { message: program + " error: "@ + stderr }),
{
}

/// The launch arguments pass the model after `--model` and add
/// `--append-system-prompt` with the prompt exactly when there is one; a
/// one-shot prompt also passes `-p` with the prompt and asks for JSON.
pub proof fn lemma_launch_args(prompt: Seq<char>, model: Seq<char>, system_prompt: Seq<char>)
    ensures
        interactive_args_spec(model, system_prompt).len() == if system_prompt.len() == 0 { 2int } else { 4int },
        interactive_args_spec(model, system_prompt)[0] == "--model"@,
        interactive_args_spec(model, system_prompt)[1] == model,
        system_prompt.len() > 0 ==> interactive_args_spec(model, system_prompt)[2]
            == "--append-system-prompt"@ && interactive_args_spec(model, system_prompt)[3] == system_prompt,
        prompt_args_spec(prompt, model, system_prompt).take(6) == seq![
            "-p"@,
            prompt,
            "--model"@,
            model,
            "--output-format"@,
            "json"@,
        ],
        prompt_args_spec(prompt, model, system_prompt).len() == if system_prompt.len() == 0 { 6int } else { 8int },
        system_prompt.len() > 0 ==> prompt_args_spec(prompt, model, system_prompt)[6]
            == "--append-system-prompt"@ && prompt_args_spec(prompt, model, system_prompt)[7]
            == system_prompt,
{
    assert(prompt_args_spec(prompt, model, system_prompt).take(6) =~= seq![
        "-p"@,
        prompt,
        "--model"@,
        model,
        "--output-format"@,
        "json"@,
    ]);
}

} // verus!
