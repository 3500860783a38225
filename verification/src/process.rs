//! What the library learns from a finished external command, and how it
//! words a command's failure.
use vstd::prelude::*;
use vstd::utf8::{decode_utf8, valid_utf8};
use crate::text::{chars_of, concat2, concat3, lines, split_lines, string_of, trim, trim_chars, trimmed};

verus! {

/// The outcome of a command that ran to its end.
#[derive(Debug, PartialEq)]
pub struct CommandOutput {
    /// Whether the command exited with success.
    pub success: bool,
    /// The exit status as `ExitStatus` displays it.
    pub status: String,
    /// The bytes the command wrote to standard output.
    pub stdout: Vec<u8>,
    /// The bytes the command wrote to standard error.
    pub stderr: Vec<u8>,
}

/// What `String::from_utf8_lossy` gives for bytes.
pub uninterp spec fn lossy_text(bytes: Seq<u8>) -> Seq<char>;

/// `String::from_utf8_lossy`: the bytes read as UTF-8, every invalid
/// sequence replaced by U+FFFD; valid UTF-8 reads as the text it encodes.
#[verifier::external_body]
pub fn text_of_bytes(bytes: &[u8]) -> (r: String)
    ensures
        r@ == lossy_text(bytes@),
        valid_utf8(bytes@) ==> r@ == decode_utf8(bytes@),
{
    String::from_utf8_lossy(bytes).into_owned()
}

/// The trimmed standard output of a command.
pub open spec fn out_text(o: CommandOutput) -> Seq<char> {
    trimmed(lossy_text(o.stdout@))
}

/// The trimmed standard error of a command.
pub open spec fn err_text(o: CommandOutput) -> Seq<char> {
    trimmed(lossy_text(o.stderr@))
}

/// The trimmed standard output of `o`.
pub fn stdout_text(o: &CommandOutput) -> (r: String)
    ensures
        r@ == out_text(*o),
{
    let t = text_of_bytes(o.stdout.as_slice());
    trim(t.as_str())
}

/// The trimmed standard error of `o`.
pub fn stderr_text(o: &CommandOutput) -> (r: String)
    ensures
        r@ == err_text(*o),
{
    let t = text_of_bytes(o.stderr.as_slice());
    trim(t.as_str())
}

/// The text a probing command reports: its trimmed standard output, when it
/// ran, succeeded and printed something.
pub open spec fn reported_text(output: Option<CommandOutput>) -> Option<Seq<char>> {
    match output {
        Some(o) => if o.success && out_text(o).len() > 0 {
            Some(out_text(o))
        } else {
            None
        },
        None => None,
    }
}

/// The trimmed standard output of a command that ran and succeeded, unless
/// it is empty; `None` when the command could not be launched.
pub fn command_text(output: &Option<CommandOutput>) -> (r: Option<String>)
    ensures
        match r {
            Some(s) => reported_text(*output) == Some(s@),
            None => reported_text(*output) is None,
        },
{
    match output {
        Some(o) => {
            if !o.success {
                return None;
            }
            let value = stdout_text(o);
            if value.as_str().unicode_len() == 0 {
                None
            } else {
                Some(value)
            }
        },
        None => None,
    }
}

/// The first line of a command's standard output, trimmed, when the
/// command ran, succeeded and that line is not blank.
pub open spec fn first_line_text(output: Option<CommandOutput>) -> Option<Seq<char>> {
    match output {
        Some(o) => if o.success && lines(lossy_text(o.stdout@)).len() > 0 && trimmed(
            lines(lossy_text(o.stdout@))[0],
        ).len() > 0 {
            Some(trimmed(lines(lossy_text(o.stdout@))[0]))
        } else {
            None
        },
        None => None,
    }
}

/// The first line of the output of a command that ran and succeeded,
/// trimmed, unless it is blank.
pub fn first_line(output: &Option<CommandOutput>) -> (r: Option<String>)
    ensures
        match r {
            Some(s) => first_line_text(*output) == Some(s@),
            None => first_line_text(*output) is None,
        },
{
    match output {
        Some(o) => first_line_of(o),
        None => None,
    }
}

/// The first line of the output of `o` when it succeeded, trimmed, unless
/// it is blank.
pub fn first_line_of(o: &CommandOutput) -> (r: Option<String>)
    ensures
        match r {
            Some(s) => first_line_text(Some(*o)) == Some(s@),
            None => first_line_text(Some(*o)) is None,
        },
{
    if !o.success {
        return None;
    }
    let text = text_of_bytes(o.stdout.as_slice());
    let cs = chars_of(text.as_str());
    let ls = split_lines(&cs);
    if ls.len() == 0 {
        return None;
    }
    let line = trim_chars(&ls[0]);
    if line.len() == 0 {
        None
    } else {
        Some(string_of(line.as_slice()))
    }
}

/// How a failed command is reported: its launch error, else its trimmed
/// standard error, else its trimmed standard output, else its exit status.
pub open spec fn command_failure_text(program: Seq<char>, run: Result<CommandOutput, Seq<char>>) -> Seq<
    char,
> {
    match run {
        Err(e) => "Failed to launch "@ + program + ": "@ + e,
        Ok(o) => if err_text(o).len() > 0 {
            err_text(o)
        } else if out_text(o).len() > 0 {
            out_text(o)
        } else {
            program + " failed with status "@ + o.status@
        },
    }
}

pub open spec fn run_view(run: Result<CommandOutput, String>) -> Result<CommandOutput, Seq<char>> {
    match run {
        Ok(o) => Ok(o),
        Err(e) => Err(e@),
    }
}

/// The result of running `program`: success, or the text that reports why
/// it failed.
pub fn command_result(program: &str, run: &Result<CommandOutput, String>) -> (r: Result<(), String>)
    ensures
        match r {
            Ok(_) => run matches Ok(o) && o.success,
            Err(e) => !(run matches Ok(o) && o.success) && e@ == command_failure_text(
                program@,
                run_view(*run),
            ),
        },
{
    match run {
        Err(e) => Err(concat3("Failed to launch ", program, concat2(": ", e.as_str()).as_str())),
        Ok(o) => {
            if o.success {
                return Ok(());
            }
            let err = stderr_text(o);
            let out = stdout_text(o);
            if err.as_str().unicode_len() > 0 {
                Err(err)
            } else if out.as_str().unicode_len() > 0 {
                Err(out)
            } else {
                Err(concat3(program, " failed with status ", o.status.as_str()))
            }
        },
    }
}

/// How a failed PowerShell run is reported: its launch error, else its
/// trimmed standard error when not empty, else its trimmed standard output.
pub open spec fn powershell_failure_text(run: Result<CommandOutput, Seq<char>>) -> Seq<char> {
    match run {
        Err(e) => "Failed to launch PowerShell: "@ + e,
        Ok(o) => if err_text(o).len() > 0 {
            err_text(o)
        } else {
            out_text(o)
        },
    }
}

/// The result of a PowerShell run: success, or the text that reports why it
/// failed.
pub fn powershell_result(run: &Result<CommandOutput, String>) -> (r: Result<(), String>)
    ensures
        match r {
            Ok(_) => run matches Ok(o) && o.success,
            Err(e) => !(run matches Ok(o) && o.success) && e@ == powershell_failure_text(
                run_view(*run),
            ),
        },
{
    match run {
        Err(e) => Err(concat2("Failed to launch PowerShell: ", e.as_str())),
        Ok(o) => {
            if o.success {
                return Ok(());
            }
            let err = stderr_text(o);
            if err.as_str().unicode_len() > 0 {
                Err(err)
            } else {
                Err(stdout_text(o))
            }
        },
    }
}

} // verus!
