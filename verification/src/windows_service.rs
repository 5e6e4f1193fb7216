//! Windows services driven through `sc.exe`: what its output says. The
//! command itself is run by the caller.
use vstd::prelude::*;
use vstd::utf8::{decode_utf8, valid_utf8};

use crate::service::ServiceLifecycle;
use crate::text::{ascii_uppercase, concat, contains, contains_seq, to_ascii_uppercase, trim, trimmed};

verus! {

/// What a finished `sc.exe` run produced.
#[derive(Debug, Clone, PartialEq)]
pub struct CommandOutput {
    pub success: bool,
    pub stdout: Vec<u8>,
    pub stderr: Vec<u8>,
}

/// `sc.exe` reported failure.
#[derive(Debug, Clone, PartialEq)]
pub enum WindowsServiceError {
    CommandFailed { verb: String, text: String },
}

/// `String::from_utf8_lossy` of `bytes`.
pub uninterp spec fn utf8_lossy(bytes: Seq<u8>) -> Seq<char>;

/// `String::from_utf8_lossy`: the text that `bytes` encode in UTF-8, with
/// U+FFFD in place of each invalid sequence. Valid UTF-8 decodes as it is;
/// the replacement rules for invalid input are left to the name.
#[verifier::external_body]
fn text_of_bytes(bytes: &[u8]) -> (r: String)
    ensures
        r@ == utf8_lossy(bytes@),
        valid_utf8(bytes@) ==> r@ == decode_utf8(bytes@),
{
    String::from_utf8_lossy(bytes).into_owned()
}

/// Standard output and standard error, each trimmed, joined by a space and trimmed.
pub open spec fn output_text_of(output: CommandOutput) -> Seq<char> {
    trim(trim(utf8_lossy(output.stdout@)) + " "@ + trim(utf8_lossy(output.stderr@)))
}

/// The text of a run's output, as error messages show it.
pub fn output_text(output: &CommandOutput) -> (r: String)
    ensures
        r@ == output_text_of(*output),
{
    let stdout = text_of_bytes(output.stdout.as_slice());
    let stderr = text_of_bytes(output.stderr.as_slice());
    let mut joined = trimmed(stdout.as_str());
    joined.append(" ");
    let e = trimmed(stderr.as_str());
    joined.append(e.as_str());
    trimmed(joined.as_str())
}

/// The lifecycle that `sc.exe query` output reports, by the first state word
/// that its upper-cased text contains.
pub open spec fn reported_lifecycle(text: Seq<char>) -> ServiceLifecycle {
    let t = ascii_uppercase(text);
    if contains_seq(t, "RUNNING"@) {
        ServiceLifecycle::Running
    } else if contains_seq(t, "START_PENDING"@) {
        ServiceLifecycle::Starting
    } else if contains_seq(t, "STOP_PENDING"@) {
        ServiceLifecycle::Stopping
    } else if contains_seq(t, "STOPPED"@) {
        ServiceLifecycle::Stopped
    } else {
        ServiceLifecycle::Unknown
    }
}

fn failed(verb: &str, output: &CommandOutput) -> (r: WindowsServiceError)
    ensures
        r matches WindowsServiceError::CommandFailed { verb: v, text } && v@ == verb@ && text@
            == output_text_of(*output),
{
    WindowsServiceError::CommandFailed { verb: String::from_str(verb), text: output_text(output) }
}

/// The arguments of `sc.exe` for `verb` on the service `service_name`.
pub fn sc_args(verb: &str, service_name: &str) -> (r: Vec<String>)
    ensures
        r@.map_values(|a: String| a@) == seq![verb@, service_name@],
{
    let mut r: Vec<String> = Vec::new();
    r.push(String::from_str(verb));
    r.push(String::from_str(service_name));
    assert(r@.map_values(|a: String| a@) =~= seq![verb@, service_name@]);
    r
}

/// Reads the output of `sc.exe query <service>`.
pub fn query(output: &CommandOutput) -> (r: Result<ServiceLifecycle, WindowsServiceError>)
    ensures
        output.success ==> r == Ok::<ServiceLifecycle, WindowsServiceError>(
            reported_lifecycle(output_text_of(*output)),
        ),
        !output.success ==> (r matches Err(WindowsServiceError::CommandFailed { verb, text })
            && verb@ == "query"@ && text@ == output_text_of(*output)),
{
    if !output.success {
        return Err(failed("query", output));
    }
    let text = output_text(output);
    let upper = to_ascii_uppercase(text.as_str());
    if contains(upper.as_str(), "RUNNING") {
        Ok(ServiceLifecycle::Running)
    } else if contains(upper.as_str(), "START_PENDING") {
        Ok(ServiceLifecycle::Starting)
    } else if contains(upper.as_str(), "STOP_PENDING") {
        Ok(ServiceLifecycle::Stopping)
    } else if contains(upper.as_str(), "STOPPED") {
        Ok(ServiceLifecycle::Stopped)
    } else {
        Ok(ServiceLifecycle::Unknown)
    }
}

/// Reads the output of `sc.exe start <service>`.
pub fn start(output: &CommandOutput) -> (r: Result<(), WindowsServiceError>)
    ensures
        output.success ==> r is Ok,
        !output.success ==> (r matches Err(WindowsServiceError::CommandFailed { verb, text })
            && verb@ == "start"@ && text@ == output_text_of(*output)),
{
    if !output.success {
        return Err(failed("start", output));
    }
    Ok(())
}

/// Reads the output of `sc.exe stop <service>`.
pub fn stop(output: &CommandOutput) -> (r: Result<(), WindowsServiceError>)
    ensures
        output.success ==> r is Ok,
        !output.success ==> (r matches Err(WindowsServiceError::CommandFailed { verb, text })
            && verb@ == "stop"@ && text@ == output_text_of(*output)),
{
    if !output.success {
        return Err(failed("stop", output));
    }
    Ok(())
}


impl WindowsServiceError {
    /// The message shown for this error: `sc.exe <verb> failed: <output>`.
    pub fn message(&self) -> (r: String)
        ensures
            match self {
                WindowsServiceError::CommandFailed { verb, text } => r@ == "sc.exe "@ + verb@
                    + " failed: "@ + text@,
            },
    {
        match self {
            WindowsServiceError::CommandFailed { verb, text } => {
                let mut r = crate::text::concat3("sc.exe ", verb.as_str(), " failed: ");
                r.append(text.as_str());
                r
            },
        }
    }
}

} // verus!
