//! The command line that tails a log file in Windows Terminal.
use vstd::prelude::*;

use crate::config::TerminalConfig;
use crate::text::{has_prefix, replace, replace_all, text_eq};

verus! {

/// The tail command of earlier example configurations, which loads the whole file.
pub const LEGACY_TAIL_COMMAND: &'static str = "Get-Content -Path '{logFile}' -Wait";

/// The tail command used in its place, which loads the last 300 lines.
pub const DEFAULT_TAIL_COMMAND: &'static str = "Get-Content -Path '{logFile}' -Tail 300 -Wait";

/// `value` made safe inside a PowerShell single-quoted string: each `'` doubled.
pub open spec fn quote_text(value: Seq<char>) -> Seq<char> {
    replace_all(value, "'"@, "''"@)
}

/// The inverse of quoting: each `''` back to `'`.
pub open spec fn unquote_text(value: Seq<char>) -> Seq<char> {
    replace_all(value, "''"@, "'"@)
}

/// Escapes `value` for a PowerShell single-quoted string.
pub fn powershell_single_quote(value: &str) -> (r: String)
    ensures
        r@ == quote_text(value@),
{
    proof {
        reveal_strlit("'");
    }
    replace(value, "'", "''")
}

/// Quoting loses nothing: unquoting a quoted text gives it back.
pub proof fn law_quote_round_trip(value: Seq<char>)
    ensures
        unquote_text(quote_text(value)) == value,
    decreases value.len(),
{
    reveal_strlit("'");
    reveal_strlit("''");
    if value.len() > 0 {
        law_quote_round_trip(value.skip(1));
        let rest = quote_text(value.skip(1));
        if has_prefix(value, "'"@) {
            assert(value.skip("'"@.len() as int) == value.skip(1));
            assert(quote_text(value) == "''"@ + rest);
            let q = "''"@ + rest;
            assert(q.subrange(0, 2) =~= "''"@);
            assert(q.skip(2) =~= rest);
            assert(unquote_text(q) == "'"@ + unquote_text(rest));
            assert(value =~= "'"@ + value.skip(1)) by {
                assert(value.subrange(0, 1) =~= "'"@);
                assert(value.subrange(0, 1)[0] == value[0]);
                assert("'"@[0] == '\'');
            }
        } else {
            assert(value[0] != '\'') by {
                if value[0] == '\'' {
                    assert(value.subrange(0, 1) =~= "'"@);
                }
            }
            assert(quote_text(value) == seq![value[0]] + rest);
            let q = seq![value[0]] + rest;
            assert(!has_prefix(q, "''"@)) by {
                if has_prefix(q, "''"@) {
                    assert(q.subrange(0, 2)[0] == q[0]);
                }
            }
            assert(q.skip(1) =~= rest);
            assert(unquote_text(q) == seq![q[0]] + unquote_text(rest));
            assert(value =~= seq![value[0]] + value.skip(1));
        }
    }
}

/// The number of single quotes in `s`.
pub open spec fn quote_count(s: Seq<char>) -> nat
    decreases s.len(),
{
    if s.len() == 0 {
        0
    } else {
        (if s[0] == '\'' {
            1nat
        } else {
            0nat
        }) + quote_count(s.skip(1))
    }
}

/// `s[i..j]` is a maximal run of single quotes.
pub open spec fn quote_run(s: Seq<char>, i: int, j: int) -> bool {
    &&& 0 <= i <= j <= s.len()
    &&& forall|k: int| i <= k < j ==> s[k] == '\''
    &&& i == 0 || s[i - 1] != '\''
    &&& j == s.len() || s[j] != '\''
}

/// Read from the left, every single quote of `s` is directly followed by a
/// second one.
pub open spec fn quotes_paired(s: Seq<char>) -> bool
    decreases s.len(),
{
    if s.len() == 0 {
        true
    } else if s[0] == '\'' {
        s.len() >= 2 && s[1] == '\'' && quotes_paired(s.skip(2))
    } else {
        quotes_paired(s.skip(1))
    }
}

/// Quoting a non-empty text: its first character, doubled if it is a quote,
/// then the rest quoted.
proof fn lemma_quote_step(value: Seq<char>)
    requires
        value.len() > 0,
    ensures
        value[0] == '\'' ==> quote_text(value) == seq!['\'', '\''] + quote_text(value.skip(1)),
        value[0] != '\'' ==> quote_text(value) == seq![value[0]] + quote_text(value.skip(1)),
{
    reveal_strlit("'");
    reveal_strlit("''");
    if value[0] == '\'' {
        assert(value.subrange(0, 1) =~= "'"@);
        assert(has_prefix(value, "'"@));
        assert("''"@ =~= seq!['\'', '\'']);
    } else {
        assert(!has_prefix(value, "'"@)) by {
            if has_prefix(value, "'"@) {
                assert(value.subrange(0, 1)[0] == value[0]);
            }
        }
    }
}

proof fn lemma_quote_len(value: Seq<char>)
    ensures
        quote_text(value).len() == value.len() + quote_count(value),
    decreases value.len(),
{
    if value.len() > 0 {
        lemma_quote_step(value);
        lemma_quote_len(value.skip(1));
    } else {
        assert(quote_text(value) == value);
    }
}

proof fn lemma_quotes_paired(value: Seq<char>)
    ensures
        quotes_paired(quote_text(value)),
    decreases value.len(),
{
    if value.len() > 0 {
        lemma_quote_step(value);
        lemma_quotes_paired(value.skip(1));
        let q = quote_text(value);
        if value[0] == '\'' {
            assert(q.skip(2) =~= quote_text(value.skip(1)));
        } else {
            assert(q.skip(1) =~= quote_text(value.skip(1)));
        }
    } else {
        assert(quote_text(value) == value);
    }
}

proof fn lemma_paired_runs_even(s: Seq<char>, i: int, j: int)
    requires
        quotes_paired(s),
        quote_run(s, i, j),
    ensures
        (j - i) % 2 == 0,
    decreases s.len(),
{
    if s.len() > 0 && j > i {
        if s[0] == '\'' {
            let t = s.skip(2);
            if i == 0 {
                assert(j >= 2) by {
                    if j == 1 {
                        assert(s[1] == '\'');
                    }
                }
                assert(quote_run(t, 0, j - 2));
                lemma_paired_runs_even(t, 0, j - 2);
            } else {
                assert(i >= 3) by {
                    assert(s[i - 1] != '\'');
                }
                assert(quote_run(t, i - 2, j - 2));
                lemma_paired_runs_even(t, i - 2, j - 2);
            }
        } else {
            let t = s.skip(1);
            assert(i >= 1) by {
                if i == 0 {
                    assert(s[0] == '\'');
                }
            }
            assert(quote_run(t, i - 1, j - 1));
            lemma_paired_runs_even(t, i - 1, j - 1);
        }
    }
}

/// A quoted text is one character longer than the text for each single quote
/// in it, and every run of single quotes in it has even length, so it is
/// safe inside a PowerShell single-quoted string.
pub proof fn law_quote_shape(value: Seq<char>, i: int, j: int)
    ensures
        quote_text(value).len() == value.len() + quote_count(value),
        quote_run(quote_text(value), i, j) ==> (j - i) % 2 == 0,
{
    lemma_quote_len(value);
    lemma_quotes_paired(value);
    if quote_run(quote_text(value), i, j) {
        lemma_paired_runs_even(quote_text(value), i, j);
    }
}

/// The tail command for `log_file`: `template`, or the last-300-lines command
/// in place of the legacy one, with `{logFile}` replaced by the quoted path.
pub open spec fn tail_command_text(template: Seq<char>, log_file: Seq<char>) -> Seq<char> {
    let t = if template == LEGACY_TAIL_COMMAND@ {
        DEFAULT_TAIL_COMMAND@
    } else {
        template
    };
    replace_all(t, "{logFile}"@, quote_text(log_file))
}

/// The tail command for `log_file` from the configured template.
pub fn build_tail_command(template: &str, log_file: &str) -> (r: String)
    ensures
        r@ == tail_command_text(template@, log_file@),
{
    proof {
        reveal_strlit("{logFile}");
    }
    let escaped = powershell_single_quote(log_file);
    if text_eq(template, LEGACY_TAIL_COMMAND) {
        replace(DEFAULT_TAIL_COMMAND, "{logFile}", escaped.as_str())
    } else {
        replace(template, "{logFile}", escaped.as_str())
    }
}

/// A program and its arguments.
#[derive(Debug, Clone, PartialEq)]
pub struct TerminalLaunch {
    pub program: String,
    pub args: Vec<String>,
}

/// The arguments that open a new terminal tab titled `service_name`, in which
/// the shell runs the tail command for `log_file` and stays open.
pub open spec fn tail_args(
    terminal: TerminalConfig,
    service_name: Seq<char>,
    log_file: Seq<char>,
) -> Seq<Seq<char>> {
    seq![
        "new-tab"@,
        "--title"@,
        service_name,
        terminal.shell@,
        "-NoExit"@,
        "-Command"@,
        tail_command_text(terminal.tail_command@, log_file),
    ]
}

/// What to launch to tail `log_file` in a terminal.
pub fn tail_launch(terminal: &TerminalConfig, service_name: &str, log_file: &str) -> (r:
    TerminalLaunch)
    ensures
        r.program == terminal.program,
        r.args@.map_values(|a: String| a@) == tail_args(*terminal, service_name@, log_file@),
{
    let command = build_tail_command(terminal.tail_command.as_str(), log_file);
    let mut args: Vec<String> = Vec::new();
    args.push(String::from_str("new-tab"));
    args.push(String::from_str("--title"));
    args.push(String::from_str(service_name));
    args.push(terminal.shell.clone());
    args.push(String::from_str("-NoExit"));
    args.push(String::from_str("-Command"));
    args.push(command);
    let r = TerminalLaunch { program: terminal.program.clone(), args };
    assert(r.args@.map_values(|a: String| a@) =~= tail_args(*terminal, service_name@, log_file@));
    r
}

} // verus!
