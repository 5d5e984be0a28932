//! Checks that run a command on the Maremma server.

use vstd::prelude::*;
use crate::errors::MaremmaError;
use crate::json::{
    JsonValue, lookup, text_or, bool_or, overlay_text, overlay_number, opt_text, opt_num,
    is_field_error, extract_string, extract_bool, extract_opt_text, extract_number,
};
use crate::schedule::{CronSchedule, overlay_cron, extract_cron};
use crate::services::http::{opt_num16, narrow16, widen16};
use crate::status::{ServiceStatus, status_of_exit_code};
use crate::text::{replace_all, replace_str, words, split_words, views, utf8_lossy, lossy_text};

verus! {

/// A service that runs on the command line, typically on the Maremma server
#[derive(Debug)]
pub struct CliService {
    /// Name of the service
    pub name: String,
    /// Hostname for overlaying on the service
    pub hostname: Option<String>,
    /// Command line to run, you can use #HOSTNAME# to substitute the hostname
    pub command_line: String,
    /// If we should run the command in a shell
    pub run_in_shell: bool,
    /// Cron schedule for the service
    pub cron_schedule: CronSchedule,
    /// Add random jitter in 0..n seconds to the check
    pub jitter: Option<u16>,
}

/// The command to start for a check.
#[derive(Debug)]
pub struct CommandPlan {
    /// The program: `/bin/sh`, or the name to look up on the search path
    pub program: String,
    /// Its arguments
    pub args: Vec<String>,
    /// Is the program the shell, run as it is rather than looked up?
    pub in_shell: bool,
}

/// The hostname a check uses: its own setting, or the host's.
pub open spec fn cli_hostname(s: &CliService, host_hostname: Seq<char>) -> Seq<char> {
    match s.hostname {
        Some(h) => h@,
        None => host_hostname,
    }
}

/// The command line with each `#HOSTNAME#` replaced by the hostname.
pub open spec fn cli_command_line(s: &CliService, host_hostname: Seq<char>) -> Seq<char> {
    replace_all(s.command_line@, "#HOSTNAME#"@, cli_hostname(s, host_hostname))
}

/// A check's own hostname setting, where it has one, is what replaces `#HOSTNAME#` in its
/// command line, whatever the host is called; without one the host's name is used.
pub proof fn own_hostname_is_substituted(s: &CliService, host_hostname: Seq<char>)
    ensures
        s.hostname matches Some(h) ==> cli_command_line(s, host_hostname) == replace_all(
            s.command_line@,
            "#HOSTNAME#"@,
            h@,
        ),
        s.hostname is None ==> cli_command_line(s, host_hostname) == replace_all(
            s.command_line@,
            "#HOSTNAME#"@,
            host_hostname,
        ),
{
}

/// The text of a check's output: the standard output and then the standard error, read as
/// UTF-8, with each two backslashes followed by `n` made a space.
pub open spec fn cli_output_text(stdout: Seq<u8>, stderr: Seq<u8>) -> Seq<char> {
    replace_all(utf8_lossy(stdout + stderr), "\\\\n"@, " "@)
}

/// Does overlaying `e` onto `s` fail with `x`? The fields are read in order:
/// `cron_schedule`, `hostname`, `jitter`; the first refused decides the error.
pub open spec fn cli_overlay_error(s: &CliService, e: Seq<(String, JsonValue)>, x: MaremmaError) -> bool {
    if overlay_cron(lookup(e, "cron_schedule"@), s.cron_schedule@) is Err {
        x matches MaremmaError::Generic(m) && m@ == (if overlay_cron(
            lookup(e, "cron_schedule"@),
            s.cron_schedule@,
        ) == Err::<Seq<char>, bool>(true) {
            "Failed to get cron_schedule"@
        } else {
            "Failed to parse cron_schedule"@
        })
    } else if overlay_text(lookup(e, "hostname"@), opt_text(s.hostname)) is None {
        is_field_error(x, "hostname"@)
    } else if overlay_number(lookup(e, "jitter"@), opt_num16(s.jitter), 65535, false) is None {
        is_field_error(x, "jitter"@)
    } else {
        false
    }
}

impl CliService {
    /// The check with a host's own settings laid over it; each field of `entries`
    /// replaces the setting of the same name.
    pub fn overlay_host_config(&self, entries: &Vec<(String, JsonValue)>) -> (r: Result<CliService, MaremmaError>)
        ensures
            r is Ok <==> (overlay_cron(lookup(entries@, "cron_schedule"@), self.cron_schedule@) is Ok
                && overlay_text(lookup(entries@, "hostname"@), opt_text(self.hostname)) is Some
                && overlay_number(lookup(entries@, "jitter"@), opt_num16(self.jitter), 65535, false) is Some),
            r matches Err(x) ==> cli_overlay_error(self, entries@, x),
            r matches Ok(c) ==> {
                &&& c.name@ == text_or(lookup(entries@, "name"@), self.name@)
                &&& Some(opt_text(c.hostname)) == overlay_text(lookup(entries@, "hostname"@), opt_text(self.hostname))
                &&& c.command_line@ == text_or(lookup(entries@, "command_line"@), self.command_line@)
                &&& c.run_in_shell == bool_or(lookup(entries@, "run_in_shell"@), self.run_in_shell)
                &&& Ok::<Seq<char>, bool>(c.cron_schedule@) == overlay_cron(lookup(entries@, "cron_schedule"@), self.cron_schedule@)
                &&& Some(opt_num16(c.jitter)) == overlay_number(lookup(entries@, "jitter"@), opt_num16(self.jitter), 65535, false)
            },
    {
        let cron_schedule = extract_cron(entries, "cron_schedule", &self.cron_schedule)?;
        let hostname = extract_opt_text(entries, "hostname", &self.hostname)?;
        let name = extract_string(entries, "name", self.name.as_str());
        let command_line = extract_string(entries, "command_line", self.command_line.as_str());
        let run_in_shell = extract_bool(entries, "run_in_shell", self.run_in_shell);
        let jitter = extract_number(entries, "jitter", widen16(self.jitter), 65535, false)?;
        Ok(CliService {
            name,
            hostname,
            command_line,
            run_in_shell,
            cron_schedule,
            jitter: narrow16(jitter),
        })
    }

    /// The command to start for a host named `host_hostname`. The command line has each
    /// `#HOSTNAME#` replaced; run in a shell it is handed to `/bin/sh -c` whole; otherwise
    /// its first word is the program and the other words its arguments, and a command line
    /// without words is refused.
    pub fn command_plan(&self, host_hostname: &str) -> (r: Result<CommandPlan, MaremmaError>)
        ensures
            self.run_in_shell ==> (r matches Ok(p) && p.in_shell && p.program@ == "/bin/sh"@
                && views(p.args@) == seq!["-c"@, cli_command_line(self, host_hostname@)]),
            !self.run_in_shell && words(cli_command_line(self, host_hostname@)).len() == 0 ==> (r
                matches Err(MaremmaError::InvalidInput(m)) && m@ == "No command specified"@),
            !self.run_in_shell && words(cli_command_line(self, host_hostname@)).len() > 0 ==> (r
                matches Ok(p) && !p.in_shell && p.program@ == words(
                cli_command_line(self, host_hostname@),
            )[0] && views(p.args@) == words(cli_command_line(self, host_hostname@)).drop_first()),
    {
        let hostname: &str = match &self.hostname {
            Some(h) => h.as_str(),
            None => host_hostname,
        };
        proof {
            reveal_strlit("#HOSTNAME#");
        }
        let line = replace_str(self.command_line.as_str(), "#HOSTNAME#", hostname);
        if self.run_in_shell {
            let mut args: Vec<String> = Vec::new();
            args.push("-c".to_owned());
            args.push(line);
            proof {
                assert(views(args@) =~= seq!["-c"@, cli_command_line(self, host_hostname@)]);
            }
            return Ok(CommandPlan { program: "/bin/sh".to_owned(), args, in_shell: true });
        }
        let mut parts = split_words(line.as_str());
        if parts.len() == 0 {
            return Err(MaremmaError::InvalidInput("No command specified".to_owned()));
        }
        let ghost all = parts@;
        let program = parts.remove(0);
        proof {
            assert(parts@ =~= all.drop_first());
            assert(views(parts@) =~= views(all).drop_first());
        }
        Ok(CommandPlan { program, args: parts, in_shell: false })
    }
}

/// The result of a finished command: its status from the exit code, by the monitoring
/// plugin convention, and its output; see [`cli_output_text`].
pub fn cli_result(exit_code: Option<i32>, stdout: Vec<u8>, stderr: Vec<u8>) -> (r: (ServiceStatus, String))
    ensures
        r.0 == status_of_exit_code(exit_code),
        r.1@ == cli_output_text(stdout@, stderr@),
{
    let mut combined = stdout;
    let mut rest = stderr;
    let ghost before = combined@;
    let ghost tail = rest@;
    combined.append(&mut rest);
    assert(combined@ == before + tail);
    let text = lossy_text(&combined);
    proof {
        reveal_strlit("\\\\n");
        reveal_strlit(" ");
    }
    let cleaned = replace_str(text.as_str(), "\\\\n", " ");
    (ServiceStatus::from_exit_code(exit_code), cleaned)
}

} // verus!
