//! SSH checks: connecting to a host and judging the command's exit status.

use vstd::prelude::*;
use crate::errors::MaremmaError;
use crate::json::{
    JsonValue, lookup, text_or, overlay_text, overlay_number, opt_text, opt_num, is_field_error,
    extract_string, extract_opt_text, extract_number,
};
use crate::schedule::{CronSchedule, overlay_cron, extract_cron};
use crate::services::http::{opt_num16, narrow16, widen16};
use crate::status::ServiceStatus;
use crate::text::{push_str, push_decimal, nat_to_decimal, utf8_lossy, lossy_text};

verus! {

/// SSH-based service, SSH to a host and run a command
#[derive(Debug)]
pub struct SshService {
    /// Name of the service
    pub name: String,
    /// Command to run on the remote host
    pub command_line: String,
    /// Port to connect to, defaults to 22; never zero
    pub port: Option<u16>,
    /// Schedule for the service
    pub cron_schedule: CronSchedule,
    /// Username to connect with
    pub username: String,
    /// SSH key to use
    pub private_key: Option<String>,
    /// If you're bad, but you have to. Won't try this is the private key is set.
    pub password: Option<String>,
    /// Expected exit code (Defaults to 0)
    pub exit_code: Option<u32>,
    /// Connection timeout (seconds), not runtime-timeout
    pub timeout: Option<u32>,
    /// Add random jitter in 0..n seconds to the check
    pub jitter: Option<u16>,
}

/// How a check logs in.
#[derive(Debug, PartialEq, Eq)]
pub enum SshAuth {
    /// With the key in this file
    KeyFile(String),
    /// With this password
    Password(String),
    /// With neither
    Nothing,
}

/// The view of an optional 32-bit number.
pub open spec fn opt_num32(o: Option<u32>) -> Option<int> {
    match o {
        Some(n) => Some(n as int),
        None => None,
    }
}

fn narrow32(o: Option<u64>) -> (r: Option<u32>)
    requires
        o matches Some(n) ==> n <= 0xffff_ffff,
    ensures
        opt_num32(r) == opt_num(o),
{
    match o {
        Some(n) => Some(n as u32),
        None => None,
    }
}

fn widen32(o: Option<u32>) -> (r: Option<u64>)
    ensures
        opt_num(r) == opt_num32(o),
{
    match o {
        Some(n) => Some(n as u64),
        None => None,
    }
}

/// The masked form of a password: one `*` for each of its bytes in UTF-8.
pub open spec fn password_mask(byte_len: nat) -> Seq<char> {
    Seq::new(byte_len, |i: int| '*')
}

/// How a password is shown when a check is written out: masked, one `*` per byte.
pub fn serialize_password(password: &Option<String>) -> (r: Option<String>)
    ensures
        match *password {
            Some(p) => r matches Some(m) && m@ == password_mask(vstd::utf8::encode_utf8(p@).len()),
            None => r is None,
        },
{
    match password {
        Some(p) => {
            let n = p.as_str().as_bytes().len();
            let mut m = String::new();
            let mut i: usize = 0;
            while i < n
                invariant
                    i <= n,
                    m@ =~= password_mask(i as nat),
                decreases n - i,
            {
                m.push('*');
                i += 1;
            }
            Some(m)
        },
        None => None,
    }
}

impl SshService {
    /// Checks the settings: a check needs a key or a password to log in.
    pub fn validate(&self) -> (r: Result<(), MaremmaError>)
        ensures
            self.private_key is None && self.password is None ==> (r matches Err(
                MaremmaError::Configuration(m),
            ) && m@ == "No SSH key or password provided, auth is going to fail!"@),
            self.private_key is Some || self.password is Some ==> r is Ok,
    {
        if self.private_key.is_none() && self.password.is_none() {
            return Err(
                MaremmaError::Configuration(
                    "No SSH key or password provided, auth is going to fail!".to_owned(),
                ),
            );
        }
        Ok(())
    }

    /// How the check logs in: with its key where it has one, else with its password.
    pub fn auth(&self) -> (r: SshAuth)
        ensures
            match self.private_key {
                Some(k) => r matches SshAuth::KeyFile(f) && f@ == k@,
                None => match self.password {
                    Some(p) => r matches SshAuth::Password(q) && q@ == p@,
                    None => r == SshAuth::Nothing,
                },
            },
    {
        match &self.private_key {
            Some(k) => SshAuth::KeyFile(k.clone()),
            None => match &self.password {
                Some(p) => SshAuth::Password(p.clone()),
                None => SshAuth::Nothing,
            },
        }
    }

    /// The address to connect to: the host's name and the check's port, or 22.
    pub fn target(&self, hostname: &str) -> (r: String)
        ensures
            r@ == hostname@ + ":"@ + nat_to_decimal(
                match self.port {
                    Some(p) => p as nat,
                    None => 22,
                },
            ),
    {
        let mut t = String::new();
        push_str(&mut t, hostname);
        push_str(&mut t, ":");
        let port: u16 = match self.port {
            Some(p) => p,
            None => 22,
        };
        push_decimal(&mut t, port as u128);
        t
    }

    /// The result when the key file is not there: critical, naming the file.
    pub fn missing_key_result(path: &str) -> (r: (ServiceStatus, String))
        ensures
            r.0 == ServiceStatus::Critical,
            r.1@ == "SSH key not found: "@ + path@,
    {
        let mut t = String::new();
        push_str(&mut t, "SSH key not found: ");
        push_str(&mut t, path);
        (ServiceStatus::Critical, t)
    }

    /// What a finished command means: OK when it exits with the expected status (0 unless
    /// set), critical otherwise; its output, read as UTF-8, is the text.
    pub fn command_verdict(&self, exit_status: u32, output: &Vec<u8>) -> (r: (ServiceStatus, String))
        ensures
            r.0 == (if exit_status == (match self.exit_code {
                Some(c) => c,
                None => 0,
            }) {
                ServiceStatus::OK
            } else {
                ServiceStatus::Critical
            }),
            r.1@ == utf8_lossy(output@),
    {
        let expected: u32 = match self.exit_code {
            Some(c) => c,
            None => 0,
        };
        let text = lossy_text(output);
        if exit_status == expected {
            (ServiceStatus::OK, text)
        } else {
            (ServiceStatus::Critical, text)
        }
    }

    /// The check with a host's own settings laid over it. The fields are read in order:
    /// `name`, `cron_schedule`, `command_line`, `port`, `username`, `private_key`,
    /// `password`, `exit_code`, `timeout`, `jitter`; the first refused decides the error.
    pub fn overlay_host_config(&self, entries: &Vec<(String, JsonValue)>) -> (r: Result<SshService, MaremmaError>)
        ensures
            r is Ok <==> (overlay_cron(lookup(entries@, "cron_schedule"@), self.cron_schedule@) is Ok
                && overlay_number(lookup(entries@, "port"@), opt_num16(self.port), 65535, true) is Some
                && overlay_text(lookup(entries@, "private_key"@), opt_text(self.private_key)) is Some
                && overlay_text(lookup(entries@, "password"@), opt_text(self.password)) is Some
                && overlay_number(lookup(entries@, "exit_code"@), opt_num32(self.exit_code), 0xffff_ffff, false) is Some
                && overlay_number(lookup(entries@, "timeout"@), opt_num32(self.timeout), 0xffff_ffff, false) is Some
                && overlay_number(lookup(entries@, "jitter"@), opt_num16(self.jitter), 65535, false) is Some),
            r matches Err(x) ==> if overlay_cron(lookup(entries@, "cron_schedule"@), self.cron_schedule@) is Err {
                x is Generic
            } else if overlay_number(lookup(entries@, "port"@), opt_num16(self.port), 65535, true) is None {
                is_field_error(x, "port"@)
            } else if overlay_text(lookup(entries@, "private_key"@), opt_text(self.private_key)) is None {
                is_field_error(x, "private_key"@)
            } else if overlay_text(lookup(entries@, "password"@), opt_text(self.password)) is None {
                is_field_error(x, "password"@)
            } else if overlay_number(lookup(entries@, "exit_code"@), opt_num32(self.exit_code), 0xffff_ffff, false) is None {
                is_field_error(x, "exit_code"@)
            } else if overlay_number(lookup(entries@, "timeout"@), opt_num32(self.timeout), 0xffff_ffff, false) is None {
                is_field_error(x, "timeout"@)
            } else {
                is_field_error(x, "jitter"@)
            },
            r matches Ok(c) ==> {
                &&& c.name@ == text_or(lookup(entries@, "name"@), self.name@)
                &&& Ok::<Seq<char>, bool>(c.cron_schedule@) == overlay_cron(lookup(entries@, "cron_schedule"@), self.cron_schedule@)
                &&& c.command_line@ == text_or(lookup(entries@, "command_line"@), self.command_line@)
                &&& Some(opt_num16(c.port)) == overlay_number(lookup(entries@, "port"@), opt_num16(self.port), 65535, true)
                &&& c.username@ == text_or(lookup(entries@, "username"@), self.username@)
                &&& Some(opt_text(c.private_key)) == overlay_text(lookup(entries@, "private_key"@), opt_text(self.private_key))
                &&& Some(opt_text(c.password)) == overlay_text(lookup(entries@, "password"@), opt_text(self.password))
                &&& Some(opt_num32(c.exit_code)) == overlay_number(lookup(entries@, "exit_code"@), opt_num32(self.exit_code), 0xffff_ffff, false)
                &&& Some(opt_num32(c.timeout)) == overlay_number(lookup(entries@, "timeout"@), opt_num32(self.timeout), 0xffff_ffff, false)
                &&& Some(opt_num16(c.jitter)) == overlay_number(lookup(entries@, "jitter"@), opt_num16(self.jitter), 65535, false)
            },
    {
        let name = extract_string(entries, "name", self.name.as_str());
        let cron_schedule = extract_cron(entries, "cron_schedule", &self.cron_schedule)?;
        let command_line = extract_string(entries, "command_line", self.command_line.as_str());
        let port = extract_number(entries, "port", widen16(self.port), 65535, true)?;
        let username = extract_string(entries, "username", self.username.as_str());
        let private_key = extract_opt_text(entries, "private_key", &self.private_key)?;
        let password = extract_opt_text(entries, "password", &self.password)?;
        let exit_code = extract_number(entries, "exit_code", widen32(self.exit_code), 0xffff_ffff, false)?;
        let timeout = extract_number(entries, "timeout", widen32(self.timeout), 0xffff_ffff, false)?;
        let jitter = extract_number(entries, "jitter", widen16(self.jitter), 65535, false)?;
        Ok(SshService {
            name,
            command_line,
            port: narrow16(port),
            cron_schedule,
            username,
            private_key,
            password,
            exit_code: narrow32(exit_code),
            timeout: narrow32(timeout),
            jitter: narrow16(jitter),
        })
    }
}

} // verus!
