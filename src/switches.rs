//! The command-line switches the browser process starts with, computed from
//! an `OsrApp`.
use vstd::prelude::*;
use vstd::string::StringExecFns;
use crate::config::{AppSettings, OsrApp, strings_view};
use crate::text::{decimal, decimal_string, trimmed, strip_leading, find_from, trim, strip_leading_char, find_char};

verus! {

/// A command-line switch, with or without a value.
#[derive(Debug)]
pub struct Switch {
    pub name: String,
    pub value: Option<String>,
}

pub struct SwitchSpec {
    pub name: Seq<char>,
    pub value: Option<Seq<char>>,
}

pub open spec fn switch_view(w: Switch) -> SwitchSpec {
    SwitchSpec {
        name: w.name@,
        value: match w.value {
            Some(v) => Some(v@),
            None => None,
        },
    }
}

pub open spec fn switches_view(ws: Seq<Switch>) -> Seq<SwitchSpec> {
    ws.map_values(|w: Switch| switch_view(w))
}

pub open spec fn flag(name: Seq<char>) -> SwitchSpec {
    SwitchSpec { name, value: None }
}

pub open spec fn valued(name: Seq<char>, value: Seq<char>) -> SwitchSpec {
    SwitchSpec { name, value: Some(value) }
}

/// A custom switch as written by the user: surrounding white space and
/// leading dashes are dropped, and `name=value` splits at the first `=`.
/// A blank entry gives no switch.
pub open spec fn switch_of(raw: Seq<char>) -> Option<SwitchSpec> {
    let t = trimmed(raw);
    if t.len() == 0 {
        None
    } else {
        let body = strip_leading(t, '-');
        match find_from(body, '=', 0) {
            Some(k) => Some(valued(body.subrange(0, k), body.subrange(k + 1, body.len() as int))),
            None => Some(flag(body)),
        }
    }
}

/// The switches for a list of custom entries, in order.
pub open spec fn custom_switches_spec(cs: Seq<Seq<char>>) -> Seq<SwitchSpec>
    decreases cs.len(),
{
    if cs.len() == 0 {
        Seq::empty()
    } else {
        let rest = custom_switches_spec(cs.drop_last());
        match switch_of(cs.last()) {
            Some(w) => rest.push(w),
            None => rest,
        }
    }
}

/// The switches every browser process gets.
pub open spec fn base_switches() -> Seq<SwitchSpec> {
    seq![
        flag("no-sandbox"@),
        flag("no-startup-window"@),
        flag("noerrdialogs"@),
        flag("hide-crash-restore-bubble"@),
        flag("use-mock-keychain"@),
        flag("enable-logging=stderr"@),
        flag("transparent-painting-enabled"@),
        flag("enable-zero-copy"@),
        flag("off-screen-rendering-enabled"@),
        flag("use-views"@),
    ]
}

/// Bytes per megabyte, for the disk cache limit.
pub const BYTES_PER_MB: u64 = 1048576;

/// The switches for an application: the base switches; then remote
/// debugging, user agent, proxy (with its bypass list only when a proxy is
/// set) and disk cache size, each only when configured; then the custom
/// switches.
pub open spec fn app_switches(a: AppSettings) -> Seq<SwitchSpec> {
    let debugging = if a.enable_remote_debugging {
        seq![valued("remote-debugging-port"@, decimal(a.remote_debugging_port as nat))]
    } else {
        Seq::empty()
    };
    let agent = if a.user_agent.len() > 0 {
        seq![valued("user-agent"@, a.user_agent)]
    } else {
        Seq::empty()
    };
    let proxy = if a.proxy_server.len() > 0 {
        seq![valued("proxy-server"@, a.proxy_server)] + if a.proxy_bypass_list.len() > 0 {
            seq![valued("proxy-bypass-list"@, a.proxy_bypass_list)]
        } else {
            Seq::empty()
        }
    } else {
        Seq::empty()
    };
    let cache = if a.cache_size_mb > 0 {
        seq![valued("disk-cache-size"@, decimal((a.cache_size_mb * BYTES_PER_MB) as nat))]
    } else {
        Seq::empty()
    };
    base_switches() + debugging + agent + proxy + cache + custom_switches_spec(a.custom_switches)
}

/// Parses one custom switch entry.
pub fn parse_switch(raw: &str) -> (r: Option<Switch>)
    ensures
        r matches Some(w) ==> switch_of(raw@) == Some(switch_view(w)),
        r is None ==> switch_of(raw@) is None,
{
    let t = trim(raw);
    if t.unicode_len() == 0 {
        return None;
    }
    let body = strip_leading_char(t, '-');
    match find_char(body, '=') {
        Some(k) => {
            let n = body.unicode_len();
            let name = String::from_str(body.substring_char(0, k));
            let value = String::from_str(body.substring_char(k + 1, n));
            Some(Switch { name, value: Some(value) })
        },
        None => Some(Switch { name: String::from_str(body), value: None }),
    }
}

fn push_flag(out: &mut Vec<Switch>, name: &str)
    ensures
        switches_view(final(out)@) == switches_view(old(out)@).push(flag(name@)),
{
    out.push(Switch { name: String::from_str(name), value: None });
    assert(switches_view(out@) =~= switches_view(old(out)@).push(flag(name@)));
}

fn push_valued(out: &mut Vec<Switch>, name: &str, value: String)
    ensures
        switches_view(final(out)@) == switches_view(old(out)@).push(valued(name@, value@)),
{
    out.push(Switch { name: String::from_str(name), value: Some(value) });
    assert(switches_view(out@) =~= switches_view(old(out)@).push(valued(name@, value@)));
}

impl OsrApp {
    /// The command-line switches the browser process starts with.
    pub fn command_line_switches(&self) -> (r: Vec<Switch>)
        ensures
            switches_view(r@) == app_switches(self@),
    {
        let mut out: Vec<Switch> = Vec::new();
        assert(switches_view(out@) =~= Seq::<SwitchSpec>::empty());
        push_flag(&mut out, "no-sandbox");
        push_flag(&mut out, "no-startup-window");
        push_flag(&mut out, "noerrdialogs");
        push_flag(&mut out, "hide-crash-restore-bubble");
        push_flag(&mut out, "use-mock-keychain");
        push_flag(&mut out, "enable-logging=stderr");
        push_flag(&mut out, "transparent-painting-enabled");
        push_flag(&mut out, "enable-zero-copy");
        push_flag(&mut out, "off-screen-rendering-enabled");
        push_flag(&mut out, "use-views");
        assert(switches_view(out@) =~= base_switches());
        let ghost a = self@;
        let ghost expected = base_switches();
        if self.enable_remote_debugging() {
            push_valued(&mut out, "remote-debugging-port", decimal_string(self.remote_debugging_port() as u64));
        }
        let ghost debugging = if a.enable_remote_debugging {
            seq![valued("remote-debugging-port"@, decimal(a.remote_debugging_port as nat))]
        } else {
            Seq::empty()
        };
        assert(switches_view(out@) =~= expected + debugging);
        let agent = self.user_agent();
        if agent.unicode_len() > 0 {
            push_valued(&mut out, "user-agent", String::from_str(agent));
        }
        let ghost agent_part = if a.user_agent.len() > 0 {
            seq![valued("user-agent"@, a.user_agent)]
        } else {
            Seq::empty()
        };
        assert(switches_view(out@) =~= expected + debugging + agent_part);
        let proxy = self.proxy_server();
        if proxy.unicode_len() > 0 {
            push_valued(&mut out, "proxy-server", String::from_str(proxy));
            let bypass = self.proxy_bypass_list();
            if bypass.unicode_len() > 0 {
                push_valued(&mut out, "proxy-bypass-list", String::from_str(bypass));
            }
        }
        let ghost proxy_part = if a.proxy_server.len() > 0 {
            seq![valued("proxy-server"@, a.proxy_server)] + if a.proxy_bypass_list.len() > 0 {
                seq![valued("proxy-bypass-list"@, a.proxy_bypass_list)]
            } else {
                Seq::empty()
            }
        } else {
            Seq::empty()
        };
        assert(switches_view(out@) =~= expected + debugging + agent_part + proxy_part);
        let mb = self.cache_size_mb();
        if mb > 0 {
            let bytes: u64 = (mb as u64) * BYTES_PER_MB;
            push_valued(&mut out, "disk-cache-size", decimal_string(bytes));
        }
        let ghost cache_part = if a.cache_size_mb > 0 {
            seq![valued("disk-cache-size"@, decimal((a.cache_size_mb * BYTES_PER_MB) as nat))]
        } else {
            Seq::empty()
        };
        let ghost prefix = expected + debugging + agent_part + proxy_part + cache_part;
        assert(switches_view(out@) =~= prefix);
        let custom = self.custom_switches();
        let mut i: usize = 0;
        while i < custom.len()
            invariant
                i <= custom@.len(),
                strings_view(custom@) == a.custom_switches,
                switches_view(out@) == prefix + custom_switches_spec(
                    a.custom_switches.subrange(0, i as int),
                ),
            decreases custom@.len() - i,
        {
            let ghost cs = a.custom_switches.subrange(0, i as int + 1);
            assert(cs.drop_last() =~= a.custom_switches.subrange(0, i as int));
            assert(cs.last() == custom@[i as int]@);
            let ghost before = switches_view(out@);
            match parse_switch(custom[i].as_str()) {
                Some(w) => {
                    out.push(w);
                    assert(switches_view(out@) =~= before.push(switch_view(w)));
                },
                None => {},
            }
            i = i + 1;
        }
        assert(a.custom_switches.subrange(0, custom@.len() as int) =~= a.custom_switches);
        out
    }
}

} // verus!
