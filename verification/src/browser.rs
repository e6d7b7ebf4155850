//! Launching and connecting to a browser: the command line a launch
//! passes, the rules that the launcher's options follow, and how the
//! browser's address is read from what it prints.
use std::path::PathBuf;
use std::time::Duration;
use vstd::prelude::*;

use crate::keyed::str_eq;
use crate::text::{is_prefix, starts_with, trim, trimmed};

verus! {

/// `std::path::PathBuf`, carried through opaquely.
#[verifier::external_type_specification]
#[verifier::external_body]
pub struct ExPathBuf(PathBuf);

/// How the browser runs: with a window, headless, or in the new headless mode.
#[derive(Debug, Clone, Copy, PartialEq, Eq, Structural)]
pub enum HeadlessMode {
    False,
    True,
    New,
}

impl Default for HeadlessMode {
    fn default() -> (r: HeadlessMode)
        ensures
            r == HeadlessMode::True,
    {
        HeadlessMode::True
    }
}

/// The options of a launch: the browser to run, its command-line switches
/// (a name with an optional value), and how long to wait for it.
#[derive(Debug)]
pub struct LaunchOptions {
    pub executable: Option<PathBuf>,
    pub args: Vec<(String, Option<String>)>,
    pub launch_timeout: Option<Duration>,
}

/// The options of a connection to a running browser.
#[derive(Debug)]
pub struct ConnectOptions {
    pub websocket_url: String,
}

/// What the browser says of its version.
#[derive(Debug)]
pub struct VersionInfo {
    pub protocol_version: String,
    pub product: String,
    pub revision: String,
    pub user_agent: String,
    pub js_version: String,
}

/// Switches by their characters.
pub open spec fn args_view(v: Seq<(String, Option<String>)>) -> Seq<(Seq<char>, Option<Seq<char>>)> {
    v.map_values(|a: (String, Option<String>)| (a.0@, crate::frame::opt_str(a.1)))
}

/// A switch without a value.
pub open spec fn flag(name: Seq<char>) -> (Seq<char>, Option<Seq<char>>) {
    (name, None)
}

/// A switch with a value.
pub open spec fn valued(name: Seq<char>, value: Seq<char>) -> (Seq<char>, Option<Seq<char>>) {
    (name, Some(value))
}

/// The switches every launch starts from.
pub open spec fn default_args() -> Seq<(Seq<char>, Option<Seq<char>>)> {
    seq![
        flag("--disable-background-networking"@),
        flag("--disable-background-timer-throttling"@),
        flag("--disable-backgrounding-occluded-windows"@),
        flag("--disable-breakpad"@),
        flag("--disable-default-apps"@),
        flag("--disable-dev-shm-usage"@),
        flag("--disable-popup-blocking"@),
        flag("--disable-sync"@),
        flag("--metrics-recording-only"@),
        flag("--no-first-run"@),
        flag("--no-default-browser-check"@),
        valued("--password-store"@, "basic"@),
        flag("--use-mock-keychain"@),
        valued("--lang"@, "en_US"@),
        valued("--remote-debugging-port"@, "0"@),
        flag("--mute-audio"@),
        flag("--hide-scrollbars"@),
        flag("--disable-extensions"@),
        flag("--headless"@),
    ]
}

fn push_flag(v: &mut Vec<(String, Option<String>)>, name: &str)
    ensures
        args_view(final(v)@) == args_view(old(v)@).push(flag(name@)),
{
    v.push((name.to_owned(), None));
    proof {
        assert(args_view(v@) =~= args_view(old(v)@).push(flag(name@)));
    }
}

fn push_valued(v: &mut Vec<(String, Option<String>)>, name: &str, value: &str)
    ensures
        args_view(final(v)@) == args_view(old(v)@).push(valued(name@, value@)),
{
    v.push((name.to_owned(), Some(value.to_owned())));
    proof {
        assert(args_view(v@) =~= args_view(old(v)@).push(valued(name@, value@)));
    }
}

/// The switches every launch starts from.
pub fn default_launch_args() -> (r: Vec<(String, Option<String>)>)
    ensures
        args_view(r@) == default_args(),
{
    let mut v: Vec<(String, Option<String>)> = Vec::new();
    push_flag(&mut v, "--disable-background-networking");
    push_flag(&mut v, "--disable-background-timer-throttling");
    push_flag(&mut v, "--disable-backgrounding-occluded-windows");
    push_flag(&mut v, "--disable-breakpad");
    push_flag(&mut v, "--disable-default-apps");
    push_flag(&mut v, "--disable-dev-shm-usage");
    push_flag(&mut v, "--disable-popup-blocking");
    push_flag(&mut v, "--disable-sync");
    push_flag(&mut v, "--metrics-recording-only");
    push_flag(&mut v, "--no-first-run");
    push_flag(&mut v, "--no-default-browser-check");
    push_valued(&mut v, "--password-store", "basic");
    push_flag(&mut v, "--use-mock-keychain");
    push_valued(&mut v, "--lang", "en_US");
    push_valued(&mut v, "--remote-debugging-port", "0");
    push_flag(&mut v, "--mute-audio");
    push_flag(&mut v, "--hide-scrollbars");
    push_flag(&mut v, "--disable-extensions");
    push_flag(&mut v, "--headless");
    proof {
        assert(args_view(v@) =~= default_args());
    }
    v
}

/// The position of the first `c` in `s`.
pub open spec fn first_index(s: Seq<char>, c: char) -> Option<int> {
    if exists|i: int| 0 <= i < s.len() && s[i] == c {
        Some(choose|i: int| 0 <= i < s.len() && s[i] == c && forall|j: int| 0 <= j < i ==> s[j] != c)
    } else {
        None
    }
}

/// A switch as written on a command line: the name before the first `=`,
/// and the value after it; no value when there is no `=`.
pub open spec fn split_arg(s: Seq<char>) -> (Seq<char>, Option<Seq<char>>) {
    match first_index(s, '=') {
        Some(i) => (s.take(i), Some(s.skip(i + 1))),
        None => (s, None),
    }
}

/// Split a switch at its first `=`.
pub fn split_switch(s: &str) -> (r: (String, Option<String>))
    ensures
        (r.0@, crate::frame::opt_str(r.1)) == split_arg(s@),
{
    let n = s.unicode_len();
    let mut i: usize = 0;
    while i < n && s.get_char(i) != '='
        invariant
            n == s@.len(),
            i <= n,
            forall|j: int| 0 <= j < i ==> s@[j] != '=',
        decreases n - i,
    {
        i = i + 1;
    }
    if i < n {
        proof {
            let w = choose|w: int| 0 <= w < s@.len() && s@[w] == '=' && forall|j: int| 0 <= j < w ==> s@[j] != '=';
            assert(s@[i as int] == '=');
            if w < i {
                assert(s@[w] != '=');
            }
            if i < w {
                assert(s@[i as int] != '=');
            }
            assert(w == i);
        }
        let k = s.substring_char(0, i).to_owned();
        let v = s.substring_char(i + 1, n).to_owned();
        proof {
            assert(k@ =~= s@.take(i as int));
            assert(v@ =~= s@.skip(i + 1));
        }
        (k, Some(v))
    } else {
        (s.to_owned(), None)
    }
}

/// A launcher: the options that a launch will use.
#[derive(Debug)]
pub struct BrowserLauncher {
    options: LaunchOptions,
}

impl BrowserLauncher {
    /// The switches of the launch.
    pub closed spec fn spec_args(&self) -> Seq<(Seq<char>, Option<Seq<char>>)> {
        args_view(self.options.args@)
    }

    /// The browser to run, when one was given.
    pub closed spec fn spec_executable(&self) -> Option<PathBuf> {
        self.options.executable
    }

    /// How long to wait for the browser, when it was given.
    pub closed spec fn spec_timeout(&self) -> Option<Duration> {
        self.options.launch_timeout
    }

    /// A launcher with the default switches, no browser chosen and no
    /// wait given.
    pub fn new() -> (r: BrowserLauncher)
        ensures
            r.spec_args() == default_args(),
            r.spec_executable() is None,
            r.spec_timeout() is None,
    {
        BrowserLauncher { options: LaunchOptions { executable: None, args: default_launch_args(), launch_timeout: None } }
    }

    /// Run this browser.
    pub fn executable(self, path: PathBuf) -> (r: BrowserLauncher)
        ensures
            r.spec_args() == self.spec_args(),
            r.spec_executable() == Some(path),
            r.spec_timeout() == self.spec_timeout(),
    {
        let BrowserLauncher { options } = self;
        BrowserLauncher { options: LaunchOptions { executable: Some(path), ..options } }
    }

    /// Add a switch, written `name` or `name=value`.
    pub fn arg(self, arg: &str) -> (r: BrowserLauncher)
        ensures
            r.spec_args() == self.spec_args().push(split_arg(arg@)),
            r.spec_executable() == self.spec_executable(),
            r.spec_timeout() == self.spec_timeout(),
    {
        let BrowserLauncher { options } = self;
        let mut args = options.args;
        let ghost before = args@;
        let a = split_switch(arg);
        args.push(a);
        proof {
            assert(args_view(args@) =~= args_view(before).push(split_arg(arg@)));
        }
        BrowserLauncher { options: LaunchOptions { args, ..options } }
    }

    /// Run with a window (every `--headless` switch goes), headless, or in
    /// the new headless mode.
    pub fn headless(self, mode: HeadlessMode) -> (r: BrowserLauncher)
        ensures
            r.spec_args() == match mode {
                HeadlessMode::False => self.spec_args().filter(
                    |a: (Seq<char>, Option<Seq<char>>)| a.0 != "--headless"@,
                ),
                HeadlessMode::True => self.spec_args().push(flag("--headless"@)),
                HeadlessMode::New => self.spec_args().push(valued("--headless"@, "new"@)),
            },
            r.spec_executable() == self.spec_executable(),
            r.spec_timeout() == self.spec_timeout(),
    {
        let BrowserLauncher { options } = self;
        let mut args = options.args;
        match mode {
            HeadlessMode::False => {
                args = without_switch(&args, "--headless");
            },
            HeadlessMode::True => {
                push_flag(&mut args, "--headless");
            },
            HeadlessMode::New => {
                push_valued(&mut args, "--headless", "new");
            },
        }
        BrowserLauncher { options: LaunchOptions { args, ..options } }
    }

    /// Keep the profile in this directory.
    pub fn user_data_dir(self, path: &str) -> (r: BrowserLauncher)
        ensures
            r.spec_args() == self.spec_args().push(valued("--user-data-dir"@, path@)),
            r.spec_executable() == self.spec_executable(),
            r.spec_timeout() == self.spec_timeout(),
    {
        let BrowserLauncher { options } = self;
        let mut args = options.args;
        push_valued(&mut args, "--user-data-dir", path);
        BrowserLauncher { options: LaunchOptions { args, ..options } }
    }

    /// Wait this long for the browser.
    pub fn launch_timeout(self, timeout: Duration) -> (r: BrowserLauncher)
        ensures
            r.spec_args() == self.spec_args(),
            r.spec_executable() == self.spec_executable(),
            r.spec_timeout() == Some(timeout),
    {
        let BrowserLauncher { options } = self;
        BrowserLauncher { options: LaunchOptions { launch_timeout: Some(timeout), ..options } }
    }

    /// Run without the sandbox.
    pub fn no_sandbox(self) -> (r: BrowserLauncher)
        ensures
            r.spec_args() == self.spec_args().push(flag("--no-sandbox"@)).push(
                flag("--disable-setuid-sandbox"@),
            ),
            r.spec_executable() == self.spec_executable(),
            r.spec_timeout() == self.spec_timeout(),
    {
        let BrowserLauncher { options } = self;
        let mut args = options.args;
        push_flag(&mut args, "--no-sandbox");
        push_flag(&mut args, "--disable-setuid-sandbox");
        BrowserLauncher { options: LaunchOptions { args, ..options } }
    }

    /// The options of the launch.
    pub fn into_options(self) -> (r: LaunchOptions)
        ensures
            args_view(r.args@) == self.spec_args(),
            r.executable == self.spec_executable(),
            r.launch_timeout == self.spec_timeout(),
    {
        self.options
    }
}

/// The seconds a launch waits for the browser when no timeout is given.
pub const DEFAULT_LAUNCH_TIMEOUT_SECS: u64 = 30;

/// `Duration::from_secs(secs)`.
pub uninterp spec fn secs_duration(secs: u64) -> Duration;

/// `Duration::from_secs`: the duration of that many whole seconds; it
/// depends on the number alone and never fails.
#[verifier::external_body]
fn duration_from_secs(secs: u64) -> (r: Duration)
    ensures
        r == secs_duration(secs),
{
    Duration::from_secs(secs)
}

/// How long a launch waits for the browser: the timeout given, else the
/// default of thirty seconds.
pub fn effective_launch_timeout(timeout: Option<Duration>) -> (r: Duration)
    ensures
        r == match timeout {
            Some(t) => t,
            None => secs_duration(DEFAULT_LAUNCH_TIMEOUT_SECS),
        },
{
    match timeout {
        Some(t) => t,
        None => duration_from_secs(DEFAULT_LAUNCH_TIMEOUT_SECS),
    }
}

/// The switches other than those named `name`, in order.
fn without_switch(v: &Vec<(String, Option<String>)>, name: &str) -> (r: Vec<(String, Option<String>)>)
    ensures
        args_view(r@) == args_view(v@).filter(|a: (Seq<char>, Option<Seq<char>>)| a.0 != name@),
{
    let ghost keep = |a: (Seq<char>, Option<Seq<char>>)| a.0 != name@;
    let mut r: Vec<(String, Option<String>)> = Vec::new();
    let mut i: usize = 0;
    proof {
        assert(args_view(v@.take(0)) =~= Seq::<(Seq<char>, Option<Seq<char>>)>::empty());
        assert(args_view(r@) =~= Seq::<(Seq<char>, Option<Seq<char>>)>::empty());
        assert(Seq::<(Seq<char>, Option<Seq<char>>)>::empty().filter(keep) =~= Seq::<(Seq<char>, Option<Seq<char>>)>::empty());
    }
    while i < v.len()
        invariant
            i <= v.len(),
            keep == (|a: (Seq<char>, Option<Seq<char>>)| a.0 != name@),
            args_view(r@) == args_view(v@.take(i as int)).filter(keep),
        decreases v.len() - i,
    {
        let ghost before = r@;
        let ghost pre = args_view(v@.take(i as int));
        let ghost x = (v@[i as int].0@, crate::frame::opt_str(v@[i as int].1));
        proof {
            assert(args_view(v@.take(i + 1)) =~= pre.push(x));
            pre.lemma_filter_push(x, keep);
        }
        if !str_eq(v[i].0.as_str(), name) {
            let val = crate::frame::clone_opt_string(&v[i].1);
            r.push((v[i].0.clone(), val));
            proof {
                assert(args_view(r@) =~= args_view(before).push(x));
            }
        }
        i = i + 1;
    }
    proof {
        assert(v@.take(i as int) =~= v@);
    }
    r
}

/// Whether a switch names the profile directory.
pub open spec fn names_user_data_dir(args: Seq<(Seq<char>, Option<Seq<char>>)>) -> bool {
    exists|i: int| 0 <= i < args.len() && #[trigger] args[i].0 == "--user-data-dir"@
}

/// Give the launch a profile directory when none of its switches names one:
/// `temp_dir` is added, and the result says so.
pub fn ensure_user_data_dir(args: &mut Vec<(String, Option<String>)>, temp_dir: &str) -> (added: bool)
    ensures
        added == !names_user_data_dir(args_view(old(args)@)),
        added ==> args_view(final(args)@) == args_view(old(args)@).push(valued("--user-data-dir"@, temp_dir@)),
        !added ==> final(args)@ == old(args)@,
{
    let mut i: usize = 0;
    while i < args.len()
        invariant
            i <= args.len(),
            forall|j: int| 0 <= j < i ==> #[trigger] args_view(args@)[j].0 != "--user-data-dir"@,
        decreases args.len() - i,
    {
        if str_eq(args[i].0.as_str(), "--user-data-dir") {
            proof {
                assert(args_view(args@)[i as int].0 == "--user-data-dir"@);
            }
            return false;
        }
        i = i + 1;
    }
    push_valued(args, "--user-data-dir", temp_dir);
    true
}

/// A switch as one command-line argument: `name=value`, or the name alone.
pub open spec fn flat_arg(a: (Seq<char>, Option<Seq<char>>)) -> Seq<char> {
    match a.1 {
        Some(v) => a.0 + "="@ + v,
        None => a.0,
    }
}

/// The command-line arguments of the switches, in order.
pub fn flatten_args(args: &Vec<(String, Option<String>)>) -> (r: Vec<String>)
    ensures
        r@.map_values(|s: String| s@) == args_view(args@).map_values(|a: (Seq<char>, Option<Seq<char>>)| flat_arg(a)),
{
    let mut r: Vec<String> = Vec::new();
    let mut i: usize = 0;
    while i < args.len()
        invariant
            i <= args.len(),
            r@.len() == i,
            forall|j: int| 0 <= j < i ==> #[trigger] r@[j]@ == flat_arg(args_view(args@)[j]),
        decreases args.len() - i,
    {
        let s = match &args[i].1 {
            Some(v) => args[i].0.clone().concat("=").concat(v.as_str()),
            None => args[i].0.clone(),
        };
        proof {
            reveal_strlit("=");
        }
        r.push(s);
        i = i + 1;
    }
    proof {
        assert(r@.map_values(|s: String| s@) =~= args_view(args@).map_values(
            |a: (Seq<char>, Option<Seq<char>>)| flat_arg(a),
        ));
    }
    r
}

/// The position of the first occurrence of `pat` in `s`.
pub open spec fn find_text(s: Seq<char>, pat: Seq<char>) -> Option<int> {
    if exists|i: int| 0 <= i && i + pat.len() <= s.len() && #[trigger] s.subrange(i, i + pat.len()) == pat {
        Some(
            choose|i: int|
                0 <= i && i + pat.len() <= s.len() && #[trigger] s.subrange(i, i + pat.len()) == pat
                    && forall|j: int| 0 <= j < i ==> #[trigger] s.subrange(j, j + pat.len()) != pat,
        )
    } else {
        None
    }
}

/// The browser's address on a line it printed: after the first "listening
/// on ", trimmed, when that starts with "ws://".
pub open spec fn ws_url_of(line: Seq<char>) -> Option<Seq<char>> {
    match find_text(line, "listening on "@) {
        Some(p) => {
            let ws = trimmed(line.skip(p + 13));
            if is_prefix("ws://"@, ws) {
                Some(ws)
            } else {
                None
            }
        },
        None => None,
    }
}

/// The browser's address on a line it printed, if the line gives it.
pub fn ws_url_from_line(line: &str) -> (r: Option<String>)
    ensures
        crate::frame::opt_str(r) == ws_url_of(line@),
{
    let pat = "listening on ";
    proof {
        reveal_strlit("listening on ");
    }
    let n = line.unicode_len();
    let m: usize = 13;
    if n < m {
        return None;
    }
    let mut i: usize = 0;
    while i <= n - m
        invariant
            n == line@.len(),
            pat@ == "listening on "@,
            m == pat@.len(),
            m == 13,
            m <= n,
            i <= n - m + 1,
            forall|j: int| 0 <= j < i ==> #[trigger] line@.subrange(j, j + 13) != pat@,
        decreases n + 1 - i,
    {
        let window = line.substring_char(i, i + m);
        if str_eq(window, pat) {
            proof {
                assert(line@.subrange(i as int, i + 13) == pat@);
                let w = choose|w: int|
                    0 <= w && w + 13 <= line@.len() && #[trigger] line@.subrange(w, w + 13) == pat@
                        && forall|j: int| 0 <= j < w ==> #[trigger] line@.subrange(j, j + 13) != pat@;
                if w < i {
                    assert(line@.subrange(w, w + 13) != pat@);
                }
                if i < w {
                    assert(line@.subrange(i as int, i + 13) != pat@);
                }
                assert(w == i);
                assert(find_text(line@, pat@) == Some(i as int));
            }
            let rest = line.substring_char(i + m, n);
            let ws = trim(rest);
            proof {
                assert(rest@ =~= line@.skip(i + 13));
            }
            proof {
                assert(pat@ == "listening on "@);
                assert(find_text(line@, "listening on "@) == Some(i as int));
                assert(ws@ == trimmed(line@.skip(i + 13)));
            }
            if starts_with(ws.as_str(), "ws://") {
                assert(ws_url_of(line@) == Some(ws@));
                return Some(ws);
            } else {
                return None;
            }
        }
        i = i + 1;
    }
    proof {
        if exists|k: int| 0 <= k && k + 13 <= line@.len() && #[trigger] line@.subrange(k, k + 13) == pat@ {
            let k = choose|k: int| 0 <= k && k + 13 <= line@.len() && #[trigger] line@.subrange(k, k + 13) == pat@;
            assert(line@.subrange(k, k + 13) != pat@);
        }
    }
    None
}

} // verus!
