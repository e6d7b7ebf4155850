//! A plugin that hides the signs of automation: it switches off the
//! browser's "automation controlled" feature at launch and adds scripts
//! that make a page look like an ordinary one.
use vstd::prelude::*;

use crate::browser::{args_view, flat_arg, LaunchOptions};
use crate::text::{contains_text, has_text, is_prefix, starts_with};

verus! {

/// One of the disguises a page can get, each by a script of its own.
#[derive(Debug, Clone, Copy, PartialEq, Eq, Hash, Structural)]
pub enum StealthEvasion {
    /// Remove `navigator.webdriver`.
    NavigatorWebdriver,
    /// Mock `window.chrome` with `app`, `csi()`, `loadTimes()`, `runtime`.
    ChromeApp,
    /// Return realistic `navigator.languages`.
    NavigatorLanguages,
    /// Return realistic `navigator.hardwareConcurrency`.
    NavigatorHardwareConcurrency,
    /// Return `"Google Inc."` for `navigator.vendor`.
    NavigatorVendor,
    /// Fake `navigator.plugins` / `navigator.mimeTypes` with PDF viewers.
    NavigatorPlugins,
    /// Override `Permissions.query()` for notifications.
    NavigatorPermissions,
    /// Fake the WebGL vendor and renderer to hide SwiftShader.
    WebglVendor,
    /// Fake `canPlayType` / `isTypeSupported` for common codecs.
    MediaCodecs,
    /// Proxy `iframe.contentWindow` so inner checks pass.
    IframeContentWindow,
    /// Fix `outerWidth`/`outerHeight` being 0 in headless.
    WindowOuterDimensions,
    /// Strip `__puppeteer_evaluation_script__` from error stacks.
    SourceUrl,
}

/// Every evasion, in the order their scripts are listed.
pub open spec fn all_evasions() -> Seq<StealthEvasion> {
    seq![
        StealthEvasion::NavigatorWebdriver,
        StealthEvasion::ChromeApp,
        StealthEvasion::NavigatorLanguages,
        StealthEvasion::NavigatorHardwareConcurrency,
        StealthEvasion::NavigatorVendor,
        StealthEvasion::NavigatorPlugins,
        StealthEvasion::NavigatorPermissions,
        StealthEvasion::WebglVendor,
        StealthEvasion::MediaCodecs,
        StealthEvasion::IframeContentWindow,
        StealthEvasion::WindowOuterDimensions,
        StealthEvasion::SourceUrl
    ]
}

/// The position of an evasion in [`all_evasions`].
pub open spec fn evasion_position(e: StealthEvasion) -> int {
    match e {
        StealthEvasion::NavigatorWebdriver => 0,
        StealthEvasion::ChromeApp => 1,
        StealthEvasion::NavigatorLanguages => 2,
        StealthEvasion::NavigatorHardwareConcurrency => 3,
        StealthEvasion::NavigatorVendor => 4,
        StealthEvasion::NavigatorPlugins => 5,
        StealthEvasion::NavigatorPermissions => 6,
        StealthEvasion::WebglVendor => 7,
        StealthEvasion::MediaCodecs => 8,
        StealthEvasion::IframeContentWindow => 9,
        StealthEvasion::WindowOuterDimensions => 10,
        StealthEvasion::SourceUrl => 11,
    }
}

/// The name of the file that holds an evasion's script.
pub open spec fn evasion_file(e: StealthEvasion) -> Seq<char> {
    match e {
        StealthEvasion::NavigatorWebdriver => "navigator_webdriver.js"@,
        StealthEvasion::ChromeApp => "chrome_app.js"@,
        StealthEvasion::NavigatorLanguages => "navigator_languages.js"@,
        StealthEvasion::NavigatorHardwareConcurrency => "navigator_hardware_concurrency.js"@,
        StealthEvasion::NavigatorVendor => "navigator_vendor.js"@,
        StealthEvasion::NavigatorPlugins => "navigator_plugins.js"@,
        StealthEvasion::NavigatorPermissions => "navigator_permissions.js"@,
        StealthEvasion::WebglVendor => "webgl_vendor.js"@,
        StealthEvasion::MediaCodecs => "media_codecs.js"@,
        StealthEvasion::IframeContentWindow => "iframe_content_window.js"@,
        StealthEvasion::WindowOuterDimensions => "window_outerdimensions.js"@,
        StealthEvasion::SourceUrl => "sourceurl.js"@,
    }
}

/// The file that holds the script every evasion script relies on.
pub const UTILS_FILE: &'static str = "utils.js";

impl StealthEvasion {
    /// Every evasion, in the order their scripts are listed.
    pub fn all() -> (r: Vec<StealthEvasion>)
        ensures
            r@ == all_evasions(),
    {
        let mut v: Vec<StealthEvasion> = Vec::new();
        v.push(StealthEvasion::NavigatorWebdriver);
        v.push(StealthEvasion::ChromeApp);
        v.push(StealthEvasion::NavigatorLanguages);
        v.push(StealthEvasion::NavigatorHardwareConcurrency);
        v.push(StealthEvasion::NavigatorVendor);
        v.push(StealthEvasion::NavigatorPlugins);
        v.push(StealthEvasion::NavigatorPermissions);
        v.push(StealthEvasion::WebglVendor);
        v.push(StealthEvasion::MediaCodecs);
        v.push(StealthEvasion::IframeContentWindow);
        v.push(StealthEvasion::WindowOuterDimensions);
        v.push(StealthEvasion::SourceUrl);
        proof {
            assert(v@ =~= all_evasions());
        }
        v
    }

    /// The position of the evasion among all of them.
    pub fn position(self) -> (r: usize)
        ensures
            r == evasion_position(self),
            0 <= r < 12,
    {
        match self {
            StealthEvasion::NavigatorWebdriver => 0,
            StealthEvasion::ChromeApp => 1,
            StealthEvasion::NavigatorLanguages => 2,
            StealthEvasion::NavigatorHardwareConcurrency => 3,
            StealthEvasion::NavigatorVendor => 4,
            StealthEvasion::NavigatorPlugins => 5,
            StealthEvasion::NavigatorPermissions => 6,
            StealthEvasion::WebglVendor => 7,
            StealthEvasion::MediaCodecs => 8,
            StealthEvasion::IframeContentWindow => 9,
            StealthEvasion::WindowOuterDimensions => 10,
            StealthEvasion::SourceUrl => 11,
        }
    }

    /// The name of the file that holds the evasion's script.
    pub fn script_file(self) -> (r: &'static str)
        ensures
            r@ == evasion_file(self),
    {
        match self {
            StealthEvasion::NavigatorWebdriver => "navigator_webdriver.js",
            StealthEvasion::ChromeApp => "chrome_app.js",
            StealthEvasion::NavigatorLanguages => "navigator_languages.js",
            StealthEvasion::NavigatorHardwareConcurrency => "navigator_hardware_concurrency.js",
            StealthEvasion::NavigatorVendor => "navigator_vendor.js",
            StealthEvasion::NavigatorPlugins => "navigator_plugins.js",
            StealthEvasion::NavigatorPermissions => "navigator_permissions.js",
            StealthEvasion::WebglVendor => "webgl_vendor.js",
            StealthEvasion::MediaCodecs => "media_codecs.js",
            StealthEvasion::IframeContentWindow => "iframe_content_window.js",
            StealthEvasion::WindowOuterDimensions => "window_outerdimensions.js",
            StealthEvasion::SourceUrl => "sourceurl.js",
        }
    }
}

/// The scripts of the evasions: the shared utilities, and one script for
/// each evasion, in the order of [`all_evasions`].
#[derive(Debug)]
pub struct EvasionScripts {
    utils: String,
    scripts: Vec<String>,
}

impl EvasionScripts {
    /// The shared utilities.
    pub closed spec fn spec_utils(&self) -> Seq<char> {
        self.utils@
    }

    /// The script of an evasion.
    pub closed spec fn spec_script(&self, e: StealthEvasion) -> Seq<char> {
        self.scripts@[evasion_position(e)]@
    }

    /// One script for each evasion.
    #[verifier::type_invariant]
    spec fn one_per_evasion(&self) -> bool {
        self.scripts@.len() == 12
    }

    /// The scripts, when there is one for each evasion (`None` otherwise).
    pub fn new(utils: String, scripts: Vec<String>) -> (r: Option<EvasionScripts>)
        ensures
            match r {
                Some(s) => scripts@.len() == 12 && s.spec_utils() == utils@ && forall|e: StealthEvasion|
                    #[trigger] s.spec_script(e) == scripts@[evasion_position(e)]@,
                None => scripts@.len() != 12,
            },
    {
        if scripts.len() == 12 {
            Some(EvasionScripts { utils, scripts })
        } else {
            None
        }
    }

    /// The shared utilities.
    pub fn utils(&self) -> (r: &String)
        ensures
            r@ == self.spec_utils(),
    {
        &self.utils
    }

    /// The script of an evasion.
    pub fn script(&self, e: StealthEvasion) -> (r: &String)
        ensures
            r@ == self.spec_script(e),
    {
        proof {
            use_type_invariant(self);
        }
        &self.scripts[e.position()]
    }
}

/// The stealth plugin: a user agent to claim, whether to switch off the
/// "automation controlled" feature, and the evasions it applies.
#[derive(Debug)]
pub struct StealthPlugin {
    user_agent: Option<String>,
    add_automation_controlled_flag: bool,
    enabled_evasions: Vec<StealthEvasion>,
}

/// The switch that turns blink features off, up to its value.
pub open spec fn blink_prefix() -> Seq<char> {
    "--disable-blink-features="@
}

/// The position of the first argument, from `k` on, that turns blink
/// features off.
pub open spec fn first_blink_from(args: Seq<Seq<char>>, k: int) -> Option<int>
    decreases args.len() - k,
{
    if k < 0 || k >= args.len() {
        None
    } else if is_prefix(blink_prefix(), args[k]) {
        Some(k)
    } else {
        first_blink_from(args, k + 1)
    }
}

/// The position of the first argument that turns blink features off.
pub open spec fn first_blink(args: Seq<Seq<char>>) -> Option<int> {
    first_blink_from(args, 0)
}

/// The command line with the "automation controlled" feature turned off:
/// added to the first switch that turns features off, unless it names it
/// already; else a switch of its own at the end.
pub open spec fn with_automation_flag(args: Seq<Seq<char>>) -> Seq<Seq<char>> {
    match first_blink(args) {
        Some(i) => if has_text(args[i], "AutomationControlled"@) {
            args
        } else {
            args.update(i, args[i] + ",AutomationControlled"@)
        },
        None => args.push("--disable-blink-features=AutomationControlled"@),
    }
}

/// The command-line arguments of a launch's switches.
pub open spec fn flat_args(v: Seq<(String, Option<String>)>) -> Seq<Seq<char>> {
    args_view(v).map_values(|a: (Seq<char>, Option<Seq<char>>)| flat_arg(a))
}

impl StealthPlugin {
    pub closed spec fn spec_user_agent(&self) -> Option<Seq<char>> {
        crate::frame::opt_str(self.user_agent)
    }

    pub closed spec fn spec_flag(&self) -> bool {
        self.add_automation_controlled_flag
    }

    /// The evasions applied, in the order their scripts are added.
    pub closed spec fn spec_evasions(&self) -> Seq<StealthEvasion> {
        self.enabled_evasions@
    }

    /// No evasion is applied twice.
    #[verifier::type_invariant]
    spec fn evasions_once(&self) -> bool {
        self.enabled_evasions@.no_duplicates()
    }

    /// Every evasion, the automation flag, and no user agent.
    pub fn new() -> (r: StealthPlugin)
        ensures
            r.spec_user_agent() is None,
            r.spec_flag(),
            r.spec_evasions() == all_evasions(),
            r.spec_evasions().no_duplicates(),
    {
        let v = StealthEvasion::all();
        proof {
            assert forall|i: int, j: int| 0 <= i < 12 && 0 <= j < 12 && i != j implies all_evasions()[i]
                != all_evasions()[j] by {
                assert(evasion_position(all_evasions()[i]) == i);
                assert(evasion_position(all_evasions()[j]) == j);
            }
        }
        StealthPlugin { user_agent: None, add_automation_controlled_flag: true, enabled_evasions: v }
    }

    /// Claim this user agent.
    pub fn with_user_agent(self, user_agent: String) -> (r: StealthPlugin)
        ensures
            r.spec_user_agent() == Some(user_agent@),
            r.spec_flag() == self.spec_flag(),
            r.spec_evasions() == self.spec_evasions(),
            r.spec_evasions().no_duplicates(),
    {
        proof {
            use_type_invariant(&self);
        }
        StealthPlugin { user_agent: Some(user_agent), ..self }
    }

    /// Whether to switch off the "automation controlled" feature at launch.
    pub fn set_automation_controlled_flag(self, enabled: bool) -> (r: StealthPlugin)
        ensures
            r.spec_user_agent() == self.spec_user_agent(),
            r.spec_flag() == enabled,
            r.spec_evasions() == self.spec_evasions(),
            r.spec_evasions().no_duplicates(),
    {
        proof {
            use_type_invariant(&self);
        }
        StealthPlugin { add_automation_controlled_flag: enabled, ..self }
    }

    /// Apply this evasion too (it is added last, unless it is applied already).
    pub fn enable_evasion(self, evasion: StealthEvasion) -> (r: StealthPlugin)
        ensures
            r.spec_user_agent() == self.spec_user_agent(),
            r.spec_flag() == self.spec_flag(),
            r.spec_evasions() == if self.spec_evasions().contains(evasion) {
                self.spec_evasions()
            } else {
                self.spec_evasions().push(evasion)
            },
            r.spec_evasions().no_duplicates(),
    {
        proof {
            use_type_invariant(&self);
        }
        let mut i: usize = 0;
        while i < self.enabled_evasions.len()
            invariant
                i <= self.enabled_evasions.len(),
                forall|j: int| 0 <= j < i ==> self.enabled_evasions@[j] != evasion,
                self.enabled_evasions@.no_duplicates(),
            decreases self.enabled_evasions.len() - i,
        {
            if self.enabled_evasions[i] == evasion {
                proof {
                    assert(self.enabled_evasions@.contains(evasion));
                }
                return self;
            }
            i = i + 1;
        }
        let StealthPlugin { user_agent, add_automation_controlled_flag, mut enabled_evasions } = self;
        let ghost before = enabled_evasions@;
        enabled_evasions.push(evasion);
        proof {
            assert forall|a: int, b: int|
                0 <= a < enabled_evasions@.len() && 0 <= b < enabled_evasions@.len() && a != b implies enabled_evasions@[a]
                != enabled_evasions@[b] by {
                if a < before.len() && b < before.len() {
                    assert(before[a] != before[b]);
                }
            }
        }
        StealthPlugin { user_agent, add_automation_controlled_flag, enabled_evasions }
    }

    /// Stop applying this evasion; the others keep their order.
    pub fn disable_evasion(self, evasion: StealthEvasion) -> (r: StealthPlugin)
        ensures
            r.spec_user_agent() == self.spec_user_agent(),
            r.spec_flag() == self.spec_flag(),
            r.spec_evasions() == self.spec_evasions().filter(|e: StealthEvasion| e != evasion),
            r.spec_evasions().no_duplicates(),
    {
        proof {
            use_type_invariant(&self);
        }
        let StealthPlugin { user_agent, add_automation_controlled_flag, enabled_evasions } = self;
        let ghost keep = |e: StealthEvasion| e != evasion;
        let mut kept: Vec<StealthEvasion> = Vec::new();
        let mut i: usize = 0;
        proof {
            assert(enabled_evasions@.take(0) =~= Seq::<StealthEvasion>::empty());
            assert(Seq::<StealthEvasion>::empty().filter(keep) =~= Seq::<StealthEvasion>::empty());
        }
        while i < enabled_evasions.len()
            invariant
                i <= enabled_evasions.len(),
                keep == (|e: StealthEvasion| e != evasion),
                kept@ == enabled_evasions@.take(i as int).filter(keep),
                kept@.no_duplicates(),
                enabled_evasions@.no_duplicates(),
            decreases enabled_evasions.len() - i,
        {
            proof {
                assert(enabled_evasions@.take(i + 1) =~= enabled_evasions@.take(i as int).push(enabled_evasions@[i as int]));
                enabled_evasions@.take(i as int).lemma_filter_push(enabled_evasions@[i as int], keep);
            }
            if enabled_evasions[i] != evasion {
                proof {
                    let x = enabled_evasions@[i as int];
                    if kept@.contains(x) {
                        enabled_evasions@.take(i as int).lemma_filter_contains_rev(keep, x);
                        let j = choose|j: int| 0 <= j < i && enabled_evasions@.take(i as int)[j] == x;
                        assert(enabled_evasions@[j] == x);
                    }
                    let old_kept = kept@;
                    assert forall|a: int, b: int|
                        0 <= a < old_kept.len() + 1 && 0 <= b < old_kept.len() + 1 && a != b implies #[trigger] old_kept.push(x)[a]
                        != #[trigger] old_kept.push(x)[b] by {
                        if a < old_kept.len() && b < old_kept.len() {
                            assert(old_kept[a] != old_kept[b]);
                        } else if a < old_kept.len() {
                            assert(old_kept.contains(old_kept[a]));
                        } else {
                            assert(old_kept.contains(old_kept[b]));
                        }
                    }
                }
                kept.push(enabled_evasions[i]);
            }
            i = i + 1;
        }
        proof {
            assert(enabled_evasions@.take(i as int) =~= enabled_evasions@);
        }
        StealthPlugin { user_agent, add_automation_controlled_flag, enabled_evasions: kept }
    }

    /// The user agent to claim, if any.
    pub fn user_agent(&self) -> (r: Option<&String>)
        ensures
            match r {
                Some(u) => self.spec_user_agent() == Some(u@),
                None => self.spec_user_agent() is None,
            },
    {
        match &self.user_agent {
            Some(u) => Some(u),
            None => None,
        }
    }

    /// The plugin's name.
    pub fn name(&self) -> (r: &'static str)
        ensures
            r@ == "stealth"@,
    {
        "stealth"
    }

    /// The scripts to add to a new page: the shared utilities first, then
    /// the script of each evasion applied, in order.
    pub fn page_scripts(&self, scripts: &EvasionScripts) -> (r: Vec<String>)
        ensures
            r@.map_values(|s: String| s@) == seq![scripts.spec_utils()] + self.spec_evasions().map_values(
                |e: StealthEvasion| scripts.spec_script(e),
            ),
    {
        let mut r: Vec<String> = Vec::new();
        r.push(scripts.utils().clone());
        let mut i: usize = 0;
        while i < self.enabled_evasions.len()
            invariant
                i <= self.enabled_evasions.len(),
                r@.len() == i + 1,
                r@[0]@ == scripts.spec_utils(),
                forall|j: int| 0 <= j < i ==> #[trigger] r@[j + 1]@ == scripts.spec_script(self.enabled_evasions@[j]),
            decreases self.enabled_evasions.len() - i,
        {
            r.push(scripts.script(self.enabled_evasions[i]).clone());
            i = i + 1;
        }
        proof {
            let lhs = r@.map_values(|s: String| s@);
            let rhs = seq![scripts.spec_utils()] + self.spec_evasions().map_values(
                |e: StealthEvasion| scripts.spec_script(e),
            );
            assert forall|k: int| 0 <= k < lhs.len() implies lhs[k] == rhs[k] by {
                if k > 0 {
                    assert(r@[(k - 1) + 1]@ == scripts.spec_script(self.enabled_evasions@[k - 1]));
                }
            }
            assert(lhs =~= rhs);
        }
        r
    }

    /// Before a launch: switch off the "automation controlled" feature on
    /// the command line, when the plugin is set to.
    pub fn before_launch(&self, options: &mut LaunchOptions)
        ensures
            final(options).executable == old(options).executable,
            final(options).launch_timeout == old(options).launch_timeout,
            !self.spec_flag() ==> final(options).args@ == old(options).args@,
            self.spec_flag() ==> flat_args(final(options).args@) == with_automation_flag(
                flat_args(old(options).args@),
            ),
    {
        if !self.add_automation_controlled_flag {
            return;
        }
        add_automation_flag(&mut options.args);
    }
}

/// A switch as one command-line argument.
fn flat_one(a: &(String, Option<String>)) -> (r: String)
    ensures
        r@ == flat_arg((a.0@, crate::frame::opt_str(a.1))),
{
    proof {
        reveal_strlit("=");
    }
    match &a.1 {
        Some(v) => a.0.clone().concat("=").concat(v.as_str()),
        None => a.0.clone(),
    }
}

/// Switch off the "automation controlled" feature on a command line.
fn add_automation_flag(args: &mut Vec<(String, Option<String>)>)
    ensures
        flat_args(final(args)@) == with_automation_flag(flat_args(old(args)@)),
{
    let ghost f0 = flat_args(args@);
    proof {
        reveal_strlit("--disable-blink-features=");
        reveal_strlit(",AutomationControlled");
        reveal_strlit("--disable-blink-features=AutomationControlled");
        reveal_strlit("AutomationControlled");
        reveal_strlit("=");
    }
    let mut i: usize = 0;
    while i < args.len()
        invariant
            i <= args.len(),
            f0 == flat_args(args@),
            f0 == flat_args(old(args)@),
            f0.len() == args@.len(),
            first_blink(f0) == first_blink_from(f0, i as int),
        decreases args.len() - i,
    {
        let f = flat_one(&args[i]);
        proof {
            assert(f@ == f0[i as int]);
        }
        if starts_with(f.as_str(), "--disable-blink-features=") {
            let named = contains_text(f.as_str(), "AutomationControlled");
            proof {
                assert(named == has_text(f0[i as int], "AutomationControlled"@));
            }
            if !named {
                let ghost before = args@;
                let (k, v) = args.remove(i);
                let changed = match v {
                    Some(val) => {
                        let nv = val.concat(",AutomationControlled");
                        proof {
                            assert(k@ + "="@ + nv@ =~= (k@ + "="@ + val@) + ",AutomationControlled"@);
                        }
                        (k, Some(nv))
                    },
                    None => (k.concat(",AutomationControlled"), None),
                };
                args.insert(i, changed);
                proof {
                    assert(args@ =~= before.update(i as int, changed));
                    assert(flat_arg((changed.0@, crate::frame::opt_str(changed.1))) == f0[i as int] + ",AutomationControlled"@);
                    assert(flat_args(args@) =~= f0.update(i as int, f0[i as int] + ",AutomationControlled"@));
                }
            }
            assert(flat_args(args@) == with_automation_flag(f0));
            return;
        }
        i = i + 1;
    }
    let ghost before = args@;
    args.push(("--disable-blink-features".to_owned(), Some("AutomationControlled".to_owned())));
    proof {
        reveal_strlit("--disable-blink-features");
        assert("--disable-blink-features"@ + "="@ + "AutomationControlled"@ =~= "--disable-blink-features=AutomationControlled"@);
        assert(flat_args(args@) =~= f0.push("--disable-blink-features=AutomationControlled"@));
    }
}

} // verus!
