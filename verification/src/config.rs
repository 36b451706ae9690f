//! The guard's configuration: the kill priority list, thresholds and timing,
//! the defaults a new install starts from, and the repairs applied to a
//! loaded configuration.

use vstd::prelude::*;
use vstd::string::*;
use crate::text::{spec_lowercase, spec_trim, to_lowercase, trim};

verus! {

/// Largest threshold the settings UI allows; also the upper bound used to
/// detect and recover a configuration poisoned with a sentinel value.
pub const MAX_THRESHOLD_MB: u64 = 65536;

/// Smallest threshold the settings UI allows.
pub const MIN_THRESHOLD_MB: u64 = 64;

/// Range of the countdown the settings UI allows, in seconds.
pub const MIN_COUNTDOWN_SECS: u64 = 5;
pub const MAX_COUNTDOWN_SECS: u64 = 300;

/// Range of the poll interval the settings UI allows, in seconds.
pub const MIN_CHECK_INTERVAL_SECS: u64 = 1;
pub const MAX_CHECK_INTERVAL_SECS: u64 = 60;

/// Range of the snooze duration the settings UI allows, in seconds.
pub const MIN_SNOOZE_SECS: u64 = 30;
pub const MAX_SNOOZE_SECS: u64 = 3600;

/// Threshold used for new installs and when recovering an out-of-range value.
pub const DEFAULT_THRESHOLD_MB: u64 = 500;

/// The bit pattern of the default memory-pressure threshold, 25.0 (percent),
/// as an IEEE 754 double. The library only stores the threshold; comparing a
/// pressure reading against it is floating-point work that the caller does.
pub const DEFAULT_PRESSURE_THRESHOLD_BITS: u64 = 0x4039_0000_0000_0000;

/// Default playback volume of the notification sounds, in percent.
pub const DEFAULT_SOUND_VOLUME_PCT: u8 = 100;

/// An application on the kill priority list.
#[derive(Debug, Clone, Hash)]
pub struct KillableApp {
    /// Process name to match (substring match, case-insensitive).
    pub name: String,
    /// Human-friendly display name shown in notifications.
    pub display_name: Option<String>,
    /// Whether this app participates in the priority list.
    pub enabled: bool,
}

/// The characters of an optional string.
pub open spec fn opt_chars(s: Option<String>) -> Option<Seq<char>> {
    match s {
        Some(t) => Some(t@),
        None => None,
    }
}

/// The name an application is shown under: its display name when it has
/// one, its process name otherwise.
pub open spec fn label_of(app: KillableApp) -> Seq<char> {
    match app.display_name {
        Some(d) => d@,
        None => app.name@,
    }
}

/// `a` and `b` name the same application under the same display name.
pub open spec fn same_app(a: KillableApp, b: KillableApp) -> bool {
    &&& a.name@ == b.name@
    &&& opt_chars(a.display_name) == opt_chars(b.display_name)
}

/// The value of a field that a configuration file leaves out and that
/// defaults to on (`enabled`, and the sound and pressure switches).
pub fn default_true() -> (r: bool)
    ensures
        r,
{
    true
}

/// The sound volume a configuration file that names none gets.
pub fn default_sound_volume() -> (r: u8)
    ensures
        r == DEFAULT_SOUND_VOLUME_PCT,
{
    DEFAULT_SOUND_VOLUME_PCT
}

fn copy_opt_string(s: &Option<String>) -> (r: Option<String>)
    ensures
        opt_chars(r) == opt_chars(*s),
{
    match s {
        Some(t) => Some(t.clone()),
        None => None,
    }
}

impl KillableApp {
    /// The name the application is shown under.
    pub fn label(&self) -> (r: &str)
        ensures
            r@ == label_of(*self),
    {
        match &self.display_name {
            Some(d) => d.as_str(),
            None => self.name.as_str(),
        }
    }

    /// A copy of this entry with the same name, display name and switch.
    pub fn duplicate(&self) -> (r: KillableApp)
        ensures
            same_app(r, *self),
            r.enabled == self.enabled,
    {
        KillableApp {
            name: self.name.clone(),
            display_name: copy_opt_string(&self.display_name),
            enabled: self.enabled,
        }
    }

    /// Switches the entry in or out of the priority list.
    pub fn set_enabled(&mut self, enabled: bool)
        ensures
            final(self).enabled == enabled,
            same_app(*final(self), *old(self)),
    {
        self.enabled = enabled;
    }

    /// The entry that the "Add App" form makes from what the user typed: the
    /// process name trimmed and lower-cased, the display name trimmed (none
    /// when it is blank), enabled. `None` when the process name is blank,
    /// which is when the form refuses to add.
    pub fn from_form(name: &str, display: &str) -> (r: Option<KillableApp>)
        ensures
            spec_trim(name@).len() == 0 <==> r is None,
            r matches Some(app) ==> {
                &&& app.name@ == spec_lowercase(spec_trim(name@))
                &&& opt_chars(app.display_name) == (if spec_trim(display@).len() == 0 {
                    None::<Seq<char>>
                } else {
                    Some(spec_trim(display@))
                })
                &&& app.enabled
            },
    {
        let name_t = trim(name);
        if name_t.as_str().is_empty() {
            return None;
        }
        let display_t = trim(display);
        let display_name = if display_t.as_str().is_empty() {
            None
        } else {
            Some(display_t)
        };
        Some(KillableApp { name: to_lowercase(name_t.as_str()), display_name, enabled: true })
    }
}


/// The guard's configuration.
#[derive(Debug, Clone)]
pub struct Config {
    /// Kill when free RAM drops below this value (MB).
    pub threshold_mb: u64,
    /// Grace period in seconds before killing after the warning notification.
    pub countdown_seconds: u64,
    /// How often to poll memory (seconds).
    pub check_interval_seconds: u64,
    /// After the user clicks "Don't Kill", snooze warnings for this many seconds.
    pub snooze_seconds: u64,
    /// Ordered list of apps to kill (first enabled match wins).
    pub killable_apps: Vec<KillableApp>,
    /// Whether memory pressure can trigger a kill too.
    pub use_memory_pressure: bool,
    /// The memory-pressure threshold (percent), as the bit pattern of an
    /// IEEE 754 double.
    pub pressure_threshold_bits: u64,
    /// Play the alert sound with the warning notification.
    pub warning_sound_enabled: bool,
    /// Play the gunshot sound when a target is killed.
    pub kill_sound_enabled: bool,
    /// Playback volume for both sounds, 0–100%.
    pub sound_volume_pct: u8,
    /// Test Mode: forces the kill logic to trigger regardless of free RAM.
    /// Never persisted: a transient override that resets on restart, so it
    /// cannot poison the saved threshold.
    pub test_override: bool,
}

/// `app` is the enabled entry `name`, shown as `display`.
pub open spec fn is_default_app(app: KillableApp, name: Seq<char>, display: Seq<char>) -> bool {
    &&& app.name@ == name
    &&& app.display_name matches Some(d) && d@ == display
    &&& app.enabled
}

/// The configuration of a new install: a threshold of
/// `DEFAULT_THRESHOLD_MB`, a 30 s countdown, a 5 s poll, a 5 min snooze,
/// the seven usual memory-hungry desktop apps in priority order, pressure
/// monitoring at 25 %, both sounds on at full volume, Test Mode off.
pub open spec fn is_default_config(c: Config) -> bool {
    &&& c.threshold_mb == DEFAULT_THRESHOLD_MB
    &&& c.countdown_seconds == 30
    &&& c.check_interval_seconds == 5
    &&& c.snooze_seconds == 300
    &&& c.killable_apps@.len() == 7
    &&& is_default_app(c.killable_apps@[0], "slack"@, "Slack"@)
    &&& is_default_app(c.killable_apps@[1], "discord"@, "Discord"@)
    &&& is_default_app(c.killable_apps@[2], "firefox"@, "Firefox"@)
    &&& is_default_app(c.killable_apps@[3], "chromium"@, "Chromium"@)
    &&& is_default_app(c.killable_apps@[4], "chrome"@, "Chrome"@)
    &&& is_default_app(c.killable_apps@[5], "code"@, "VS Code"@)
    &&& is_default_app(c.killable_apps@[6], "gimp"@, "GIMP"@)
    &&& c.use_memory_pressure
    &&& c.pressure_threshold_bits == DEFAULT_PRESSURE_THRESHOLD_BITS
    &&& c.warning_sound_enabled
    &&& c.kill_sound_enabled
    &&& c.sound_volume_pct == DEFAULT_SOUND_VOLUME_PCT
    &&& !c.test_override
}

fn default_app(name: &str, display: &str) -> (r: KillableApp)
    ensures
        is_default_app(r, name@, display@),
{
    KillableApp {
        name: String::from_str(name),
        display_name: Some(String::from_str(display)),
        enabled: true,
    }
}

impl Default for Config {
    fn default() -> (r: Self)
        ensures
            is_default_config(r),
    {
        let mut apps: Vec<KillableApp> = Vec::new();
        apps.push(default_app("slack", "Slack"));
        apps.push(default_app("discord", "Discord"));
        apps.push(default_app("firefox", "Firefox"));
        apps.push(default_app("chromium", "Chromium"));
        apps.push(default_app("chrome", "Chrome"));
        apps.push(default_app("code", "VS Code"));
        apps.push(default_app("gimp", "GIMP"));
        Config {
            threshold_mb: DEFAULT_THRESHOLD_MB,
            countdown_seconds: 30,
            check_interval_seconds: 5,
            snooze_seconds: 300,
            killable_apps: apps,
            use_memory_pressure: true,
            pressure_threshold_bits: DEFAULT_PRESSURE_THRESHOLD_BITS,
            warning_sound_enabled: true,
            kill_sound_enabled: true,
            sound_volume_pct: DEFAULT_SOUND_VOLUME_PCT,
            test_override: false,
        }
    }
}

/// `c` with its threshold replaced by `t` and every other field kept.
pub open spec fn with_threshold(c: Config, t: u64) -> Config {
    Config { threshold_mb: t, ..c }
}

/// `c` with every entry of its kill list enabled and every other field kept.
pub open spec fn all_enabled(after: Config, before: Config) -> bool {
    &&& after.killable_apps@.len() == before.killable_apps@.len()
    &&& forall|i: int|
        0 <= i < before.killable_apps@.len() ==> {
            &&& same_app(#[trigger] after.killable_apps@[i], before.killable_apps@[i])
            &&& after.killable_apps@[i].enabled
        }
    &&& after.threshold_mb == before.threshold_mb
    &&& after.countdown_seconds == before.countdown_seconds
    &&& after.check_interval_seconds == before.check_interval_seconds
    &&& after.snooze_seconds == before.snooze_seconds
    &&& after.use_memory_pressure == before.use_memory_pressure
    &&& after.pressure_threshold_bits == before.pressure_threshold_bits
    &&& after.warning_sound_enabled == before.warning_sound_enabled
    &&& after.kill_sound_enabled == before.kill_sound_enabled
    &&& after.sound_volume_pct == before.sound_volume_pct
    &&& after.test_override == before.test_override
}

/// `c` repaired: a threshold above `MAX_THRESHOLD_MB` replaced by
/// `DEFAULT_THRESHOLD_MB`, everything else kept.
pub open spec fn sanitized(c: Config) -> Config {
    if c.threshold_mb > MAX_THRESHOLD_MB {
        with_threshold(c, DEFAULT_THRESHOLD_MB)
    } else {
        c
    }
}

/// Whether a configuration is in the range the settings UI permits.
pub open spec fn is_sane(c: Config) -> bool {
    c.threshold_mb <= MAX_THRESHOLD_MB
}

/// Removes entry `index` from a kill list, as the settings' remove button
/// does; the entries after it move up one place.
pub fn remove_app(apps: &mut Vec<KillableApp>, index: usize)
    requires
        index < old(apps)@.len(),
    ensures
        final(apps)@ == old(apps)@.remove(index as int),
{
    let _ = apps.remove(index);
}

/// Moves entry `index` of a kill list one place up (to a higher priority):
/// it swaps places with the entry above it, and nothing else moves.
pub fn move_up(apps: &mut Vec<KillableApp>, index: usize)
    requires
        0 < index < old(apps)@.len(),
    ensures
        final(apps)@ == old(apps)@.update(index - 1, old(apps)@[index as int]).update(
            index as int,
            old(apps)@[index - 1],
        ),
{
    let ghost before = apps@;
    let a = apps.remove(index);
    apps.insert(index - 1, a);
    assert(apps@ =~= before.update(index - 1, before[index as int]).update(index as int, before[index - 1]));
}

/// Moves entry `index` of a kill list one place down (to a lower priority):
/// it swaps places with the entry below it, and nothing else moves.
pub fn move_down(apps: &mut Vec<KillableApp>, index: usize)
    requires
        index + 1 < old(apps)@.len(),
    ensures
        final(apps)@ == old(apps)@.update(index as int, old(apps)@[index + 1]).update(
            index + 1,
            old(apps)@[index as int],
        ),
{
    let ghost before = apps@;
    let _n = apps.len();
    move_up(apps, index + 1);
    assert(apps@ =~= before.update(index as int, before[index + 1]).update(index + 1, before[index as int]));
}

/// An entry of the tray's "Kill Priority" submenu: one application with the
/// actions offered on it.
#[derive(Debug, Clone)]
pub struct PriorityItem {
    /// The application's label.
    pub label: String,
    /// Whether it is enabled.
    pub enabled: bool,
    /// The label of the switch: "Disable" for an enabled entry, "Enable"
    /// otherwise.
    pub toggle_label: &'static str,
    /// Whether "Move Up" is offered (not on the first entry).
    pub can_move_up: bool,
    /// Whether "Move Down" is offered (not on the last entry).
    pub can_move_down: bool,
}

/// The "Kill Priority" submenu for a kill list: its entries in priority
/// order, each with its label, its switch and the moves it allows.
pub fn kill_priority_menu(apps: &Vec<KillableApp>) -> (r: Vec<PriorityItem>)
    ensures
        r@.len() == apps@.len(),
        forall|i: int|
            0 <= i < apps@.len() ==> {
                &&& (#[trigger] r@[i]).label@ == label_of(apps@[i])
                &&& r@[i].enabled == apps@[i].enabled
                &&& r@[i].toggle_label@ == (if apps@[i].enabled { "Disable"@ } else { "Enable"@ })
                &&& r@[i].can_move_up == (i > 0)
                &&& r@[i].can_move_down == (i + 1 < apps@.len())
            },
{
    let n = apps.len();
    let mut r: Vec<PriorityItem> = Vec::new();
    let mut i: usize = 0;
    while i < n
        invariant
            n == apps@.len(),
            i <= n,
            r@.len() == i,
            forall|k: int|
                0 <= k < i ==> {
                    &&& (#[trigger] r@[k]).label@ == label_of(apps@[k])
                    &&& r@[k].enabled == apps@[k].enabled
                    &&& r@[k].toggle_label@ == (if apps@[k].enabled { "Disable"@ } else { "Enable"@ })
                    &&& r@[k].can_move_up == (k > 0)
                    &&& r@[k].can_move_down == (k + 1 < apps@.len())
                },
        decreases n - i,
    {
        let app = &apps[i];
        let toggle_label: &'static str = if app.enabled {
            "Disable"
        } else {
            "Enable"
        };
        r.push(
            PriorityItem {
                label: String::from_str(app.label()),
                enabled: app.enabled,
                toggle_label,
                can_move_up: i > 0,
                can_move_down: i + 1 < n,
            },
        );
        i = i + 1;
    }
    r
}

/// Whether the one-time migration from the legacy JSON file applies: the
/// JSON file is there and the TOML file is not yet.
pub fn migration_applies(json_exists: bool, toml_exists: bool) -> (r: bool)
    ensures
        r == (json_exists && !toml_exists),
{
    json_exists && !toml_exists
}

impl Config {
    /// Repairs values that are out of the range the UI permits: a
    /// `threshold_mb` above `MAX_THRESHOLD_MB` (such as the `u64::MAX` that an
    /// older Test Mode left in the saved file) is reset to
    /// `DEFAULT_THRESHOLD_MB`. Returns whether anything was changed.
    pub fn sanitize(&mut self) -> (changed: bool)
        ensures
            changed == (old(self).threshold_mb > MAX_THRESHOLD_MB),
            *final(self) == sanitized(*old(self)),
    {
        if self.threshold_mb > MAX_THRESHOLD_MB {
            self.threshold_mb = DEFAULT_THRESHOLD_MB;
            return true;
        }
        false
    }

    /// What the migration from the legacy JSON file does to the configuration
    /// it read: every entry of the kill list becomes enabled (the JSON format
    /// had no per-entry switch).
    pub fn enable_all_apps(&mut self)
        ensures
            all_enabled(*final(self), *old(self)),
    {
        let n = self.killable_apps.len();
        let mut apps: Vec<KillableApp> = Vec::new();
        let mut i: usize = 0;
        while i < n
            invariant
                n == self.killable_apps@.len(),
                i <= n,
                apps@.len() == i,
                forall|k: int|
                    0 <= k < i ==> {
                        &&& same_app(#[trigger] apps@[k], self.killable_apps@[k])
                        &&& apps@[k].enabled
                    },
            decreases n - i,
        {
            let mut a = self.killable_apps[i].duplicate();
            a.enabled = true;
            apps.push(a);
            i = i + 1;
        }
        self.killable_apps = apps;
    }

    /// Applies the command-line overrides for this run: each value given
    /// replaces the threshold, the countdown or the poll interval.
    pub fn apply_overrides(&mut self, threshold: Option<u64>, countdown: Option<u64>, interval: Option<u64>)
        ensures
            final(self).threshold_mb == (match threshold {
                Some(t) => t,
                None => old(self).threshold_mb,
            }),
            final(self).countdown_seconds == (match countdown {
                Some(c) => c,
                None => old(self).countdown_seconds,
            }),
            final(self).check_interval_seconds == (match interval {
                Some(i) => i,
                None => old(self).check_interval_seconds,
            }),
            final(self).snooze_seconds == old(self).snooze_seconds,
            final(self).killable_apps == old(self).killable_apps,
            final(self).use_memory_pressure == old(self).use_memory_pressure,
            final(self).pressure_threshold_bits == old(self).pressure_threshold_bits,
            final(self).warning_sound_enabled == old(self).warning_sound_enabled,
            final(self).kill_sound_enabled == old(self).kill_sound_enabled,
            final(self).sound_volume_pct == old(self).sound_volume_pct,
            final(self).test_override == old(self).test_override,
    {
        if let Some(t) = threshold {
            self.threshold_mb = t;
        }
        if let Some(c) = countdown {
            self.countdown_seconds = c;
        }
        if let Some(i) = interval {
            self.check_interval_seconds = i;
        }
    }

    /// Sets the threshold, as choosing one of the tray's presets does.
    pub fn set_threshold(&mut self, threshold_mb: u64)
        ensures
            *final(self) == with_threshold(*old(self), threshold_mb),
    {
        self.threshold_mb = threshold_mb;
    }

    /// The volume to play the warning sound at, `None` when it is switched off.
    pub fn warning_volume(&self) -> (r: Option<u8>)
        ensures
            r == (if self.warning_sound_enabled {
                Some(self.sound_volume_pct)
            } else {
                None::<u8>
            }),
    {
        if self.warning_sound_enabled {
            Some(self.sound_volume_pct)
        } else {
            None
        }
    }

    /// The volume to play the kill sound at, `None` when it is switched off.
    pub fn kill_volume(&self) -> (r: Option<u8>)
        ensures
            r == (if self.kill_sound_enabled {
                Some(self.sound_volume_pct)
            } else {
                None::<u8>
            }),
    {
        if self.kill_sound_enabled {
            Some(self.sound_volume_pct)
        } else {
            None
        }
    }
}


/// A repaired configuration is in range, and repairing it again changes
/// nothing (so a repaired file is rewritten at most once).
pub proof fn law_sanitize_repairs(c: Config)
    ensures
        is_sane(sanitized(c)),
        sanitized(sanitized(c)) == sanitized(c),
        is_sane(c) ==> sanitized(c) == c,
{
}

/// The configuration of a new install is in range: loading it never
/// triggers a repair.
pub proof fn law_default_is_sane(c: Config)
    requires
        is_default_config(c),
    ensures
        is_sane(c),
        sanitized(c) == c,
{
}

} // verus!
