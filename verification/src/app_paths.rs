//! Application filesystem paths: the single source of truth for every
//! directory location.
//!
//! [`AppPaths`] holds the base directories the application needs. It is
//! computed once at start-up (from the platform's directories in production,
//! from one temporary root in tests) and shared; every other path is derived
//! from it here. Paths are Unix path text, joined the way `Path::join` joins
//! a relative component.

use vstd::prelude::*;

use crate::sorted_map::{keys_of, strictly_increasing, SortedMap};
use crate::text::{chars_of, slice_chars, str_eq, string_from_chars};

verus! {

/// The application's name, used for its directories and log file.
pub const APP_NAME: &'static str = "jinn";

/// File name of the user preferences file.
pub const PREFS_FILE_NAME: &'static str = "jinn.toml";

/// System-wide defaults directory used in production.
pub const SYSTEM_DATA_DIR: &'static str = "/usr/share/jinn";

/// `base` joined with `component`, as `Path::join` does on Unix: an absolute
/// component replaces the base; otherwise a separator is added unless the
/// base is empty or already ends in one.
pub open spec fn joined(base: Seq<char>, component: Seq<char>) -> Seq<char> {
    if component.len() > 0 && component[0] == '/' {
        component
    } else if base.len() == 0 {
        component
    } else if base.last() == '/' {
        base + component
    } else {
        base + "/"@ + component
    }
}

/// Joins a path component onto a base path.
pub fn join_path(base: &str, component: &str) -> (p: String)
    ensures
        p@ == joined(base@, component@),
{
    let b = chars_of(base);
    let c = chars_of(component);
    if c.len() > 0 && c[0] == '/' {
        return component.to_owned();
    }
    if b.len() == 0 {
        return component.to_owned();
    }
    let mut p = base.to_owned();
    if b[b.len() - 1] != '/' {
        p.append("/");
    }
    p.append(component);
    p
}

/// Browser profile mode: one persistent profile per mode.
///
/// `headless` and `headed` each get their own profile subdirectory so a single
/// warmed headed profile can be shared by both `web-fetch` and `web-search`
/// without colliding on Chromium's singleton lock.
#[derive(Debug, Clone, Copy, PartialEq, Eq, Hash, Structural)]
pub enum BrowserProfileMode {
    /// Headless profile (no visible window).
    Headless,
    /// Headed profile (visible window, manually warmable).
    Headed,
}

/// The subdirectory name of a profile mode.
pub open spec fn mode_dir_name(mode: BrowserProfileMode) -> Seq<char> {
    match mode {
        BrowserProfileMode::Headless => "headless"@,
        BrowserProfileMode::Headed => "headed"@,
    }
}

impl BrowserProfileMode {
    /// Returns the subdirectory name for this mode.
    pub fn as_str(self) -> (s: &'static str)
        ensures
            s@ == mode_dir_name(self),
    {
        match self {
            BrowserProfileMode::Headless => "headless",
            BrowserProfileMode::Headed => "headed",
        }
    }
}

/// Application filesystem paths: the base directories everything else is
/// derived from.
#[derive(Debug, Clone, PartialEq, Eq)]
pub struct AppPaths {
    /// `~/.config`: holds `jinn/providers.toml`, prompts, personas, themes.
    config_dir: String,
    /// `~/.local/share`: holds `jinn/sessions.db`.
    data_dir: String,
    /// `~/.cache`: holds `jinn/model_cache.json`.
    cache_dir: String,
    /// `~/.local/state`: holds `jinn/jinn.log` (the data directory where the
    /// platform has no state directory).
    state_dir: String,
    /// `~/`: skills live at `~/.agents/skills`.
    home_dir: String,
    /// `/usr/share/jinn`: system-wide defaults; user files override system
    /// files of the same name.
    system_data_dir: String,
}

impl AppPaths {
    /// The base configuration directory.
    pub closed spec fn config_base(self) -> Seq<char> {
        self.config_dir@
    }

    /// The base data directory.
    pub closed spec fn data_base(self) -> Seq<char> {
        self.data_dir@
    }

    /// The base cache directory.
    pub closed spec fn cache_base(self) -> Seq<char> {
        self.cache_dir@
    }

    /// The base state directory.
    pub closed spec fn state_base(self) -> Seq<char> {
        self.state_dir@
    }

    /// The home directory.
    pub closed spec fn home(self) -> Seq<char> {
        self.home_dir@
    }

    /// The system data directory.
    pub closed spec fn system_base(self) -> Seq<char> {
        self.system_data_dir@
    }

    /// Paths from explicit base directories; production start-up passes the
    /// platform's directories here.
    pub fn new(
        config_dir: String,
        data_dir: String,
        cache_dir: String,
        state_dir: String,
        home_dir: String,
        system_data_dir: String,
    ) -> (p: AppPaths)
        ensures
            p.config_base() == config_dir@,
            p.data_base() == data_dir@,
            p.cache_base() == cache_dir@,
            p.state_base() == state_dir@,
            p.home() == home_dir@,
            p.system_base() == system_data_dir@,
    {
        AppPaths { config_dir, data_dir, cache_dir, state_dir, home_dir, system_data_dir }
    }

    /// Creates paths derived from a single root directory (for tests): every
    /// directory nests under `root`, so one temporary directory cleans up
    /// everything.
    pub fn new_in(root: &str) -> (p: AppPaths)
        ensures
            p.config_base() == joined(root@, "config"@),
            p.data_base() == joined(root@, "data"@),
            p.cache_base() == joined(root@, "cache"@),
            p.state_base() == joined(root@, "state"@),
            p.home() == root@,
            p.system_base() == joined(root@, "share"@),
    {
        AppPaths {
            config_dir: join_path(root, "config"),
            data_dir: join_path(root, "data"),
            cache_dir: join_path(root, "cache"),
            state_dir: join_path(root, "state"),
            home_dir: root.to_owned(),
            system_data_dir: join_path(root, "share"),
        }
    }

    /// Sets the home directory for tests (bounds the project walk).
    pub fn set_home_dir_for_test(&mut self, home: String)
        ensures
            final(self).home() == home@,
            final(self).config_base() == old(self).config_base(),
            final(self).data_base() == old(self).data_base(),
            final(self).cache_base() == old(self).cache_base(),
            final(self).state_base() == old(self).state_base(),
            final(self).system_base() == old(self).system_base(),
    {
        self.home_dir = home;
    }

    /// `base/jinn/leaf`.
    fn app_file(base: &str, leaf: &str) -> (p: String)
        ensures
            p@ == joined(joined(base@, APP_NAME@), leaf@),
    {
        let dir = join_path(base, APP_NAME);
        join_path(dir.as_str(), leaf)
    }

    /// Session database parent directory (`~/.local/share/jinn`).
    pub fn sessions_dir(&self) -> (p: String)
        ensures
            p@ == joined(self.data_base(), APP_NAME@),
    {
        join_path(self.data_dir.as_str(), APP_NAME)
    }

    /// Base directory for persistent browser profiles
    /// (`~/.local/share/jinn/browser-profile`).
    pub fn browser_profile_base_dir(&self) -> (p: String)
        ensures
            p@ == joined(joined(self.data_base(), APP_NAME@), "browser-profile"@),
    {
        AppPaths::app_file(self.data_dir.as_str(), "browser-profile")
    }

    /// Persistent browser profile for a given mode (`headless` or `headed`).
    pub fn browser_profile_dir_for_mode(&self, mode: BrowserProfileMode) -> (p: String)
        ensures
            p@ == joined(
                joined(joined(self.data_base(), APP_NAME@), "browser-profile"@),
                mode_dir_name(mode),
            ),
    {
        let base = self.browser_profile_base_dir();
        join_path(base.as_str(), mode.as_str())
    }

    /// Prompt templates directory (`~/.config/jinn/prompts`).
    pub fn prompts_dir(&self) -> (p: String)
        ensures
            p@ == joined(joined(self.config_base(), APP_NAME@), "prompts"@),
    {
        AppPaths::app_file(self.config_dir.as_str(), "prompts")
    }

    /// Agent skills directory (`~/.agents/skills`).
    pub fn skills_dir(&self) -> (p: String)
        ensures
            p@ == joined(joined(self.home(), ".agents"@), "skills"@),
    {
        let agents = join_path(self.home_dir.as_str(), ".agents");
        join_path(agents.as_str(), "skills")
    }

    /// User home directory (`~/`). Bounds the project walk (exclusive of home).
    pub fn home_dir(&self) -> (p: &str)
        ensures
            p@ == self.home(),
    {
        self.home_dir.as_str()
    }

    /// Personas directory (`~/.config/jinn/personas`).
    pub fn personas_dir(&self) -> (p: String)
        ensures
            p@ == joined(joined(self.config_base(), APP_NAME@), "personas"@),
    {
        AppPaths::app_file(self.config_dir.as_str(), "personas")
    }

    /// Subscription credential storage (`~/.config/jinn/auth.json`),
    /// deliberately separate from `providers.toml`: provider configuration is
    /// meant to be edited and shared, credentials are not.
    pub fn auth_path(&self) -> (p: String)
        ensures
            p@ == joined(joined(self.config_base(), APP_NAME@), "auth.json"@),
    {
        AppPaths::app_file(self.config_dir.as_str(), "auth.json")
    }

    /// Model cache file (`~/.cache/jinn/model_cache.json`).
    pub fn cache_path(&self) -> (p: String)
        ensures
            p@ == joined(joined(self.cache_base(), APP_NAME@), "model_cache.json"@),
    {
        AppPaths::app_file(self.cache_dir.as_str(), "model_cache.json")
    }

    /// Provider config file (`~/.config/jinn/providers.toml`).
    pub fn config_path(&self) -> (p: String)
        ensures
            p@ == joined(joined(self.config_base(), APP_NAME@), "providers.toml"@),
    {
        AppPaths::app_file(self.config_dir.as_str(), "providers.toml")
    }

    /// Log file path (`~/.local/state/jinn/jinn.log` on Linux).
    pub fn log_path(&self) -> (p: String)
        ensures
            p@ == joined(joined(self.state_base(), APP_NAME@), APP_NAME@ + ".log"@),
    {
        let mut leaf = APP_NAME.to_owned();
        leaf.append(".log");
        AppPaths::app_file(self.state_dir.as_str(), leaf.as_str())
    }

    /// App state file (`~/.local/state/jinn/state.toml` on Linux).
    pub fn state_file_path(&self) -> (p: String)
        ensures
            p@ == joined(joined(self.state_base(), APP_NAME@), "state.toml"@),
    {
        AppPaths::app_file(self.state_dir.as_str(), "state.toml")
    }

    /// Themes directory (`~/.config/jinn/themes`).
    pub fn themes_dir(&self) -> (p: String)
        ensures
            p@ == joined(joined(self.config_base(), APP_NAME@), "themes"@),
    {
        AppPaths::app_file(self.config_dir.as_str(), "themes")
    }

    /// User preferences file (`~/.config/jinn/jinn.toml`).
    pub fn preferences_path(&self) -> (p: String)
        ensures
            p@ == joined(joined(self.config_base(), APP_NAME@), PREFS_FILE_NAME@),
    {
        AppPaths::app_file(self.config_dir.as_str(), PREFS_FILE_NAME)
    }

    /// System data directory (`/usr/share/jinn`): the fallback source for
    /// themes, personas, and prompts.
    pub fn system_data_dir(&self) -> (p: &str)
        ensures
            p@ == self.system_base(),
    {
        self.system_data_dir.as_str()
    }

    /// Plugin directory (`~/.local/share/jinn/plugins`), where user-installed
    /// plugin files live.
    pub fn plugins_dir(&self) -> (p: String)
        ensures
            p@ == joined(joined(self.data_base(), APP_NAME@), "plugins"@),
    {
        AppPaths::app_file(self.data_dir.as_str(), "plugins")
    }

    /// Config directory (`~/.config/jinn`).
    pub fn app_config_dir(&self) -> (p: String)
        ensures
            p@ == joined(self.config_base(), APP_NAME@),
    {
        join_path(self.config_dir.as_str(), APP_NAME)
    }

    /// Base config directory (`~/.config`), parent of all jinn config.
    pub fn config_dir(&self) -> (p: &str)
        ensures
            p@ == self.config_base(),
    {
        self.config_dir.as_str()
    }

    /// Base data directory (`~/.local/share`), parent of all jinn data.
    pub fn data_dir(&self) -> (p: &str)
        ensures
            p@ == self.data_base(),
    {
        self.data_dir.as_str()
    }

    /// App data directory (`~/.local/share/jinn`).
    pub fn app_data_dir(&self) -> (p: String)
        ensures
            p@ == joined(self.data_base(), APP_NAME@),
    {
        join_path(self.data_dir.as_str(), APP_NAME)
    }

    /// System themes directory (`/usr/share/jinn/themes`).
    pub fn system_themes_dir(&self) -> (p: String)
        ensures
            p@ == joined(self.system_base(), "themes"@),
    {
        join_path(self.system_data_dir.as_str(), "themes")
    }

    /// System prompts directory (`/usr/share/jinn/prompts`).
    pub fn system_prompts_dir(&self) -> (p: String)
        ensures
            p@ == joined(self.system_base(), "prompts"@),
    {
        join_path(self.system_data_dir.as_str(), "prompts")
    }

    /// System skills directory (`/usr/share/jinn/skills`), the fallback
    /// source for skills.
    pub fn system_skills_dir(&self) -> (p: String)
        ensures
            p@ == joined(self.system_base(), "skills"@),
    {
        join_path(self.system_data_dir.as_str(), "skills")
    }

    /// User's models.dev reference file (`~/.cache/jinn/models.dev.json`).
    pub fn models_dev_user_path(&self) -> (p: String)
        ensures
            p@ == joined(joined(self.cache_base(), APP_NAME@), "models.dev.json"@),
    {
        AppPaths::app_file(self.cache_dir.as_str(), "models.dev.json")
    }

    /// System models.dev reference file (`/usr/share/jinn/models.dev.json`).
    pub fn models_dev_system_path(&self) -> (p: String)
        ensures
            p@ == joined(self.system_base(), "models.dev.json"@),
    {
        join_path(self.system_data_dir.as_str(), "models.dev.json")
    }

    /// Merges the theme files found in the system and user theme directories
    /// (`system_entries` and `user_entries` list their paths): `.toml` files by
    /// name, a user theme replacing a system one of the same name, sorted by
    /// name.
    pub fn resolve_theme_paths(&self, system_entries: &Vec<String>, user_entries: &Vec<String>) -> (r:
        Vec<(String, String)>)
        ensures
            merged_resources(r@, system_entries@, user_entries@, "toml"@),
    {
        merge_resource_paths(system_entries, user_entries, "toml")
    }

    /// Merges the prompt template files found in the system and user prompt
    /// directories, with the same rules for `.md` files.
    pub fn resolve_prompt_paths(&self, system_entries: &Vec<String>, user_entries: &Vec<String>) -> (r:
        Vec<(String, String)>)
        ensures
            merged_resources(r@, system_entries@, user_entries@, "md"@),
    {
        merge_resource_paths(system_entries, user_entries, "md")
    }
}

/// The index just after the last `/` in `p`, or 0 when it has none.
pub open spec fn name_start(p: Seq<char>) -> int
    decreases p.len(),
{
    if p.len() == 0 {
        0
    } else if p.last() == '/' {
        p.len() as int
    } else {
        name_start(p.drop_last())
    }
}

/// The index of the last `.` in `name`, if any.
pub open spec fn last_dot(name: Seq<char>) -> Option<int>
    decreases name.len(),
{
    if name.len() == 0 {
        None
    } else if name.last() == '.' {
        Some(name.len() - 1)
    } else {
        last_dot(name.drop_last())
    }
}

/// The stem and extension of a path's file name, as `Path::file_stem` and
/// `Path::extension` split it: at the last dot, unless the name is `..` or
/// the only dot starts the name.
pub open spec fn stem_and_extension(p: Seq<char>) -> (Seq<char>, Option<Seq<char>>) {
    let name = p.skip(name_start(p));
    if name == ".."@ {
        (name, None)
    } else {
        match last_dot(name) {
            Some(i) => if i == 0 {
                (name, None)
            } else {
                (name.take(i), Some(name.skip(i + 1)))
            },
            None => (name, None),
        }
    }
}

/// The (name, path) pairs of the entries with extension `ext`, in order.
pub open spec fn resource_candidates(entries: Seq<Seq<char>>, ext: Seq<char>) -> Seq<
    (Seq<char>, Seq<char>),
>
    decreases entries.len(),
{
    if entries.len() == 0 {
        Seq::empty()
    } else {
        let rest = resource_candidates(entries.drop_last(), ext);
        let (stem, e) = stem_and_extension(entries.last());
        if e == Some(ext) {
            rest.push((stem, entries.last()))
        } else {
            rest
        }
    }
}

/// The map pairs read in order build, a later pair for a name replacing an
/// earlier one.
pub open spec fn folded_names(s: Seq<(Seq<char>, Seq<char>)>) -> Map<Seq<char>, Seq<char>>
    decreases s.len(),
{
    if s.len() == 0 {
        Map::empty()
    } else {
        folded_names(s.drop_last()).insert(s.last().0, s.last().1)
    }
}

/// Whether `r` is the merge of the resources found in two listings: every
/// name once, in increasing order, each with the path of its last occurrence,
/// user entries after system ones.
pub open spec fn merged_resources(
    r: Seq<(String, String)>,
    system_entries: Seq<String>,
    user_entries: Seq<String>,
    ext: Seq<char>,
) -> bool {
    let all = resource_candidates(
        system_entries.map_values(|s: String| s@) + user_entries.map_values(|s: String| s@),
        ext,
    );
    let m = folded_names(all);
    &&& strictly_increasing(keys_of(r))
    &&& forall|k: Seq<char>| m.dom().contains(k) <==> keys_of(r).contains(k)
    &&& forall|i: int| 0 <= i < r.len() ==> #[trigger] r[i].1@ == m[r[i].0@]
}

/// The stem and extension of a path's file name.
pub fn file_stem_and_extension(path: &str) -> (r: (String, Option<String>))
    ensures
        r.0@ == stem_and_extension(path@).0,
        match r.1 {
            Some(e) => stem_and_extension(path@).1 == Some(e@),
            None => stem_and_extension(path@).1 is None,
        },
{
    let p = chars_of(path);
    let mut start: usize = p.len();
    proof {
        assert(p@.take(p@.len() as int) =~= p@);
    }
    while start > 0 && p[start - 1] != '/'
        invariant
            start <= p@.len(),
            p@ == path@,
            name_start(p@) == name_start(p@.take(start as int)),
        decreases start,
    {
        proof {
            assert(p@.take(start as int).drop_last() =~= p@.take(start - 1));
        }
        start = start - 1;
    }
    proof {
        if start > 0 {
            assert(p@.take(start as int).last() == '/');
        }
    }
    let name = slice_chars(p.as_slice(), start, p.len());
    let name_str = string_from_chars(name.as_slice());
    if str_eq(name_str.as_str(), "..") {
        return (name_str, None);
    }
    let mut dot: usize = name.len();
    proof {
        assert(name@.take(name@.len() as int) =~= name@);
    }
    while dot > 0 && name[dot - 1] != '.'
        invariant
            dot <= name@.len(),
            last_dot(name@) == last_dot(name@.take(dot as int)),
        decreases dot,
    {
        proof {
            assert(name@.take(dot as int).drop_last() =~= name@.take(dot - 1));
        }
        dot = dot - 1;
    }
    proof {
        if dot > 0 {
            assert(name@.take(dot as int).last() == '.');
        }
    }
    if dot <= 1 {
        return (name_str, None);
    }
    let stem = slice_chars(name.as_slice(), 0, dot - 1);
    let ext = slice_chars(name.as_slice(), dot, name.len());
    proof {
        assert(stem@ =~= name@.take(dot - 1));
        assert(ext@ =~= name@.skip(dot as int));
    }
    (string_from_chars(stem.as_slice()), Some(string_from_chars(ext.as_slice())))
}

/// Adds the entries with extension `ext` to `map`, by name, in order.
fn scan_into(
    map: &mut SortedMap<String>,
    entries: &Vec<String>,
    ext: &str,
    Ghost(before): Ghost<Seq<(Seq<char>, Seq<char>)>>,
)
    requires
        old(map).wf(),
        forall|k: Seq<char>|
            #![trigger old(map)@.dom().contains(k)]
            old(map)@.dom().contains(k) == folded_names(before).dom().contains(k) && (old(
                map,
            )@.dom().contains(k) ==> old(map)@[k]@ == folded_names(before)[k]),
    ensures
        final(map).wf(),
        forall|k: Seq<char>|
            #![trigger final(map)@.dom().contains(k)]
            final(map)@.dom().contains(k) == folded_names(
                before + resource_candidates(entries@.map_values(|s: String| s@), ext@),
            ).dom().contains(k) && (final(map)@.dom().contains(k) ==> final(map)@[k]@
                == folded_names(
                before + resource_candidates(entries@.map_values(|s: String| s@), ext@),
            )[k]),
{
    let ghost views = entries@.map_values(|s: String| s@);
    let mut i: usize = 0;
    proof {
        assert(views.take(0) =~= Seq::<Seq<char>>::empty());
        assert(before + resource_candidates(views.take(0), ext@) =~= before);
    }
    while i < entries.len()
        invariant
            map.wf(),
            i <= entries@.len(),
            views == entries@.map_values(|s: String| s@),
            forall|k: Seq<char>|
                #![trigger map@.dom().contains(k)]
                map@.dom().contains(k) == folded_names(
                    before + resource_candidates(views.take(i as int), ext@),
                ).dom().contains(k) && (map@.dom().contains(k) ==> map@[k]@ == folded_names(
                    before + resource_candidates(views.take(i as int), ext@),
                )[k]),
        decreases entries@.len() - i,
    {
        let (stem, found) = file_stem_and_extension(entries[i].as_str());
        let ghost prev = before + resource_candidates(views.take(i as int), ext@);
        proof {
            assert(views.take(i + 1).drop_last() =~= views.take(i as int));
            assert(views.take(i + 1).last() == entries@[i as int]@);
        }
        let matches = match &found {
            Some(e) => str_eq(e.as_str(), ext),
            None => false,
        };
        if matches {
            let ghost pair = (stem@, entries@[i as int]@);
            let path = entries[i].clone();
            map.insert(stem, path);
            proof {
                assert(before + resource_candidates(views.take(i + 1), ext@) =~= prev.push(pair));
                assert(prev.push(pair).drop_last() =~= prev);
            }
        } else {
            proof {
                assert(before + resource_candidates(views.take(i + 1), ext@) =~= prev);
            }
        }
        i = i + 1;
    }
    proof {
        assert(views.take(i as int) =~= views);
    }
}

/// Merges the files with extension `ext` from two directory listings by file
/// name: system entries first, user entries replacing system ones of the same
/// name, the result sorted by name.
pub fn merge_resource_paths(system_entries: &Vec<String>, user_entries: &Vec<String>, ext: &str) -> (r:
    Vec<(String, String)>)
    ensures
        merged_resources(r@, system_entries@, user_entries@, ext@),
{
    let mut map: SortedMap<String> = SortedMap::new();
    let ghost s_views = system_entries@.map_values(|s: String| s@);
    let ghost u_views = user_entries@.map_values(|s: String| s@);
    proof {
        assert(folded_names(Seq::<(Seq<char>, Seq<char>)>::empty()) =~= Map::empty());
    }
    scan_into(&mut map, system_entries, ext, Ghost(Seq::empty()));
    let ghost after_system = Seq::<(Seq<char>, Seq<char>)>::empty() + resource_candidates(
        s_views,
        ext@,
    );
    scan_into(&mut map, user_entries, ext, Ghost(after_system));
    let ghost m = folded_names(after_system + resource_candidates(u_views, ext@));
    proof {
        lemma_candidates_append(s_views, u_views, ext@);
        assert(Seq::<(Seq<char>, Seq<char>)>::empty() + resource_candidates(s_views, ext@)
            =~= resource_candidates(s_views, ext@));
        map.lemma_key_order();
    }
    let r = map.into_entries();
    proof {
        assert forall|k: Seq<char>| m.dom().contains(k) <==> keys_of(r@).contains(k) by {}
        assert forall|i: int| 0 <= i < r@.len() implies #[trigger] r@[i].1@ == m[r@[i].0@] by {
            crate::sorted_map::lemma_entries_map_at(r@, i);
        }
    }
    r
}

/// The candidates of two listings are those of the first followed by those
/// of the second.
proof fn lemma_candidates_append(a: Seq<Seq<char>>, b: Seq<Seq<char>>, ext: Seq<char>)
    ensures
        resource_candidates(a + b, ext) == resource_candidates(a, ext) + resource_candidates(b, ext),
    decreases b.len(),
{
    if b.len() == 0 {
        assert(a + b =~= a);
        assert(resource_candidates(a, ext) + resource_candidates(b, ext) =~= resource_candidates(
            a,
            ext,
        ));
    } else {
        lemma_candidates_append(a, b.drop_last(), ext);
        assert((a + b).drop_last() =~= a + b.drop_last());
        assert((a + b).last() == b.last());
    }
}

} // verus!
