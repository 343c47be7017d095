//! Key/value configuration: the process environment snapshot, values read
//! from a config file, the `.env` line format, and the choice of which config
//! file to read.
use vstd::prelude::*;
use crate::paths::{path_extension, path_join, extension_of, join_path};
use crate::text::{
    eq_ignore_ascii_case, eq_ignore_ascii_case_text,
    is_blank, trim, find_char, is_blank_text, owned, chars_of, trim_range, find_char_in_range,
    string_from_chars,
};

verus! {

/// The text view of an optional owned text.
pub open spec fn opt_view(o: Option<String>) -> Option<Seq<char>> {
    match o {
        Some(s) => Some(s@),
        None => None,
    }
}

/// The text view of key/value pairs.
pub open spec fn pairs_view(v: Seq<(String, String)>) -> Seq<(Seq<char>, Seq<char>)> {
    v.map_values(|e: (String, String)| (e.0@, e.1@))
}

/// The value of the last pair with key `k`.
pub open spec fn lookup_last(s: Seq<(Seq<char>, Seq<char>)>, k: Seq<char>) -> Option<Seq<char>>
    decreases s.len(),
{
    if s.len() == 0 {
        None
    } else if s.last().0 == k {
        Some(s.last().1)
    } else {
        lookup_last(s.drop_last(), k)
    }
}

/// The value of the first pair with key `k`.
pub open spec fn lookup_first(s: Seq<(Seq<char>, Seq<char>)>, k: Seq<char>) -> Option<Seq<char>>
    decreases s.len(),
{
    if s.len() == 0 {
        None
    } else if s[0].0 == k {
        Some(s[0].1)
    } else {
        lookup_first(s.drop_first(), k)
    }
}

/// The map that inserting the pairs in order builds: a later pair overrides
/// an earlier one with the same key.
pub open spec fn pairs_map(s: Seq<(Seq<char>, Seq<char>)>) -> Map<Seq<char>, Seq<char>> {
    Map::new(|k: Seq<char>| lookup_last(s, k) is Some, |k: Seq<char>| lookup_last(s, k)->0)
}

/// Map lookup as an `Option`.
pub open spec fn map_get(m: Map<Seq<char>, Seq<char>>, k: Seq<char>) -> Option<Seq<char>> {
    if m.dom().contains(k) {
        Some(m[k])
    } else {
        None
    }
}

/// A value counts only when it is not blank.
pub open spec fn nonblank(o: Option<Seq<char>>) -> Option<Seq<char>> {
    match o {
        Some(v) => if is_blank(v) {
            None
        } else {
            Some(v)
        },
        None => None,
    }
}

/// A string-keyed map of texts, kept as pairs in insertion order; a later
/// insertion of a key overrides an earlier one.
#[derive(Debug)]
pub struct KeyValues {
    pub entries: Vec<(String, String)>,
}

impl View for KeyValues {
    type V = Map<Seq<char>, Seq<char>>;

    open spec fn view(&self) -> Map<Seq<char>, Seq<char>> {
        pairs_map(pairs_view(self.entries@))
    }
}

proof fn lemma_lookup_last_take(s: Seq<(Seq<char>, Seq<char>)>, i: int, k: Seq<char>)
    requires
        0 <= i <= s.len(),
        forall|j: int| i <= j < s.len() ==> s[j].0 != k,
    ensures
        lookup_last(s, k) == lookup_last(s.take(i), k),
    decreases s.len() - i,
{
    if i < s.len() {
        lemma_lookup_last_take(s.drop_last(), i, k);
        assert(s.drop_last().take(i) =~= s.take(i));
    } else {
        assert(s.take(i) =~= s);
    }
}

impl KeyValues {
    /// An empty map.
    pub fn new() -> (r: KeyValues)
        ensures
            r@ == Map::<Seq<char>, Seq<char>>::empty(),
    {
        let r = KeyValues { entries: Vec::new() };
        assert(r@ =~= Map::<Seq<char>, Seq<char>>::empty());
        r
    }

    /// Sets `key` to `value`, as `HashMap::insert` does.
    pub fn insert(&mut self, key: String, value: String)
        ensures
            final(self)@ == old(self)@.insert(key@, value@),
    {
        let ghost before = pairs_view(self.entries@);
        self.entries.push((key, value));
        proof {
            let after = pairs_view(self.entries@);
            assert(after.drop_last() =~= before);
            assert(after.last() == (key@, value@));
            assert(self@ =~= old(self)@.insert(key@, value@));
        }
    }

    /// The value of `key`, if set.
    pub fn get(&self, key: &str) -> (r: Option<String>)
        ensures
            opt_view(r) == map_get(self@, key@),
    {
        let k = owned(key);
        let ghost s = pairs_view(self.entries@);
        let mut i: usize = self.entries.len();
        while i > 0
            invariant
                i <= self.entries@.len(),
                s == pairs_view(self.entries@),
                k@ == key@,
                forall|j: int| i <= j < s.len() ==> s[j].0 != k@,
            decreases i,
        {
            if self.entries[i - 1].0 == k {
                let v = self.entries[i - 1].1.clone();
                proof {
                    assert(s[i - 1].0 == k@);
                    lemma_lookup_last_take(s, i as int, k@);
                    assert(s.take(i as int).last() == s[i - 1]);
                }
                return Some(v);
            }
            proof {
                assert(s[i - 1].0 != k@);
            }
            i = i - 1;
        }
        proof {
            lemma_lookup_last_take(s, 0, k@);
        }
        None
    }

    /// The value of `key` when it is set and not blank.
    pub fn get_nonblank(&self, key: &str) -> (r: Option<String>)
        ensures
            opt_view(r) == nonblank(map_get(self@, key@)),
    {
        match self.get(key) {
            Some(v) => {
                if is_blank_text(v.as_str()) {
                    None
                } else {
                    Some(v)
                }
            },
            None => None,
        }
    }
}

/// A snapshot of the process environment.
#[derive(Debug)]
pub struct Environment {
    pub vars: KeyValues,
}

impl View for Environment {
    type V = Map<Seq<char>, Seq<char>>;

    open spec fn view(&self) -> Map<Seq<char>, Seq<char>> {
        self.vars@
    }
}

impl Environment {
    /// The variable `key`, when it is set and not blank, as
    /// `env::var(key).ok().filter(|v| !v.trim().is_empty())`.
    pub fn var(&self, key: &str) -> (r: Option<String>)
        ensures
            opt_view(r) == nonblank(map_get(self@, key@)),
    {
        self.vars.get_nonblank(key)
    }
}

/// Removes one pair of matching single or double quotes around a value.
pub open spec fn unquote(v: Seq<char>) -> Seq<char> {
    if v.len() >= 2 && ((v[0] == '"' && v.last() == '"') || (v[0] == '\'' && v.last() == '\'')) {
        v.subrange(1, v.len() - 1)
    } else {
        v
    }
}

/// Removes one pair of matching quotes around `value`: the first and the last
/// character are both `"` or both `'`, and the text is at least two long.
pub fn unquote_env_value<'a>(value: &'a str) -> (r: &'a str)
    ensures
        r@ == unquote(value@),
{
    let n = value.unicode_len();
    if n >= 2 {
        let first = value.get_char(0);
        let last = value.get_char(n - 1);
        if (first == '"' && last == '"') || (first == '\'' && last == '\'') {
            return value.substring_char(1, n - 1);
        }
    }
    value
}

/// Bounds of `unquote` applied to `v[from..to]`.
fn unquote_range(v: &Vec<char>, from: usize, to: usize) -> (r: (usize, usize))
    requires
        from <= to <= v@.len(),
    ensures
        from <= r.0 <= r.1 <= to,
        unquote(v@.subrange(from as int, to as int)) == v@.subrange(r.0 as int, r.1 as int),
{
    let ghost s = v@.subrange(from as int, to as int);
    if to - from >= 2 {
        let first = v[from];
        let last = v[to - 1];
        assert(s[0] == first && s.last() == last);
        if (first == '"' && last == '"') || (first == '\'' && last == '\'') {
            assert(s.subrange(1, s.len() - 1) =~= v@.subrange(from + 1, to - 1));
            return (from + 1, to - 1);
        }
    }
    (from, to)
}

/// The lines of a text: the pieces between `\n` characters. A `\r` before a
/// line break stays in its line; the line parser trims it off.
pub open spec fn split_lines(s: Seq<char>) -> Seq<Seq<char>>
    decreases s.len(),
{
    if s.len() == 0 {
        seq![Seq::<char>::empty()]
    } else {
        let prev = split_lines(s.drop_last());
        if s.last() == '\n' {
            prev.push(Seq::<char>::empty())
        } else {
            prev.update(prev.len() - 1, prev.last().push(s.last()))
        }
    }
}

/// What one `.env` line contributes: nothing for a blank line, a `#` comment,
/// a line without `=` or with an empty key; otherwise the trimmed key and the
/// trimmed, unquoted value.
pub open spec fn line_entry(line: Seq<char>) -> Option<(Seq<char>, Seq<char>)> {
    let t = trim(line);
    if t.len() == 0 || t[0] == '#' {
        None
    } else {
        match find_char(t, '=') {
            None => None,
            Some(i) => {
                let key = trim(t.take(i));
                if key.len() == 0 {
                    None
                } else {
                    Some((key, unquote(trim(t.skip(i + 1)))))
                }
            },
        }
    }
}

/// The entries of a sequence of lines, in order.
pub open spec fn entries_of_lines(ls: Seq<Seq<char>>) -> Seq<(Seq<char>, Seq<char>)>
    decreases ls.len(),
{
    if ls.len() == 0 {
        seq![]
    } else {
        let prev = entries_of_lines(ls.drop_last());
        match line_entry(ls.last()) {
            Some(e) => prev.push(e),
            None => prev,
        }
    }
}

/// The entries of `.env` text, in the order of their lines.
pub open spec fn env_entries(content: Seq<char>) -> Seq<(Seq<char>, Seq<char>)> {
    entries_of_lines(split_lines(content))
}

/// `split_lines` always gives at least one line.
pub proof fn lemma_split_lines_nonempty(s: Seq<char>)
    ensures
        split_lines(s).len() >= 1,
    decreases s.len(),
{
    if s.len() > 0 {
        lemma_split_lines_nonempty(s.drop_last());
    }
}

/// Parses one line `v[from..to]`.
fn parse_line(v: &Vec<char>, from: usize, to: usize) -> (r: Option<(String, String)>)
    requires
        from <= to <= v@.len(),
    ensures
        match r {
            Some(e) => line_entry(v@.subrange(from as int, to as int)) == Some((e.0@, e.1@)),
            None => line_entry(v@.subrange(from as int, to as int)) is None,
        },
{
    let ghost line = v@.subrange(from as int, to as int);
    let (x, y) = trim_range(v, from, to);
    let ghost t = v@.subrange(x as int, y as int);
    if x == y {
        return None;
    }
    assert(t[0] == v@[x as int]);
    if v[x] == '#' {
        return None;
    }
    match find_char_in_range(v, x, y, '=') {
        None => None,
        Some(j) => {
            let (kx, ky) = trim_range(v, x, j);
            proof {
                assert(t.take(j - x) =~= v@.subrange(x as int, j as int));
                assert(t.skip(j - x + 1) =~= v@.subrange(j + 1, y as int));
            }
            if kx == ky {
                return None;
            }
            let (vx, vy) = trim_range(v, j + 1, y);
            let (ux, uy) = unquote_range(v, vx, vy);
            let key = string_from_chars(v.as_slice(), kx, ky);
            let value = string_from_chars(v.as_slice(), ux, uy);
            Some((key, value))
        },
    }
}

/// Parses `.env` text into its entries, in line order, keeping repeated keys.
pub fn env_text_entries(content: &str) -> (r: Vec<(String, String)>)
    ensures
        pairs_view(r@) == env_entries(content@),
{
    let v = chars_of(content);
    let n = v.len();
    let mut out: Vec<(String, String)> = Vec::new();
    let mut start: usize = 0;
    let mut i: usize = 0;
    proof {
        assert(v@.take(0) =~= Seq::<char>::empty());
        assert(pairs_view(out@) =~= seq![]);
    }
    while i < n
        invariant
            start <= i <= n,
            n == v@.len(),
            v@ == content@,
            split_lines(v@.take(i as int)).len() >= 1,
            split_lines(v@.take(i as int)).last() == v@.subrange(start as int, i as int),
            pairs_view(out@) == entries_of_lines(split_lines(v@.take(i as int)).drop_last()),
        decreases n - i,
    {
        let ghost prefix = v@.take(i as int);
        let ghost next = v@.take(i + 1);
        proof {
            assert(next.drop_last() =~= prefix);
            assert(next.last() == v@[i as int]);
            lemma_split_lines_nonempty(prefix);
        }
        if v[i] == '\n' {
            let e = parse_line(&v, start, i);
            proof {
                let ls = split_lines(prefix);
                assert(split_lines(next) == ls.push(Seq::<char>::empty()));
                assert(split_lines(next).drop_last() =~= ls);
            }
            match e {
                Some(pair) => {
                    out.push(pair);
                },
                None => {},
            }
            proof {
                let ls = split_lines(prefix);
                assert(pairs_view(out@) =~= entries_of_lines(ls));
                assert(v@.subrange(i + 1, i + 1) =~= Seq::<char>::empty());
            }
            start = i + 1;
        } else {
            proof {
                let ls = split_lines(prefix);
                assert(split_lines(next) == ls.update(ls.len() - 1, ls.last().push(v@[i as int])));
                assert(split_lines(next).drop_last() =~= ls.drop_last());
                assert(ls.last().push(v@[i as int]) =~= v@.subrange(start as int, i + 1));
            }
        }
        i = i + 1;
    }
    let e = parse_line(&v, start, n);
    proof {
        assert(v@.take(n as int) =~= v@);
    }
    match e {
        Some(pair) => {
            out.push(pair);
        },
        None => {},
    }
    proof {
        let ls = split_lines(v@);
        assert(pairs_view(out@) =~= entries_of_lines(ls));
    }
    out
}

/// The format of a config file.
#[derive(Clone, Copy, Debug, PartialEq, Eq, Structural)]
pub enum ConfigFileFormat {
    Toml,
    Env,
}

/// A config file to read, with the format to read it in.
#[derive(Debug)]
pub struct ConfigFileSource {
    pub path: String,
    pub format: ConfigFileFormat,
}

/// The format a path names: TOML when its extension is `toml` in any ASCII
/// case, `.env` text otherwise.
pub open spec fn format_of_path(path: Seq<char>) -> ConfigFileFormat {
    match path_extension(path) {
        Some(ext) => if eq_ignore_ascii_case(ext, "toml"@) {
            ConfigFileFormat::Toml
        } else {
            ConfigFileFormat::Env
        },
        None => ConfigFileFormat::Env,
    }
}

/// Chooses the format of a config file from its extension.
pub fn detect_config_file_format(path: &str) -> (r: ConfigFileFormat)
    ensures
        r == format_of_path(path@),
{
    match extension_of(path) {
        Some(ext) => {
            if eq_ignore_ascii_case_text(ext.as_str(), "toml") {
                ConfigFileFormat::Toml
            } else {
                ConfigFileFormat::Env
            }
        },
        None => ConfigFileFormat::Env,
    }
}

/// The two default config files under a project root, and whether each exists.
#[derive(Debug)]
pub struct ConfigCandidates {
    pub toml_path: String,
    pub toml_exists: bool,
    pub env_path: String,
    pub env_exists: bool,
}

/// `<root>/backend/config/<file>`.
pub open spec fn config_path_under(root: Seq<char>, file: Seq<char>) -> Seq<char> {
    path_join(path_join(path_join(root, "backend"@), "config"@), file)
}

/// The default TOML and `.env` config paths under a project root.
pub fn default_config_paths(root: &str) -> (r: (String, String))
    ensures
        r.0@ == config_path_under(root@, "companion-core.toml"@),
        r.1@ == config_path_under(root@, "companion-core.env"@),
{
    let dir = join_path(join_path(root, "backend").as_str(), "config");
    let toml_path = join_path(dir.as_str(), "companion-core.toml");
    let env_path = join_path(dir.as_str(), "companion-core.env");
    (toml_path, env_path)
}

/// Which config file to read: the file that `COMPANION_CORE_CONFIG_FILE`
/// names, in the format its extension gives; else the `.env` file that
/// `COMPANION_CORE_ENV_FILE` names; else the default TOML file if it exists,
/// else the default `.env` file if it exists, else the default TOML path.
pub open spec fn chosen_source(
    env: Map<Seq<char>, Seq<char>>,
    candidates: (Seq<char>, bool, Seq<char>, bool),
) -> (Seq<char>, ConfigFileFormat) {
    match nonblank(map_get(env, "COMPANION_CORE_CONFIG_FILE"@)) {
        Some(p) => (p, format_of_path(p)),
        None => match nonblank(map_get(env, "COMPANION_CORE_ENV_FILE"@)) {
            Some(p) => (p, ConfigFileFormat::Env),
            None => if candidates.1 {
                (candidates.0, ConfigFileFormat::Toml)
            } else if candidates.3 {
                (candidates.2, ConfigFileFormat::Env)
            } else {
                (candidates.0, ConfigFileFormat::Toml)
            },
        },
    }
}

/// The view of a candidate set.
pub open spec fn candidates_view(c: ConfigCandidates) -> (Seq<char>, bool, Seq<char>, bool) {
    (c.toml_path@, c.toml_exists, c.env_path@, c.env_exists)
}

/// Chooses the config file as `chosen_source` says.
pub fn choose_config_source(env: &Environment, candidates: ConfigCandidates) -> (r: ConfigFileSource)
    ensures
        (r.path@, r.format) == chosen_source(env@, candidates_view(candidates)),
{
    if let Some(path) = env.var("COMPANION_CORE_CONFIG_FILE") {
        let format = detect_config_file_format(path.as_str());
        return ConfigFileSource { path, format };
    }
    if let Some(path) = env.var("COMPANION_CORE_ENV_FILE") {
        return ConfigFileSource { path, format: ConfigFileFormat::Env };
    }
    if candidates.toml_exists {
        return ConfigFileSource { path: candidates.toml_path, format: ConfigFileFormat::Toml };
    }
    if candidates.env_exists {
        return ConfigFileSource { path: candidates.env_path, format: ConfigFileFormat::Env };
    }
    ConfigFileSource { path: candidates.toml_path, format: ConfigFileFormat::Toml }
}

/// The service's choice of config file: as `choose_config_source`, except
/// that without a project root (and no variable naming a file) there is none.
pub fn resolve_runtime_config_source(env: &Environment, candidates: Option<ConfigCandidates>) -> (r:
    Option<ConfigFileSource>)
    ensures
        match candidates {
            Some(c) => r matches Some(s) && (s.path@, s.format) == chosen_source(
                env@,
                candidates_view(c),
            ),
            None => match r {
                Some(s) => (s.path@, s.format) == chosen_source(
                    env@,
                    (Seq::<char>::empty(), false, Seq::<char>::empty(), false),
                ) && (nonblank(map_get(env@, "COMPANION_CORE_CONFIG_FILE"@)) is Some || nonblank(
                    map_get(env@, "COMPANION_CORE_ENV_FILE"@),
                ) is Some),
                None => nonblank(map_get(env@, "COMPANION_CORE_CONFIG_FILE"@)) is None && nonblank(
                    map_get(env@, "COMPANION_CORE_ENV_FILE"@),
                ) is None,
            },
        },
{
    match candidates {
        Some(c) => Some(choose_config_source(env, c)),
        None => {
            if env.var("COMPANION_CORE_CONFIG_FILE").is_some() || env.var(
                "COMPANION_CORE_ENV_FILE",
            ).is_some() {
                let none = ConfigCandidates {
                    toml_path: String::new(),
                    toml_exists: false,
                    env_path: String::new(),
                    env_exists: false,
                };
                Some(choose_config_source(env, none))
            } else {
                None
            }
        },
    }
}

/// A config value: the process environment first, then the file; blank
/// values count as unset in both.
pub open spec fn layered_value(
    env: Map<Seq<char>, Seq<char>>,
    file_value: Option<Seq<char>>,
    key: Seq<char>,
) -> Option<Seq<char>> {
    match nonblank(map_get(env, key)) {
        Some(v) => Some(v),
        None => nonblank(file_value),
    }
}

/// Stores `value` under `key` when there is one.
pub fn insert_config_value(values: &mut KeyValues, key: &str, value: Option<String>)
    ensures
        match value {
            Some(v) => final(values)@ == old(values)@.insert(key@, v@),
            None => final(values)@ == old(values)@,
        },
{
    if let Some(value) = value {
        values.insert(owned(key), value);
    }
}

/// Appends `(key, value)` to the pairs when there is a value.
pub fn insert_file_value(values: &mut Vec<(String, String)>, key: &str, value: Option<String>)
    ensures
        match value {
            Some(v) => pairs_view(final(values)@) == pairs_view(old(values)@).push((key@, v@)),
            None => final(values)@ == old(values)@,
        },
{
    if let Some(value) = value {
        let ghost before = pairs_view(values@);
        values.push((owned(key), value));
        assert(pairs_view(values@) =~= before.push((key@, value@)));
    }
}

/// The value of the first pair with key `key`.
pub fn find_first_value(values: &Vec<(String, String)>, key: &str) -> (r: Option<String>)
    ensures
        opt_view(r) == lookup_first(pairs_view(values@), key@),
{
    let k = owned(key);
    let ghost s = pairs_view(values@);
    let n = values.len();
    let mut i: usize = 0;
    assert(s.skip(0) =~= s);
    while i < n
        invariant
            i <= n,
            n == values@.len(),
            s == pairs_view(values@),
            k@ == key@,
            lookup_first(s, k@) == lookup_first(s.skip(i as int), k@),
        decreases n - i,
    {
        proof {
            let t = s.skip(i as int);
            assert(t[0] == s[i as int]);
            assert(t.drop_first() =~= s.skip(i + 1));
        }
        if values[i].0 == k {
            return Some(values[i].1.clone());
        }
        i = i + 1;
    }
    proof {
        assert(s.skip(n as int).len() == 0);
    }
    None
}

/// A value set in the process environment (and not blank) wins over the
/// config file.
pub proof fn lemma_environment_overrides_file(
    env: Map<Seq<char>, Seq<char>>,
    file_value: Option<Seq<char>>,
    key: Seq<char>,
)
    requires
        nonblank(map_get(env, key)) is Some,
    ensures
        layered_value(env, file_value, key) == map_get(env, key),
{
}

/// A variable that is unset or blank in the environment leaves the choice
/// to the config file, where a blank value counts as unset too.
pub proof fn lemma_blank_environment_falls_back(
    env: Map<Seq<char>, Seq<char>>,
    file_value: Option<Seq<char>>,
    key: Seq<char>,
)
    requires
        nonblank(map_get(env, key)) is None,
    ensures
        layered_value(env, file_value, key) == nonblank(file_value),
{
}

/// Quoting a value with matching quotes and unquoting it gives it back.
pub proof fn lemma_unquote_roundtrip(s: Seq<char>, q: char)
    requires
        q == '"' || q == '\'',
    ensures
        unquote(seq![q] + s + seq![q]) == s,
{
    let t = seq![q] + s + seq![q];
    assert(t[0] == q);
    assert(t.last() == q);
    assert(t.subrange(1, t.len() - 1) =~= s);
}

/// Pushing a key/value pair onto a set of entries overrides that key and
/// nothing else: the last pair with a key wins.
pub proof fn lemma_later_entry_wins(
    s: Seq<(Seq<char>, Seq<char>)>,
    k: Seq<char>,
    v: Seq<char>,
)
    ensures
        pairs_map(s.push((k, v))) == pairs_map(s).insert(k, v),
{
    assert(s.push((k, v)).drop_last() =~= s);
    assert(pairs_map(s.push((k, v))) =~= pairs_map(s).insert(k, v));
}

/// `split_lines` of a text followed by a line break and more text is the
/// lines of the first part followed by the lines of the second.
pub proof fn lemma_split_lines_concat(a: Seq<char>, b: Seq<char>)
    ensures
        split_lines(a + seq!['\n'] + b) == split_lines(a) + split_lines(b),
    decreases b.len(),
{
    lemma_split_lines_nonempty(a);
    lemma_split_lines_nonempty(b);
    if b.len() == 0 {
        let t = a + seq!['\n'];
        assert(t.drop_last() =~= a);
        assert(a + seq!['\n'] + b =~= t);
        assert(split_lines(b) == seq![Seq::<char>::empty()]);
        assert(split_lines(t) =~= split_lines(a) + split_lines(b));
    } else {
        let t = a + seq!['\n'] + b;
        assert(t.drop_last() =~= a + seq!['\n'] + b.drop_last());
        assert(t.last() == b.last());
        lemma_split_lines_concat(a, b.drop_last());
        lemma_split_lines_nonempty(b.drop_last());
        let la = split_lines(a);
        let lb = split_lines(b.drop_last());
        if b.last() == '\n' {
            assert(split_lines(t) =~= la + lb.push(Seq::<char>::empty()));
        } else {
            assert(split_lines(t) =~= la + lb.update(lb.len() - 1, lb.last().push(b.last())));
        }
    }
}

/// The entries of consecutive lines are the entries of each part in turn.
pub proof fn lemma_entries_of_lines_concat(x: Seq<Seq<char>>, y: Seq<Seq<char>>)
    ensures
        entries_of_lines(x + y) == entries_of_lines(x) + entries_of_lines(y),
    decreases y.len(),
{
    if y.len() == 0 {
        assert(x + y =~= x);
        assert(entries_of_lines(x) + entries_of_lines(y) =~= entries_of_lines(x));
    } else {
        assert((x + y).drop_last() =~= x + y.drop_last());
        assert((x + y).last() == y.last());
        lemma_entries_of_lines_concat(x, y.drop_last());
        match line_entry(y.last()) {
            Some(e) => {
                assert(entries_of_lines(x + y) =~= entries_of_lines(x) + entries_of_lines(y));
            },
            None => {},
        }
    }
}

/// Lines are read independently: the entries of two texts joined by a line
/// break are the entries of the first followed by those of the second.
pub proof fn lemma_env_entries_concat(a: Seq<char>, b: Seq<char>)
    ensures
        env_entries(a + seq!['\n'] + b) == env_entries(a) + env_entries(b),
{
    lemma_split_lines_concat(a, b);
    lemma_entries_of_lines_concat(split_lines(a), split_lines(b));
}

} // verus!
