//! The configuration of the bot, from the variables of its environment.

use vstd::prelude::*;
use crate::assoc::{find_name, get_key, get_name, has_key, key_pos, lemma_key_pos, lemma_key_pos_is};
use crate::text::{ascii_lowercase, ascii_lowered, cat2, char_pos, find_char, same, trim, trimmed};
use crate::words::{debug_quoted, debug_text, rest};

verus! {

/// How hard a model is to think.
#[derive(Debug, Clone, Copy, PartialEq, Eq, Structural)]
pub enum ReasoningEffort {
    Off,
    Minimal,
    Low,
    Medium,
    High,
    Xhigh,
}

/// Why there is no configuration.
#[derive(Debug)]
pub enum ConfigError {
    /// A variable that has to be set is not.
    Missing(String),
    /// The effort is none that exists.
    BadEffort(String),
}

/// Why there is no configuration.
pub enum ConfigErrorView {
    Missing(Seq<char>),
    BadEffort(Seq<char>),
}

impl DeepView for ConfigError {
    type V = ConfigErrorView;

    open spec fn deep_view(&self) -> ConfigErrorView {
        match *self {
            ConfigError::Missing(k) => ConfigErrorView::Missing(k@),
            ConfigError::BadEffort(w) => ConfigErrorView::BadEffort(w@),
        }
    }
}

impl ConfigErrorView {
    /// The message.
    pub open spec fn text(self) -> Seq<char> {
        match self {
            ConfigErrorView::Missing(k) => k + " is required"@,
            ConfigErrorView::BadEffort(w) =>
                "OPENAI_REASONING_EFFORT must be one of: none, minimal, low, medium, high, xhigh; got "@
                + debug_text(w),
        }
    }
}

impl ConfigError {
    /// The message.
    pub fn to_string(&self) -> (r: String)
        ensures
            r@ == self.deep_view().text(),
    {
        match self {
            ConfigError::Missing(k) => cat2(k.as_str(), " is required"),
            ConfigError::BadEffort(w) => cat2(
                "OPENAI_REASONING_EFFORT must be one of: none, minimal, low, medium, high, xhigh; got ",
                debug_quoted(w.as_str()).as_str(),
            ),
        }
    }
}

/// The effort that a word in lower case names.
pub open spec fn effort_named(w: Seq<char>) -> Option<ReasoningEffort> {
    if w == "none"@ {
        Some(ReasoningEffort::Off)
    } else if w == "minimal"@ {
        Some(ReasoningEffort::Minimal)
    } else if w == "low"@ {
        Some(ReasoningEffort::Low)
    } else if w == "medium"@ {
        Some(ReasoningEffort::Medium)
    } else if w == "high"@ {
        Some(ReasoningEffort::High)
    } else if w == "xhigh"@ {
        Some(ReasoningEffort::Xhigh)
    } else {
        None
    }
}

/// The effort that a text names, whatever the case and the white space around it.
pub open spec fn effort_in(value: Seq<char>) -> Result<ReasoningEffort, ConfigErrorView> {
    let w = ascii_lowered(trimmed(value));
    match effort_named(w) {
        Some(e) => Ok(e),
        None => Err(ConfigErrorView::BadEffort(w)),
    }
}

/// The view of a result with a configuration error.
pub open spec fn seen_result<T>(r: Result<T, ConfigError>) -> Result<T, ConfigErrorView> {
    match r {
        Ok(x) => Ok(x),
        Err(e) => Err(e.deep_view()),
    }
}

/// The effort that a text names, whatever the case and the white space around it.
pub fn parse_reasoning_effort(value: &str) -> (r: Result<ReasoningEffort, ConfigError>)
    ensures
        seen_result(r) == effort_in(value@),
{
    let word = ascii_lowercase(trim(value));
    let w = word.as_str();
    if same(w, "none") {
        Ok(ReasoningEffort::Off)
    } else if same(w, "minimal") {
        Ok(ReasoningEffort::Minimal)
    } else if same(w, "low") {
        Ok(ReasoningEffort::Low)
    } else if same(w, "medium") {
        Ok(ReasoningEffort::Medium)
    } else if same(w, "high") {
        Ok(ReasoningEffort::High)
    } else if same(w, "xhigh") {
        Ok(ReasoningEffort::Xhigh)
    } else {
        Err(ConfigError::BadEffort(word))
    }
}

/// The configuration of the bot.
#[derive(Debug)]
pub struct Config {
    pub app_id: String,
    pub app_secret: String,
    pub bind_addr: String,
    pub allowed_chat_id: Option<String>,
    pub verification_token: Option<String>,
    /// Without a key no AI can be added.
    pub openai_api_key: Option<String>,
    pub openai_base_url: String,
    pub openai_model: String,
    pub openai_reasoning_effort: ReasoningEffort,
    /// The file with the stored games.
    pub db_path: String,
}

/// The configuration of the bot.
pub struct ConfigView {
    pub app_id: Seq<char>,
    pub app_secret: Seq<char>,
    pub bind_addr: Seq<char>,
    pub allowed_chat_id: Option<Seq<char>>,
    pub verification_token: Option<Seq<char>>,
    pub openai_api_key: Option<Seq<char>>,
    pub openai_base_url: Seq<char>,
    pub openai_model: Seq<char>,
    pub openai_reasoning_effort: ReasoningEffort,
    pub db_path: Seq<char>,
}

impl View for Config {
    type V = ConfigView;

    open spec fn view(&self) -> ConfigView {
        ConfigView {
            app_id: self.app_id@,
            app_secret: self.app_secret@,
            bind_addr: self.bind_addr@,
            allowed_chat_id: self.allowed_chat_id.deep_view(),
            verification_token: self.verification_token.deep_view(),
            openai_api_key: self.openai_api_key.deep_view(),
            openai_base_url: self.openai_base_url@,
            openai_model: self.openai_model@,
            openai_reasoning_effort: self.openai_reasoning_effort,
            db_path: self.db_path@,
        }
    }
}

/// The variables of an environment.
pub type Vars = Seq<(Seq<char>, Seq<char>)>;

/// A variable that is set to something.
pub open spec fn set_var(vars: Vars, k: Seq<char>) -> Option<Seq<char>> {
    match get_key(vars, k) {
        Some(v) => if v.len() > 0 {
            Some(v)
        } else {
            None
        },
        None => None,
    }
}

/// A value, or a default.
pub open spec fn or_default(v: Option<Seq<char>>, d: Seq<char>) -> Seq<char> {
    match v {
        Some(s) => s,
        None => d,
    }
}

/// The configuration that variables give.
pub open spec fn configured(vars: Vars) -> Result<ConfigView, ConfigErrorView> {
    match get_key(vars, "FEISHU_APP_ID"@) {
        None => Err(ConfigErrorView::Missing("FEISHU_APP_ID"@)),
        Some(app_id) => match get_key(vars, "FEISHU_APP_SECRET"@) {
            None => Err(ConfigErrorView::Missing("FEISHU_APP_SECRET"@)),
            Some(app_secret) => match effort_in(
                or_default(set_var(vars, "OPENAI_REASONING_EFFORT"@), "xhigh"@),
            ) {
                Err(e) => Err(e),
                Ok(effort) => Ok(
                    ConfigView {
                        app_id,
                        app_secret,
                        bind_addr: or_default(get_key(vars, "BIND_ADDR"@), "0.0.0.0:8080"@),
                        allowed_chat_id: set_var(vars, "ALLOWED_CHAT_ID"@),
                        verification_token: set_var(vars, "FEISHU_VERIFICATION_TOKEN"@),
                        openai_api_key: set_var(vars, "OPENAI_API_KEY"@),
                        openai_base_url: or_default(
                            set_var(vars, "OPENAI_BASE_URL"@),
                            "https://api.deepseek.com"@,
                        ),
                        openai_model: or_default(
                            set_var(vars, "OPENAI_MODEL"@),
                            "deepseek-v4-flash"@,
                        ),
                        openai_reasoning_effort: effort,
                        db_path: or_default(set_var(vars, "LARK_ARENA_DB_PATH"@), "arena.redb"@),
                    },
                ),
            },
        },
    }
}

/// The view of a configuration, or why there is none.
pub open spec fn config_of(r: Result<Config, ConfigError>) -> Result<ConfigView, ConfigErrorView> {
    match r {
        Ok(c) => Ok(c@),
        Err(e) => Err(e.deep_view()),
    }
}

/// A variable.
fn env_var(vars: &Vec<(String, String)>, k: &str) -> (r: Option<String>)
    ensures
        r.deep_view() == get_key(vars.deep_view(), k@),
{
    match get_name(vars, k) {
        Some(v) => Some(v.to_owned()),
        None => None,
    }
}

/// A variable that is set to something.
fn env_opt(vars: &Vec<(String, String)>, k: &str) -> (r: Option<String>)
    ensures
        r.deep_view() == set_var(vars.deep_view(), k@),
{
    match get_name(vars, k) {
        Some(v) => if v.is_empty() {
            None
        } else {
            Some(v.to_owned())
        },
        None => None,
    }
}

fn or_else(v: Option<String>, d: &str) -> (r: String)
    ensures
        r@ == or_default(v.deep_view(), d@),
{
    match v {
        Some(s) => s,
        None => d.to_owned(),
    }
}

impl Config {
    /// The configuration that the variables of an environment give.
    pub fn from_env(vars: &Vec<(String, String)>) -> (r: Result<Config, ConfigError>)
        ensures
            config_of(r) == configured(vars.deep_view()),
    {
        let app_id = match env_var(vars, "FEISHU_APP_ID") {
            Some(v) => v,
            None => {
                return Err(ConfigError::Missing("FEISHU_APP_ID".to_owned()));
            },
        };
        let app_secret = match env_var(vars, "FEISHU_APP_SECRET") {
            Some(v) => v,
            None => {
                return Err(ConfigError::Missing("FEISHU_APP_SECRET".to_owned()));
            },
        };
        let effort = or_else(env_opt(vars, "OPENAI_REASONING_EFFORT"), "xhigh");
        let openai_reasoning_effort = match parse_reasoning_effort(effort.as_str()) {
            Ok(e) => e,
            Err(e) => {
                return Err(e);
            },
        };
        Ok(
            Config {
                app_id,
                app_secret,
                bind_addr: or_else(env_var(vars, "BIND_ADDR"), "0.0.0.0:8080"),
                allowed_chat_id: env_opt(vars, "ALLOWED_CHAT_ID"),
                verification_token: env_opt(vars, "FEISHU_VERIFICATION_TOKEN"),
                openai_api_key: env_opt(vars, "OPENAI_API_KEY"),
                openai_base_url: or_else(
                    env_opt(vars, "OPENAI_BASE_URL"),
                    "https://api.deepseek.com",
                ),
                openai_model: or_else(env_opt(vars, "OPENAI_MODEL"), "deepseek-v4-flash"),
                openai_reasoning_effort,
                db_path: or_else(env_opt(vars, "LARK_ARENA_DB_PATH"), "arena.redb"),
            },
        )
    }
}

// ---- the file with variables ----

/// A text without the `c`s at its start.
pub open spec fn stripped_start(s: Seq<char>, c: char) -> Seq<char>
    decreases s.len(),
{
    if s.len() > 0 && s[0] == c {
        stripped_start(rest(s, 1), c)
    } else {
        s
    }
}

/// A text without the `c`s at its end.
pub open spec fn stripped_end(s: Seq<char>, c: char) -> Seq<char>
    decreases s.len(),
{
    if s.len() > 0 && s.last() == c {
        stripped_end(s.drop_last(), c)
    } else {
        s
    }
}

/// A text without the `c`s at both ends.
pub open spec fn stripped(s: Seq<char>, c: char) -> Seq<char> {
    stripped_end(stripped_start(s, c), c)
}

/// What a line sets: a key and a value without quotation marks. Empty lines, comments and
/// lines without an equals sign set nothing.
pub open spec fn line_sets(line: Seq<char>) -> Option<(Seq<char>, Seq<char>)> {
    let t = trimmed(line);
    let p = char_pos(t, '=');
    if t.len() == 0 || t[0] == '#' || p >= t.len() {
        None
    } else {
        Some(
            (
                trimmed(t.subrange(0, p)),
                stripped(stripped(trimmed(rest(t, p + 1)), '"'), '\''),
            ),
        )
    }
}

/// The variables with what a line sets, unless it is set already.
pub open spec fn with_line(vars: Vars, line: Seq<char>) -> Vars {
    match line_sets(line) {
        Some(p) => if has_key(vars, p.0) {
            vars
        } else {
            vars.push(p)
        },
        None => vars,
    }
}

/// The variables with what the lines of a text set, unless it is set already.
pub open spec fn with_lines(vars: Vars, s: Seq<char>) -> Vars
    decreases s.len(),
{
    let p = char_pos(s, '\n');
    if 0 <= p < s.len() {
        with_lines(with_line(vars, s.subrange(0, p)), rest(s, p + 1))
    } else {
        with_line(vars, s)
    }
}

fn strip<'a>(s: &'a str, c: char) -> (r: &'a str)
    ensures
        r@ == stripped(s@, c),
{
    let n: usize = s.unicode_len();
    let mut i: usize = 0;
    assert(rest(s@, 0) =~= s@);
    while i < n && s.get_char(i) == c
        invariant
            n == s@.len(),
            i <= n,
            stripped_start(s@, c) == stripped_start(rest(s@, i as int), c),
        decreases n - i,
    {
        assert(rest(rest(s@, i as int), 1) =~= rest(s@, i + 1));
        i = i + 1;
    }
    let t = s.substring_char(i, n);
    let mut j: usize = t.unicode_len();
    assert(t@.subrange(0, j as int) =~= t@);
    while j > 0 && t.get_char(j - 1) == c
        invariant
            j <= t@.len(),
            stripped_end(t@, c) == stripped_end(t@.subrange(0, j as int), c),
        decreases j,
    {
        assert(t@.subrange(0, j as int).drop_last() =~= t@.subrange(0, j - 1));
        j = j - 1;
    }
    t.substring_char(0, j)
}

fn set_from_line(vars: &mut Vec<(String, String)>, line: &str)
    ensures
        final(vars).deep_view() == with_line(old(vars).deep_view(), line@),
{
    let ghost before = vars.deep_view();
    let t = trim(line);
    let n: usize = t.unicode_len();
    if n == 0 || t.get_char(0) == '#' {
        return;
    }
    let p: usize = find_char(t, '=');
    if p >= n {
        return;
    }
    let key = trim(t.substring_char(0, p));
    let value = strip(strip(trim(t.substring_char(p + 1, n)), '"'), '\'');
    if find_name(vars, key) >= vars.len() {
        vars.push((key.to_owned(), value.to_owned()));
        assert(vars.deep_view() =~= before.push((key@, value@)));
    }
}

/// Adds what the lines of a file set to the variables, unless it is set already.
pub fn load_dotenv(vars: &mut Vec<(String, String)>, contents: &str)
    ensures
        final(vars).deep_view() == with_lines(old(vars).deep_view(), contents@),
{
    let n: usize = contents.unicode_len();
    let ghost whole = with_lines(vars.deep_view(), contents@);
    let mut i: usize = 0;
    assert(rest(contents@, 0) =~= contents@);
    loop
        invariant
            n == contents@.len(),
            i <= n,
            whole == with_lines(old(vars).deep_view(), contents@),
            with_lines(vars.deep_view(), rest(contents@, i as int)) == whole,
        decreases n - i,
    {
        let tail = contents.substring_char(i, n);
        let m: usize = tail.unicode_len();
        let p: usize = find_char(tail, '\n');
        if p >= m {
            set_from_line(vars, tail);
            return;
        }
        set_from_line(vars, tail.substring_char(0, p));
        assert(rest(tail@, p + 1) =~= rest(contents@, i + p + 1));
        i = i + p + 1;
    }
}

proof fn lemma_line_keeps(vars: Vars, line: Seq<char>, k: Seq<char>)
    requires
        has_key(vars, k),
    ensures
        get_key(with_line(vars, line), k) == get_key(vars, k),
        has_key(with_line(vars, line), k),
{
    if let Some(p) = line_sets(line) {
        if !has_key(vars, p.0) {
            lemma_key_pos(vars, k);
            let t = vars.push(p);
            lemma_key_pos_is(t, k, key_pos(vars, k));
        }
    }
}

/// The file never overrides a variable that is set: what is set keeps its value.
pub proof fn law_set_variables_win(vars: Vars, s: Seq<char>, k: Seq<char>)
    requires
        has_key(vars, k),
    ensures
        get_key(with_lines(vars, s), k) == get_key(vars, k),
    decreases s.len(),
{
    let p = char_pos(s, '\n');
    if 0 <= p < s.len() {
        lemma_line_keeps(vars, s.subrange(0, p), k);
        law_set_variables_win(with_line(vars, s.subrange(0, p)), rest(s, p + 1), k);
    } else {
        lemma_line_keeps(vars, s, k);
    }
}

} // verus!
