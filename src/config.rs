use vstd::prelude::*;
use vstd::string::*;
use crate::text::{lemma_next_index, line_end_at, next_index, same_text, skip_chars, trim, trimmed};

verus! {

/// Where and how to reach the chat-completion endpoint.
pub struct Config {
    pub api_key: String,
    pub api_url: String,
    pub model: String,
}

pub struct ConfigModel {
    pub api_key: Seq<char>,
    pub api_url: Seq<char>,
    pub model: Seq<char>,
}

impl View for Config {
    type V = ConfigModel;

    open spec fn view(&self) -> ConfigModel {
        ConfigModel { api_key: self.api_key@, api_url: self.api_url@, model: self.model@ }
    }
}

pub open spec fn default_config() -> ConfigModel {
    ConfigModel {
        api_key: "sk-aicmd"@,
        api_url: "http://127.0.0.1:7888/proxy/direct/aigc/chat/completions"@,
        model: "deepseek-chat"@,
    }
}

/// The settings after one line of a config file: `KEY=VALUE`, with white space round
/// the key and the value ignored. Blank lines, lines starting with `#`, lines without
/// `=` and unknown keys change nothing.
pub open spec fn config_line_step(m: ConfigModel, line: Seq<char>) -> ConfigModel {
    let t = trimmed(line);
    let k = next_index(t, '=', 0);
    if t.len() == 0 || t[0] == '#' || k >= t.len() {
        m
    } else {
        let key = trimmed(t.subrange(0, k));
        let value = trimmed(t.subrange(k + 1, t.len() as int));
        if key == "API_KEY"@ {
            ConfigModel { api_key: value, ..m }
        } else if key == "API_URL"@ {
            ConfigModel { api_url: value, ..m }
        } else if key == "MODEL"@ {
            ConfigModel { model: value, ..m }
        } else {
            m
        }
    }
}

/// The settings after the lines of `s` from position `i` on, applied in order.
pub open spec fn config_lines_from(m: ConfigModel, s: Seq<char>, i: int) -> ConfigModel
    decreases s.len() + 1 - i,
    via config_lines_from_decreases
{
    if i >= s.len() {
        m
    } else {
        let e = next_index(s, '\n', i);
        config_lines_from(config_line_step(m, s.subrange(i, e)), s, e + 1)
    }
}

#[via_fn]
proof fn config_lines_from_decreases(m: ConfigModel, s: Seq<char>, i: int) {
    lemma_next_index(s, '\n', i);
}

/// The settings that the text of a config file gives, over `base`.
pub open spec fn config_from_text(base: ConfigModel, text: Seq<char>) -> ConfigModel {
    config_lines_from(base, text, 0)
}

pub open spec fn view_or(o: Option<String>, d: Seq<char>) -> Seq<char> {
    match o {
        Some(s) => s@,
        None => d,
    }
}

/// Defaults, then the config file where there is one, then each environment variable
/// that is set.
pub open spec fn resolved_config(
    file: Option<Seq<char>>,
    env_api_key: Option<String>,
    env_api_url: Option<String>,
    env_model: Option<String>,
) -> ConfigModel {
    let f = match file {
        Some(t) => config_from_text(default_config(), t),
        None => default_config(),
    };
    ConfigModel {
        api_key: view_or(env_api_key, f.api_key),
        api_url: view_or(env_api_url, f.api_url),
        model: view_or(env_model, f.model),
    }
}

impl Config {
    pub fn defaults() -> (r: Config)
        ensures
            r@ == default_config(),
    {
        Config {
            api_key: String::from_str("sk-aicmd"),
            api_url: String::from_str("http://127.0.0.1:7888/proxy/direct/aigc/chat/completions"),
            model: String::from_str("deepseek-chat"),
        }
    }

    /// Applies one line of a config file.
    pub fn apply_line(&mut self, line: &str)
        ensures
            final(self)@ == config_line_step(old(self)@, line@),
    {
        let t = trim(line);
        let n = t.unicode_len();
        if n == 0 || t.get_char(0) == '#' {
            return;
        }
        proof {
            lemma_next_index(t@, '=', 0);
        }
        let mut k: usize = 0;
        while k < n && t.get_char(k) != '='
            invariant
                k <= n,
                n == t@.len(),
                next_index(t@, '=', k as int) == next_index(t@, '=', 0),
            decreases n - k,
        {
            k += 1;
        }
        if k >= n {
            return;
        }
        let key = trim(t.substring_char(0, k));
        let value = trim(skip_chars(t, k + 1));
        if same_text(key, "API_KEY") {
            self.api_key = String::from_str(value);
        } else if same_text(key, "API_URL") {
            self.api_url = String::from_str(value);
        } else if same_text(key, "MODEL") {
            self.model = String::from_str(value);
        }
    }

    /// Applies the lines of the text of a config file, in order.
    pub fn apply_text(&mut self, text: &str)
        ensures
            final(self)@ == config_from_text(old(self)@, text@),
    {
        let n = text.unicode_len();
        let mut i: usize = 0;
        while i < n
            invariant
                i <= n,
                n == text@.len(),
                config_lines_from(self@, text@, i as int) == config_from_text(old(self)@, text@),
            decreases n - i,
        {
            let e = line_end_at(text, n, i);
            let ghost before = self@;
            self.apply_line(text.substring_char(i, e));
            assert(config_lines_from(before, text@, i as int) == config_lines_from(
                self@,
                text@,
                e + 1,
            ));
            if e == n {
                assert(config_lines_from(self@, text@, e + 1) == self@);
                assert(config_lines_from(self@, text@, n as int) == self@);
                i = n;
            } else {
                i = e + 1;
            }
        }
    }

    /// The settings in force: defaults, overridden by the config file's text where there
    /// is a file, overridden in turn by each environment variable that is set.
    pub fn resolve(
        file: Option<&str>,
        env_api_key: Option<String>,
        env_api_url: Option<String>,
        env_model: Option<String>,
    ) -> (r: Config)
        ensures
            r@ == resolved_config(
                match file {
                    Some(t) => Some(t@),
                    None => None,
                },
                env_api_key,
                env_api_url,
                env_model,
            ),
    {
        let mut c = Config::defaults();
        match file {
            Some(t) => c.apply_text(t),
            None => {},
        }
        match env_api_key {
            Some(v) => c.api_key = v,
            None => {},
        }
        match env_api_url {
            Some(v) => c.api_url = v,
            None => {},
        }
        match env_model {
            Some(v) => c.model = v,
            None => {},
        }
        c
    }
}

/// An environment variable that is set wins over the config file, whatever the file
/// holds; where it is not set, the file's value stands.
pub proof fn environment_overrides_file(
    file: Seq<char>,
    env_api_key: Option<String>,
    env_api_url: Option<String>,
    env_model: Option<String>,
)
    ensures
        ({
            let r = resolved_config(Some(file), env_api_key, env_api_url, env_model);
            let f = config_from_text(default_config(), file);
            &&& r.api_key == (match env_api_key {
                Some(v) => v@,
                None => f.api_key,
            })
            &&& r.api_url == (match env_api_url {
                Some(v) => v@,
                None => f.api_url,
            })
            &&& r.model == (match env_model {
                Some(v) => v@,
                None => f.model,
            })
        }),
{
}

} // verus!
