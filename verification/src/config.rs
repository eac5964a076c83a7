//! The settings the workflow runs with, and the loader that reads them from
//! the text of the settings document (or produces the first-run template).

use vstd::prelude::*;
use vstd::string::*;

verus! {

/// The settings the workflow runs with: where the remote-control server
/// listens, where the router's admin console lives, and the credential typed
/// into the login form.
pub struct Config {
    pub selenium_url: String,
    pub router_url: String,
    pub password: String,
}

/// Mathematical image of a `Config`: its three fields as character sequences.
pub struct ConfigModel {
    pub selenium_url: Seq<char>,
    pub router_url: Seq<char>,
    pub password: Seq<char>,
}

impl View for Config {
    type V = ConfigModel;

    open spec fn view(&self) -> ConfigModel {
        ConfigModel {
            selenium_url: self.selenium_url@,
            router_url: self.router_url@,
            password: self.password@,
        }
    }
}

/// The control-server endpoint used when the document does not name one.
pub open spec fn spec_default_selenium_url() -> Seq<char> {
    "http://localhost:9515"@
}

/// The router endpoint used when the document does not name one.
pub open spec fn spec_default_router_url() -> Seq<char> {
    "http://192.168.0.1/"@
}

/// The placeholder credential written into the first-run template.
pub open spec fn spec_placeholder_password() -> Seq<char> {
    "CHANGE-ME"@
}

pub fn default_selenium_url() -> (r: String)
    ensures
        r@ == spec_default_selenium_url(),
{
    String::from_str("http://localhost:9515")
}

pub fn default_router_url() -> (r: String)
    ensures
        r@ == spec_default_router_url(),
{
    String::from_str("http://192.168.0.1/")
}

/// The exact text of the settings document written on first run: the two
/// default endpoints and the placeholder credential.
pub open spec fn spec_template_document() -> Seq<char> {
    "(\n    selenium_url: \"http://localhost:9515\",\n    router_url: \"http://192.168.0.1/\",\n    password: \"CHANGE-ME\",\n)\n"@
}

impl Config {
    /// The settings a first run starts from: default endpoints, placeholder
    /// credential.
    pub fn template_config() -> (r: Config)
        ensures
            r@.selenium_url == spec_default_selenium_url(),
            r@.router_url == spec_default_router_url(),
            r@.password == spec_placeholder_password(),
    {
        Config {
            selenium_url: default_selenium_url(),
            router_url: default_router_url(),
            password: String::from_str("CHANGE-ME"),
        }
    }
}

/// The template document as an owned string, for the caller that must write
/// it out on first run.
pub fn template_document() -> (r: String)
    ensures
        r@ == spec_template_document(),
{
    String::from_str(
        "(\n    selenium_url: \"http://localhost:9515\",\n    router_url: \"http://192.168.0.1/\",\n    password: \"CHANGE-ME\",\n)\n",
    )
}

/// The three keys a settings document may carry.
#[derive(Clone, Copy, PartialEq, Eq, Structural, Debug)]
pub enum FieldName {
    SeleniumUrl,
    RouterUrl,
    Password,
}

pub open spec fn spec_is_ws(c: char) -> bool {
    c == ' ' || c == '\t' || c == '\n' || c == '\r'
}

/// The first index at or after `i` that does not hold whitespace.
pub open spec fn spec_skip_ws(s: Seq<char>, i: nat) -> nat
    decreases s.len() - i,
{
    if i < s.len() && spec_is_ws(s[i as int]) {
        spec_skip_ws(s, i + 1)
    } else {
        i
    }
}

/// The index of the closing quote at or after `i`, if any.
pub open spec fn spec_scan_string_end(s: Seq<char>, i: nat) -> Option<nat>
    decreases s.len() - i,
{
    if i >= s.len() {
        Option::None
    } else if s[i as int] == '"' {
        Option::Some(i)
    } else {
        spec_scan_string_end(s, i + 1)
    }
}

/// Whether `lit` occurs in `s` starting exactly at `i`.
pub open spec fn spec_match_at(s: Seq<char>, i: nat, lit: Seq<char>) -> bool {
    i + lit.len() <= s.len() && s.subrange(i as int, (i + lit.len()) as int) == lit
}

/// One `key: "value"` field starting at `i` (whitespace already skipped):
/// which key, the value between the quotes, and the index just past the
/// closing quote.
pub open spec fn spec_parse_field(s: Seq<char>, i: nat) -> Option<(FieldName, Seq<char>, nat)> {
    if spec_match_at(s, i, "selenium_url"@) {
        spec_parse_value(s, i + "selenium_url"@.len(), FieldName::SeleniumUrl)
    } else if spec_match_at(s, i, "router_url"@) {
        spec_parse_value(s, i + "router_url"@.len(), FieldName::RouterUrl)
    } else if spec_match_at(s, i, "password"@) {
        spec_parse_value(s, i + "password"@.len(), FieldName::Password)
    } else {
        Option::None
    }
}

/// The `: "value"` part of a field.
pub open spec fn spec_parse_value(s: Seq<char>, i: nat, which: FieldName) -> Option<
    (FieldName, Seq<char>, nat),
> {
    let j = spec_skip_ws(s, i);
    if j < s.len() && s[j as int] == ':' {
        let k = spec_skip_ws(s, j + 1);
        if k < s.len() && s[k as int] == '"' {
            match spec_scan_string_end(s, k + 1) {
                Option::Some(e) => Option::Some(
                    (which, s.subrange((k + 1) as int, e as int), e + 1),
                ),
                Option::None => Option::None,
            }
        } else {
            Option::None
        }
    } else {
        Option::None
    }
}

/// The end of the document: nothing but trailing whitespace may follow, the
/// credential must be present and non-empty, and absent endpoints take
/// their defaults.
pub open spec fn spec_finish(
    s: Seq<char>,
    i: nat,
    sel: Option<Seq<char>>,
    rou: Option<Seq<char>>,
    pwd: Option<Seq<char>>,
) -> Option<ConfigModel> {
    if spec_skip_ws(s, i) == s.len() {
        match pwd {
            Option::Some(p) => if p.len() > 0 {
                Option::Some(
                    ConfigModel {
                        selenium_url: match sel {
                            Option::Some(v) => v,
                            Option::None => spec_default_selenium_url(),
                        },
                        router_url: match rou {
                            Option::Some(v) => v,
                            Option::None => spec_default_router_url(),
                        },
                        password: p,
                    },
                )
            } else {
                Option::None
            },
            Option::None => Option::None,
        }
    } else {
        Option::None
    }
}

/// The field list after the opening parenthesis: comma-separated fields,
/// a trailing comma allowed, each key at most once. Three distinct keys
/// exist and a repeated key is rejected, so the fuel of 4 never runs out.
pub open spec fn spec_parse_fields(
    s: Seq<char>,
    i: nat,
    sel: Option<Seq<char>>,
    rou: Option<Seq<char>>,
    pwd: Option<Seq<char>>,
    fuel: nat,
) -> Option<ConfigModel>
    decreases fuel,
{
    if fuel == 0 {
        Option::None
    } else {
        let j = spec_skip_ws(s, i);
        if j < s.len() && s[j as int] == ')' {
            spec_finish(s, j + 1, sel, rou, pwd)
        } else {
            match spec_parse_field(s, j) {
                Option::None => Option::None,
                Option::Some((which, v, e)) => {
                    if (which is SeleniumUrl && sel is Some) || (which is RouterUrl
                        && rou is Some) || (which is Password && pwd is Some) {
                        Option::None
                    } else {
                        let sel2 = if which is SeleniumUrl {
                            Option::Some(v)
                        } else {
                            sel
                        };
                        let rou2 = if which is RouterUrl {
                            Option::Some(v)
                        } else {
                            rou
                        };
                        let pwd2 = if which is Password {
                            Option::Some(v)
                        } else {
                            pwd
                        };
                        let k = spec_skip_ws(s, e);
                        if k < s.len() && s[k as int] == ',' {
                            spec_parse_fields(s, k + 1, sel2, rou2, pwd2, (fuel - 1) as nat)
                        } else if k < s.len() && s[k as int] == ')' {
                            spec_finish(s, k + 1, sel2, rou2, pwd2)
                        } else {
                            Option::None
                        }
                    }
                },
            }
        }
    }
}

/// What a settings document means: the parenthesized field list with
/// nothing but whitespace around it, or nothing at all.
pub open spec fn spec_parse(s: Seq<char>) -> Option<ConfigModel> {
    let i = spec_skip_ws(s, 0);
    if i < s.len() && s[i as int] == '(' {
        spec_parse_fields(s, i + 1, Option::None, Option::None, Option::None, 4)
    } else {
        Option::None
    }
}

/// Every configuration the document grammar accepts carries a non-empty
/// credential.
pub proof fn lemma_parse_fields_password_nonempty(
    s: Seq<char>,
    i: nat,
    sel: Option<Seq<char>>,
    rou: Option<Seq<char>>,
    pwd: Option<Seq<char>>,
    fuel: nat,
)
    ensures
        spec_parse_fields(s, i, sel, rou, pwd, fuel) matches Some(c) ==> c.password.len() > 0,
    decreases fuel,
{
    if fuel > 0 {
        let j = spec_skip_ws(s, i);
        if !(j < s.len() && s[j as int] == ')') {
            match spec_parse_field(s, j) {
                Option::Some((which, v, e)) => {
                    let sel2 = if which is SeleniumUrl {
                        Option::Some(v)
                    } else {
                        sel
                    };
                    let rou2 = if which is RouterUrl {
                        Option::Some(v)
                    } else {
                        rou
                    };
                    let pwd2 = if which is Password {
                        Option::Some(v)
                    } else {
                        pwd
                    };
                    let k = spec_skip_ws(s, e);
                    lemma_parse_fields_password_nonempty(
                        s,
                        k + 1,
                        sel2,
                        rou2,
                        pwd2,
                        (fuel - 1) as nat,
                    );
                },
                Option::None => {},
            }
        }
    }
}

fn skip_ws(s: &str, len: usize, i: usize) -> (r: usize)
    requires
        len == s@.len(),
        i <= len,
    ensures
        r as nat == spec_skip_ws(s@, i as nat),
        i <= r <= len,
    decreases len - i,
{
    if i < len {
        let c = s.get_char(i);
        if c == ' ' || c == '\t' || c == '\n' || c == '\r' {
            return skip_ws(s, len, i + 1);
        }
    }
    i
}

fn scan_string_end(s: &str, len: usize, i: usize) -> (r: Option<usize>)
    requires
        len == s@.len(),
        i <= len,
    ensures
        match r {
            Option::None => spec_scan_string_end(s@, i as nat) is None,
            Option::Some(e) => spec_scan_string_end(s@, i as nat) == Option::Some(e as nat) && i
                <= e < len,
        },
    decreases len - i,
{
    if i >= len {
        None
    } else if s.get_char(i) == '"' {
        Some(i)
    } else {
        scan_string_end(s, len, i + 1)
    }
}

fn match_at(s: &str, len: usize, i: usize, lit: &str) -> (r: bool)
    requires
        len == s@.len(),
        i <= len,
    ensures
        r == spec_match_at(s@, i as nat, lit@),
{
    let n = lit.unicode_len();
    if n > len - i {
        return false;
    }
    let mut j: usize = 0;
    while j < n
        invariant
            len == s@.len(),
            i <= len,
            n == lit@.len(),
            i + n <= len,
            j <= n,
            forall|k: int| 0 <= k < j ==> s@[i + k] == lit@[k],
        decreases n - j,
    {
        if s.get_char(i + j) != lit.get_char(j) {
            proof {
                if spec_match_at(s@, i as nat, lit@) {
                    assert(s@.subrange(i as int, i + n)[j as int] == s@[i + j]);
                    assert(false);
                }
            }
            return false;
        }
        j += 1;
    }
    proof {
        assert(s@.subrange(i as int, i + n) =~= lit@);
    }
    true
}

/// The image of an exec field-parse result.
pub open spec fn field_image(r: Option<(FieldName, String, usize)>) -> Option<
    (FieldName, Seq<char>, nat),
> {
    match r {
        Option::None => Option::None,
        Option::Some((w, v, e)) => Option::Some((w, v@, e as nat)),
    }
}

fn parse_value(s: &str, len: usize, i: usize, which: FieldName) -> (r: Option<
    (FieldName, String, usize),
>)
    requires
        len == s@.len(),
        i <= len,
    ensures
        field_image(r) == spec_parse_value(s@, i as nat, which),
        r matches Some(t) ==> t.2 <= len,
{
    let j = skip_ws(s, len, i);
    if j < len && s.get_char(j) == ':' {
        let k = skip_ws(s, len, j + 1);
        if k < len && s.get_char(k) == '"' {
            match scan_string_end(s, len, k + 1) {
                Some(e) => {
                    let v = String::from_str(s.substring_char(k + 1, e));
                    Some((which, v, e + 1))
                },
                None => None,
            }
        } else {
            None
        }
    } else {
        None
    }
}

fn parse_field(s: &str, len: usize, i: usize) -> (r: Option<(FieldName, String, usize)>)
    requires
        len == s@.len(),
        i <= len,
    ensures
        field_image(r) == spec_parse_field(s@, i as nat),
        r matches Some(t) ==> t.2 <= len,
{
    if match_at(s, len, i, "selenium_url") {
        let l = "selenium_url".unicode_len();
        parse_value(s, len, i + l, FieldName::SeleniumUrl)
    } else if match_at(s, len, i, "router_url") {
        let l = "router_url".unicode_len();
        parse_value(s, len, i + l, FieldName::RouterUrl)
    } else if match_at(s, len, i, "password") {
        let l = "password".unicode_len();
        parse_value(s, len, i + l, FieldName::Password)
    } else {
        None
    }
}

/// The image of an exec option of text.
pub open spec fn text_image(o: Option<String>) -> Option<Seq<char>> {
    match o {
        Option::None => Option::None,
        Option::Some(v) => Option::Some(v@),
    }
}

/// The image of an exec parse result.
pub open spec fn config_image(r: Option<Config>) -> Option<ConfigModel> {
    match r {
        Option::None => Option::None,
        Option::Some(c) => Option::Some(c@),
    }
}

fn finish(
    s: &str,
    len: usize,
    i: usize,
    sel: Option<String>,
    rou: Option<String>,
    pwd: Option<String>,
) -> (r: Option<Config>)
    requires
        len == s@.len(),
        i <= len,
    ensures
        config_image(r) == spec_finish(s@, i as nat, text_image(sel), text_image(rou), text_image(pwd)),
{
    let j = skip_ws(s, len, i);
    if j == len {
        match pwd {
            Some(p) => {
                if !p.as_str().is_empty() {
                    let selenium_url = match sel {
                        Some(x) => x,
                        None => default_selenium_url(),
                    };
                    let router_url = match rou {
                        Some(x) => x,
                        None => default_router_url(),
                    };
                    Some(Config { selenium_url, router_url, password: p })
                } else {
                    None
                }
            },
            None => None,
        }
    } else {
        None
    }
}

fn parse_fields(
    s: &str,
    len: usize,
    i: usize,
    sel: Option<String>,
    rou: Option<String>,
    pwd: Option<String>,
    fuel: u8,
) -> (r: Option<Config>)
    requires
        len == s@.len(),
        i <= len,
    ensures
        config_image(r) == spec_parse_fields(
            s@,
            i as nat,
            text_image(sel),
            text_image(rou),
            text_image(pwd),
            fuel as nat,
        ),
    decreases fuel,
{
    if fuel == 0 {
        return None;
    }
    let j = skip_ws(s, len, i);
    if j < len && s.get_char(j) == ')' {
        return finish(s, len, j + 1, sel, rou, pwd);
    }
    match parse_field(s, len, j) {
        None => None,
        Some((which, v, e)) => {
            let dup = match which {
                FieldName::SeleniumUrl => sel.is_some(),
                FieldName::RouterUrl => rou.is_some(),
                FieldName::Password => pwd.is_some(),
            };
            if dup {
                return None;
            }
            let (sel2, rou2, pwd2) = match which {
                FieldName::SeleniumUrl => (Some(v), rou, pwd),
                FieldName::RouterUrl => (sel, Some(v), pwd),
                FieldName::Password => (sel, rou, Some(v)),
            };
            let k = skip_ws(s, len, e);
            if k < len && s.get_char(k) == ',' {
                parse_fields(s, len, k + 1, sel2, rou2, pwd2, fuel - 1)
            } else if k < len && s.get_char(k) == ')' {
                finish(s, len, k + 1, sel2, rou2, pwd2)
            } else {
                None
            }
        },
    }
}

/// Parse the text of a settings document.
pub fn parse_document(s: &str) -> (r: Option<Config>)
    ensures
        config_image(r) == spec_parse(s@),
{
    let len = s.unicode_len();
    let i = skip_ws(s, len, 0);
    if i < len && s.get_char(i) == '(' {
        parse_fields(s, len, i + 1, None, None, None, 4)
    } else {
        None
    }
}

/// Why the settings could not be loaded. A missing document is the benign
/// first-run condition and carries the template the caller must write out;
/// a present but unreadable document is a parse failure the user must fix.
#[derive(Debug)]
pub enum ConfigLoadError {
    FirstRun { template: String },
    Malformed,
}

impl Config {
    /// Load the settings from the document text, or from its absence.
    ///
    /// Only the first-run outcome asks the caller to write anything, so an
    /// existing document is never overwritten; a loaded configuration always
    /// carries a non-empty credential.
    pub fn load(resource: Option<&str>) -> (r: Result<Config, ConfigLoadError>)
        ensures
            match resource {
                Option::None => r matches Err(ConfigLoadError::FirstRun { template })
                    && template@ == spec_template_document(),
                Option::Some(s) => match spec_parse(s@) {
                    Option::Some(c) => r matches Ok(cfg) && cfg@ == c,
                    Option::None => r matches Err(e) && e is Malformed,
                },
            },
            r matches Ok(cfg) ==> cfg@.password.len() > 0,
            (r matches Err(e) && e is FirstRun) <==> resource is None,
    {
        match resource {
            None => Err(ConfigLoadError::FirstRun { template: template_document() }),
            Some(s) => match parse_document(s) {
                Some(cfg) => {
                    proof {
                        let i = spec_skip_ws(s@, 0);
                        lemma_parse_fields_password_nonempty(
                            s@,
                            i + 1,
                            Option::None,
                            Option::None,
                            Option::None,
                            4,
                        );
                    }
                    Ok(cfg)
                },
                None => Err(ConfigLoadError::Malformed),
            },
        }
    }
}

} // verus!
