//! The Dameng database: reading its connection options from a URL such as
//! `dm://host:port?schema=S&timeout=10`, and the check of its configuration.
use vstd::prelude::*;
use crate::base::error::DatabaseError;
use crate::base::server_config;
use crate::pool::db_manager::{DbRegister, check_server_config, missing_server_setting};
use crate::util::parse::{parse_bool, parse_bool_spec, parse_u32, parse_u32_spec};
use crate::util::text::{concat2, concat3, str_equal};

verus! {

/// The parts of a parsed URL that the connection options are read from.
pub struct ParsedUrl {
    pub scheme: String,
    pub host: Option<String>,
    pub port: Option<u16>,
    pub username: String,
    pub password: Option<String>,
    pub path: String,
    /// The decoded key/value pairs of the query, in order.
    pub query_pairs: Vec<(String, String)>,
}

/// The mathematical content of a `ParsedUrl`.
pub struct ParsedUrlView {
    pub scheme: Seq<char>,
    pub host: Option<Seq<char>>,
    pub port: Option<u16>,
    pub username: Seq<char>,
    pub password: Option<Seq<char>>,
    pub path: Seq<char>,
    pub query_pairs: Seq<(Seq<char>, Seq<char>)>,
}

/// The view of an optional text.
pub open spec fn opt_view(s: Option<String>) -> Option<Seq<char>> {
    match s {
        Some(t) => Some(t@),
        None => None,
    }
}

/// The views of text pairs.
pub open spec fn pair_views(pairs: Seq<(String, String)>) -> Seq<(Seq<char>, Seq<char>)> {
    pairs.map_values(|p: (String, String)| (p.0@, p.1@))
}

impl View for ParsedUrl {
    type V = ParsedUrlView;

    open spec fn view(&self) -> ParsedUrlView {
        ParsedUrlView {
            scheme: self.scheme@,
            host: opt_view(self.host),
            port: self.port,
            username: self.username@,
            password: opt_view(self.password),
            path: self.path@,
            query_pairs: pair_views(self.query_pairs@),
        }
    }
}

/// What `url::Url::parse` gives for a text: the parts read from the parsed
/// URL, or the text of its parse error.
pub uninterp spec fn url_parse(input: Seq<char>) -> Result<ParsedUrlView, Seq<char>>;

/// The view of what `parse_url` gives.
pub open spec fn parse_result_view(r: Result<ParsedUrl, String>) -> Result<ParsedUrlView, Seq<char>> {
    match r {
        Ok(p) => Ok(p@),
        Err(e) => Err(e@),
    }
}

/// `url::Url::parse`, with the scheme, host, port, user name, password,
/// path and decoded query pairs of the URL read out, or the text of the
/// error. The result is named by `url_parse` and nothing more of it is stated.
#[verifier::external_body]
fn parse_url(input: &str) -> (r: Result<ParsedUrl, String>)
    ensures
        parse_result_view(r) == url_parse(input@),
{
    match url::Url::parse(input) {
        Ok(u) => Ok(ParsedUrl {
            scheme: u.scheme().to_string(),
            host: u.host_str().map(|h| h.to_string()),
            port: u.port(),
            username: u.username().to_string(),
            password: u.password().map(|p| p.to_string()),
            path: u.path().to_string(),
            query_pairs: u.query_pairs().map(|(k, v)| (k.to_string(), v.to_string())).collect(),
        }),
        Err(e) => Err(e.to_string()),
    }
}

/// Whether `c` has the Unicode property White_Space (what
/// `char::is_whitespace` tests).
pub open spec fn is_white_space(c: char) -> bool {
    ||| ('\u{9}' <= c && c <= '\u{d}')
    ||| c == ' '
    ||| c == '\u{85}'
    ||| c == '\u{a0}'
    ||| c == '\u{1680}'
    ||| ('\u{2000}' <= c && c <= '\u{200a}')
    ||| c == '\u{2028}'
    ||| c == '\u{2029}'
    ||| c == '\u{202f}'
    ||| c == '\u{205f}'
    ||| c == '\u{3000}'
}

/// The text without its leading white space.
pub open spec fn trim_start_spec(s: Seq<char>) -> Seq<char>
    decreases s.len(),
{
    if s.len() > 0 && is_white_space(s[0]) {
        trim_start_spec(s.skip(1))
    } else {
        s
    }
}

/// The text without its trailing white space.
pub open spec fn trim_end_spec(s: Seq<char>) -> Seq<char>
    decreases s.len(),
{
    if s.len() > 0 && is_white_space(s.last()) {
        trim_end_spec(s.drop_last())
    } else {
        s
    }
}

/// The text without its leading and trailing white space.
pub open spec fn trimmed(s: Seq<char>) -> Seq<char> {
    trim_end_spec(trim_start_spec(s))
}

/// `str::trim`: the text without leading and trailing white space, white
/// space being the Unicode property White_Space, as std documents.
#[verifier::external_body]
fn str_trim(s: &str) -> (r: &str)
    ensures
        r@ == trimmed(s@),
{
    s.trim()
}

/// The options of a connection to a Dameng database.
pub struct ConnectionOptions {
    pub server: String,
    pub port: u16,
    pub username: String,
    pub password: String,
    pub schema: String,
    pub timeout: u32,
    pub use_tls: bool,
    pub additional_params: Vec<(String, String)>,
    pub driver: String,
}

/// The mathematical content of `ConnectionOptions`.
pub struct ConnectionOptionsView {
    pub server: Seq<char>,
    pub port: u16,
    pub username: Seq<char>,
    pub password: Seq<char>,
    pub schema: Seq<char>,
    pub timeout: u32,
    pub use_tls: bool,
    pub additional_params: Seq<(Seq<char>, Seq<char>)>,
    pub driver: Seq<char>,
}

impl View for ConnectionOptions {
    type V = ConnectionOptionsView;

    open spec fn view(&self) -> ConnectionOptionsView {
        ConnectionOptionsView {
            server: self.server@,
            port: self.port,
            username: self.username@,
            password: self.password@,
            schema: self.schema@,
            timeout: self.timeout,
            use_tls: self.use_tls,
            additional_params: pair_views(self.additional_params@),
            driver: self.driver@,
        }
    }
}

/// What the query of a URL sets: the schema, the timeout in seconds, the use
/// of TLS, the driver, and every other pair, in order.
pub struct QuerySettings {
    pub schema: Seq<char>,
    pub timeout: u32,
    pub use_tls: bool,
    pub driver: Seq<char>,
    pub additional: Seq<(Seq<char>, Seq<char>)>,
}

/// The settings read from the query pairs, each pair read in turn:
/// `schema` and `driver` set their value, `timeout` its number (30 where it
/// is not one), `useSSL` its boolean (false where it is not one), and any
/// other pair is kept as it stands. Before any pair: no schema, 30 seconds,
/// no TLS, the driver "DM".
pub open spec fn query_settings(pairs: Seq<(Seq<char>, Seq<char>)>) -> QuerySettings
    decreases pairs.len(),
{
    if pairs.len() == 0 {
        QuerySettings { schema: Seq::empty(), timeout: 30, use_tls: false, driver: "DM"@, additional: Seq::empty() }
    } else {
        let s = query_settings(pairs.drop_last());
        let (key, value) = pairs.last();
        if key == "schema"@ {
            QuerySettings { schema: value, ..s }
        } else if key == "timeout"@ {
            QuerySettings {
                timeout: match parse_u32_spec(value) {
                    Some(t) => t,
                    None => 30,
                },
                ..s
            }
        } else if key == "useSSL"@ {
            QuerySettings {
                use_tls: match parse_bool_spec(value) {
                    Some(b) => b,
                    None => false,
                },
                ..s
            }
        } else if key == "driver"@ {
            QuerySettings { driver: value, ..s }
        } else {
            QuerySettings { additional: s.additional.push((key, value)), ..s }
        }
    }
}

/// The connection options read from a parsed URL, or the message of the
/// error: the scheme must be "dm", and the host and the port must be given.
/// A user name without a password gives an empty password; without a user
/// name both are empty. Where the query sets no schema, a path longer than
/// "/" gives it.
pub open spec fn options_from(p: ParsedUrlView) -> Result<ConnectionOptionsView, Seq<char>> {
    if p.scheme != "dm"@ {
        Err("不支持的协议: "@ + p.scheme + ", 期望 'dm'"@)
    } else if p.host is None {
        Err("缺少 host"@)
    } else if p.port is None {
        Err("缺少端口"@)
    } else {
        let s = query_settings(p.query_pairs);
        Ok(ConnectionOptionsView {
            server: p.host->0,
            port: p.port->0,
            username: p.username,
            password: if p.username.len() == 0 {
                Seq::empty()
            } else {
                match p.password {
                    Some(w) => w,
                    None => Seq::empty(),
                }
            },
            schema: if s.schema.len() == 0 && p.path.len() > 1 {
                p.path.skip(1)
            } else {
                s.schema
            },
            timeout: s.timeout,
            use_tls: s.use_tls,
            additional_params: s.additional,
            driver: s.driver,
        })
    }
}

/// The text handed to the URL parser: a leading "// dm://" becomes
/// "dm://", and a leading "//" not followed by "dm://" becomes "dm://".
pub open spec fn cleaned_url(t: Seq<char>) -> Seq<char> {
    if "// dm://"@.is_prefix_of(t) {
        "dm://"@ + t.skip(8)
    } else if "//"@.is_prefix_of(t) && !"//dm://"@.is_prefix_of(t) {
        "dm://"@ + t.skip(2)
    } else {
        t
    }
}

/// Whether `s` starts with `prefix`.
fn starts_with(s: &str, prefix: &str) -> (r: bool)
    ensures
        r == prefix@.is_prefix_of(s@),
{
    let n = prefix.unicode_len();
    if n > s.unicode_len() {
        return false;
    }
    let head = s.substring_char(0, n);
    let r = str_equal(head, prefix);
    proof {
        assert(r == (s@.subrange(0, n as int) == prefix@));
        if r {
            assert forall|i: int| 0 <= i < prefix@.len() implies prefix@[i] == s@[i] by {
                assert(s@.subrange(0, n as int)[i] == s@[i]);
            }
        }
        if prefix@.is_prefix_of(s@) {
            assert(s@.subrange(0, n as int) =~= prefix@);
        }
    }
    r
}

/// The text handed to the URL parser, from the trimmed URL.
fn clean_url(t: &str) -> (r: String)
    ensures
        r@ == cleaned_url(t@),
{
    proof {
        reveal_strlit("// dm://");
        reveal_strlit("//dm://");
        reveal_strlit("//");
        reveal_strlit("dm://");
    }
    if starts_with(t, "// dm://") {
        let rest = t.substring_char(8, t.unicode_len());
        concat2("dm://", rest)
    } else if starts_with(t, "//") && !starts_with(t, "//dm://") {
        let rest = t.substring_char(2, t.unicode_len());
        concat2("dm://", rest)
    } else {
        String::from_str(t)
    }
}

/// The connection options read from a parsed URL, or
/// `PoolCreateError` with the message of `options_from`.
pub fn options_from_parsed(p: ParsedUrl) -> (r: Result<ConnectionOptions, DatabaseError>)
    ensures
        match options_from(p@) {
            Ok(o) => r matches Ok(c) && c@ == o,
            Err(m) => r matches Err(DatabaseError::PoolCreateError(e)) && e@ == m,
        },
{
    proof {
        reveal_strlit("dm");
    }
    if !str_equal(p.scheme.as_str(), "dm") {
        let msg = concat3("不支持的协议: ", p.scheme.as_str(), ", 期望 'dm'");
        return Err(DatabaseError::PoolCreateError(msg));
    }
    let server = match p.host {
        Some(h) => h,
        None => {
            return Err(DatabaseError::PoolCreateError(String::from_str("缺少 host")));
        },
    };
    let port = match p.port {
        Some(port) => port,
        None => {
            return Err(DatabaseError::PoolCreateError(String::from_str("缺少端口")));
        },
    };
    let username = p.username;
    let password = if username.unicode_len() == 0 {
        String::new()
    } else {
        match p.password {
            Some(w) => w,
            None => String::new(),
        }
    };
    let ghost pairs = pair_views(p.query_pairs@);
    let mut schema = String::new();
    let mut timeout: u32 = 30;
    let mut use_tls = false;
    let mut driver = String::from_str("DM");
    let mut additional: Vec<(String, String)> = Vec::new();
    let mut i: usize = 0;
    proof {
        reveal_strlit("DM");
        reveal_strlit("schema");
        reveal_strlit("timeout");
        reveal_strlit("useSSL");
        reveal_strlit("driver");
    }
    while i < p.query_pairs.len()
        invariant
            i <= p.query_pairs@.len(),
            pairs == pair_views(p.query_pairs@),
            ({
                let s = query_settings(pairs.take(i as int));
                &&& schema@ == s.schema
                &&& timeout == s.timeout
                &&& use_tls == s.use_tls
                &&& driver@ == s.driver
                &&& pair_views(additional@) == s.additional
            }),
        decreases p.query_pairs@.len() - i,
    {
        let key = p.query_pairs[i].0.as_str();
        let value = p.query_pairs[i].1.as_str();
        proof {
            assert(pairs.take(i + 1).drop_last() =~= pairs.take(i as int));
            assert(pairs.take(i + 1).last() == (key@, value@));
        }
        if str_equal(key, "schema") {
            schema = String::from_str(value);
        } else if str_equal(key, "timeout") {
            timeout = match parse_u32(value) {
                Some(t) => t,
                None => 30,
            };
        } else if str_equal(key, "useSSL") {
            use_tls = match parse_bool(value) {
                Some(b) => b,
                None => false,
            };
        } else if str_equal(key, "driver") {
            driver = String::from_str(value);
        } else {
            let ghost a0 = additional@;
            additional.push((String::from_str(key), String::from_str(value)));
            proof {
                assert(pair_views(additional@) =~= pair_views(a0).push((key@, value@)));
            }
        }
        i = i + 1;
    }
    proof {
        assert(pairs.take(p.query_pairs@.len() as int) =~= pairs);
    }
    if schema.unicode_len() == 0 && p.path.unicode_len() > 1 {
        schema = String::from_str(p.path.substring_char(1, p.path.unicode_len()));
        proof {
            assert(p.path@.subrange(1, p.path@.len() as int) =~= p.path@.skip(1));
        }
    }
    Ok(ConnectionOptions {
        server,
        port,
        username,
        password,
        schema,
        timeout,
        use_tls,
        additional_params: additional,
        driver,
    })
}

/// The connection options of a Dameng URL: the URL is trimmed and cleaned
/// (see `cleaned_url`), parsed, and read (see `options_from`); a parse
/// error is given back as `PoolCreateError` with the parser's message.
pub fn parse_from_url(url: &str) -> (r: Result<ConnectionOptions, DatabaseError>)
    ensures
        match url_parse(cleaned_url(trimmed(url@))) {
            Err(m) => r matches Err(DatabaseError::PoolCreateError(e)) && e@ == m,
            Ok(p) => match options_from(p) {
                Ok(o) => r matches Ok(c) && c@ == o,
                Err(m) => r matches Err(DatabaseError::PoolCreateError(e)) && e@ == m,
            },
        },
{
    let trimmed_url = str_trim(url);
    let cleaned = clean_url(trimmed_url);
    match parse_url(cleaned.as_str()) {
        Ok(p) => options_from_parsed(p),
        Err(e) => Err(DatabaseError::PoolCreateError(e)),
    }
}

/// The register of Dameng databases.
#[derive(Clone, Copy, Debug)]
pub struct DamengDbRegister;

/// The Dameng register.
pub const DAMENG_DB_REGISTER: DamengDbRegister = DamengDbRegister;

impl DbRegister for DamengDbRegister {
    open spec fn spec_check(&self, config: server_config::DbConfig) -> Option<Seq<char>> {
        missing_server_setting(config)
    }

    /// Every server setting is required.
    fn check_config(&self, config: &server_config::DbConfig) -> (r: Result<(), DatabaseError>) {
        check_server_config(config)
    }
}

impl DamengDbRegister {
    /// See `parse_from_url`.
    pub fn parse_from_url(url: &str) -> (r: Result<ConnectionOptions, DatabaseError>)
        ensures
            match url_parse(cleaned_url(trimmed(url@))) {
                Err(m) => r matches Err(DatabaseError::PoolCreateError(e)) && e@ == m,
                Ok(p) => match options_from(p) {
                    Ok(o) => r matches Ok(c) && c@ == o,
                    Err(m) => r matches Err(DatabaseError::PoolCreateError(e)) && e@ == m,
                },
            },
    {
        parse_from_url(url)
    }
}

/// The executor of statements on Dameng databases.
#[derive(Clone, Copy, Debug)]
pub struct DamengSqlExecutor;

/// What `trim_end_spec` leaves is a prefix of the text.
proof fn lemma_trim_end_prefix(r: Seq<char>)
    ensures
        trim_end_spec(r).len() <= r.len(),
        trim_end_spec(r) == r.take(trim_end_spec(r).len() as int),
    decreases r.len(),
{
    if r.len() > 0 && is_white_space(r.last()) {
        lemma_trim_end_prefix(r.drop_last());
        let t = trim_end_spec(r.drop_last());
        assert(r.drop_last().take(t.len() as int) =~= r.take(t.len() as int));
    } else {
        assert(r.take(r.len() as int) =~= r);
    }
}

/// Trailing white space of `p + r` is that of `r`, where `p` ends in other
/// than white space.
proof fn lemma_trim_end_concat(p: Seq<char>, r: Seq<char>)
    requires
        p.len() > 0,
        !is_white_space(p.last()),
    ensures
        trim_end_spec(p + r) == p + trim_end_spec(r),
    decreases r.len(),
{
    if r.len() == 0 {
        assert(p + r =~= p);
        assert(p + trim_end_spec(r) =~= p);
    } else {
        assert((p + r).last() == r.last());
        if is_white_space(r.last()) {
            assert((p + r).drop_last() =~= p + r.drop_last());
            lemma_trim_end_concat(p, r.drop_last());
        }
    }
}

/// Trimming `p + r`, where `p` starts and ends in other than white space,
/// trims only the end of `r`.
proof fn lemma_trimmed_prefixed(p: Seq<char>, r: Seq<char>)
    requires
        p.len() > 0,
        !is_white_space(p[0]),
        !is_white_space(p.last()),
    ensures
        trimmed(p + r) == p + trim_end_spec(r),
{
    assert((p + r)[0] == p[0]);
    assert(trim_start_spec(p + r) == p + r);
    lemma_trim_end_concat(p, r);
}

proof fn lemma_trim_start(s: Seq<char>) -> (i: int)
    ensures
        0 <= i <= s.len(),
        trim_start_spec(s) == s.skip(i),
        forall|k: int| 0 <= k < i ==> is_white_space(#[trigger] s[k]),
        i < s.len() ==> !is_white_space(s[i]),
    decreases s.len(),
{
    if s.len() > 0 && is_white_space(s[0]) {
        let t = s.skip(1);
        let j = lemma_trim_start(t);
        assert(t.skip(j) =~= s.skip(j + 1));
        assert forall|k: int| 0 <= k < j + 1 implies is_white_space(#[trigger] s[k]) by {
            if k > 0 {
                assert(s[k] == t[k - 1]);
            }
        }
        if j + 1 < s.len() {
            assert(s[j + 1] == t[j]);
        }
        j + 1
    } else {
        assert(s.skip(0) =~= s);
        0
    }
}

proof fn lemma_trim_end(s: Seq<char>) -> (j: int)
    ensures
        0 <= j <= s.len(),
        trim_end_spec(s) == s.take(j),
        forall|k: int| j <= k < s.len() ==> is_white_space(#[trigger] s[k]),
        j > 0 ==> !is_white_space(s[j - 1]),
    decreases s.len(),
{
    if s.len() > 0 && is_white_space(s.last()) {
        let t = s.drop_last();
        let j = lemma_trim_end(t);
        assert(t.take(j) =~= s.take(j));
        assert forall|k: int| j <= k < s.len() implies is_white_space(#[trigger] s[k]) by {
            if k < s.len() - 1 {
                assert(s[k] == t[k]);
            }
        }
        if j > 0 {
            assert(s[j - 1] == t[j - 1]);
        }
        j
    } else {
        assert(s.take(s.len() as int) =~= s);
        s.len() as int
    }
}

/// Trimming takes away the white space at both ends and nothing else: the
/// trimmed text is a stretch of the text, everything before and after it is
/// white space, and it neither starts nor ends with white space.
pub proof fn law_trimmed(s: Seq<char>)
    ensures
        exists|i: int, j: int|
            #![trigger s.subrange(i, j)]
            0 <= i <= j <= s.len() && trimmed(s) == s.subrange(i, j) && (forall|k: int| 0 <= k < i
                ==> is_white_space(#[trigger] s[k])) && (forall|k: int| j <= k < s.len() ==> is_white_space(
                #[trigger] s[k],
            )),
        trimmed(s).len() > 0 ==> !is_white_space(trimmed(s)[0]) && !is_white_space(trimmed(s).last()),
{
    let i = lemma_trim_start(s);
    let u = s.skip(i);
    let j = lemma_trim_end(u);
    assert(u.take(j) =~= s.subrange(i, i + j));
    assert forall|k: int| i + j <= k < s.len() implies is_white_space(#[trigger] s[k]) by {
        assert(s[k] == u[k - i]);
    }
    if j > 0 {
        assert(trimmed(s)[0] == u[0]);
        assert(trimmed(s).last() == u[j - 1]);
    }
    assert(s.subrange(i, i + j) == trimmed(s));
}

/// A URL written after "// dm://", after "//" or after "dm://" is read the
/// same way: the three texts clean to the same text, so `parse_from_url`
/// gives the same result for them. This holds where the rest neither starts
/// with "dm://" nor with a space.
pub proof fn lemma_dm_prefixes_agree(r: Seq<char>)
    requires
        !"dm://"@.is_prefix_of(r),
        !(r.len() > 0 && r[0] == ' '),
    ensures
        cleaned_url(trimmed("// dm://"@ + r)) == cleaned_url(trimmed("dm://"@ + r)),
        cleaned_url(trimmed("//"@ + r)) == cleaned_url(trimmed("dm://"@ + r)),
{
    reveal_strlit("// dm://");
    reveal_strlit("//dm://");
    reveal_strlit("dm://");
    reveal_strlit("//");
    let a = "// dm://"@;
    let b = "dm://"@;
    let c = "//"@;
    assert(a.len() == 8 && a[0] == '/' && a[1] == '/' && a[2] == ' ' && a[3] == 'd' && a[7] == '/');
    assert(b.len() == 5 && b[0] == 'd' && b[1] == 'm' && b[4] == '/');
    assert(c.len() == 2 && c[0] == '/' && c[1] == '/');
    assert("//dm://"@.len() == 7 && "//dm://"@[2] == 'd');
    lemma_trimmed_prefixed(a, r);
    lemma_trimmed_prefixed(b, r);
    lemma_trimmed_prefixed(c, r);
    let t = trim_end_spec(r);
    lemma_trim_end_prefix(r);
    // "// dm://" + t cleans to "dm://" + t.
    assert(a.is_prefix_of(a + t)) by {
        assert((a + t).subrange(0, 8) =~= a);
    }
    assert((a + t).skip(8) =~= t);
    // "dm://" + t is left as it is.
    assert(!a.is_prefix_of(b + t)) by {
        if a.is_prefix_of(b + t) {
            assert((b + t)[0] == a[0]);
        }
    }
    assert(!c.is_prefix_of(b + t)) by {
        if c.is_prefix_of(b + t) {
            assert((b + t)[0] == c[0]);
        }
    }
    // "//" + t cleans to "dm://" + t.
    assert(!a.is_prefix_of(c + t)) by {
        if a.is_prefix_of(c + t) {
            assert((c + t)[2] == a[2]);
            assert(t[0] == ' ');
            assert(r[0] == t[0]);
        }
    }
    assert(c.is_prefix_of(c + t)) by {
        assert((c + t).subrange(0, 2) =~= c);
    }
    assert(!"//dm://"@.is_prefix_of(c + t)) by {
        if "//dm://"@.is_prefix_of(c + t) {
            assert(t.len() >= 5);
            assert forall|i: int| 0 <= i < 5 implies t[i] == b[i] by {
                assert((c + t)[i + 2] == "//dm://"@[i + 2]);
                assert("//dm://"@[i + 2] == b[i]) by {
                    assert("//dm://"@ =~= c + b);
                }
            }
            assert(b.is_prefix_of(r)) by {
                assert forall|i: int| 0 <= i < 5 implies r[i] == b[i] by {
                    assert(r[i] == t[i]);
                }
                assert(r.subrange(0, 5) =~= b);
            }
        }
    }
    assert((c + t).skip(2) =~= t);
}

/// The value of the last pair with this key, if any.
pub open spec fn last_value(pairs: Seq<(Seq<char>, Seq<char>)>, key: Seq<char>) -> Option<Seq<char>>
    decreases pairs.len(),
{
    if pairs.len() == 0 {
        None
    } else if pairs.last().0 == key {
        Some(pairs.last().1)
    } else {
        last_value(pairs.drop_last(), key)
    }
}

/// The schema the query sets: the value of its last `schema` pair, or
/// nothing.
pub open spec fn query_schema(pairs: Seq<(Seq<char>, Seq<char>)>) -> Seq<char> {
    match last_value(pairs, "schema"@) {
        Some(v) => v,
        None => Seq::empty(),
    }
}

/// Whether a query pair is none of the settings `schema`, `timeout`,
/// `useSSL` and `driver`.
pub open spec fn is_extra_pair(pr: (Seq<char>, Seq<char>)) -> bool {
    pr.0 != "schema"@ && pr.0 != "timeout"@ && pr.0 != "useSSL"@ && pr.0 != "driver"@
}

/// The query pairs that are none of the settings, in order.
pub open spec fn extra_pairs(pairs: Seq<(Seq<char>, Seq<char>)>) -> Seq<(Seq<char>, Seq<char>)> {
    pairs.filter(|pr: (Seq<char>, Seq<char>)| is_extra_pair(pr))
}

/// Each setting of the query is given by the last pair of its key: the
/// schema (empty without one), the driver ("DM" without one), the timeout
/// (30 without one or where it is not a number) and the use of TLS (false
/// without one or where it is not a boolean); the other pairs are kept in
/// their order.
pub proof fn law_query_settings(pairs: Seq<(Seq<char>, Seq<char>)>)
    ensures
        query_settings(pairs).schema == (match last_value(pairs, "schema"@) {
            Some(v) => v,
            None => Seq::<char>::empty(),
        }),
        query_settings(pairs).driver == (match last_value(pairs, "driver"@) {
            Some(v) => v,
            None => "DM"@,
        }),
        query_settings(pairs).timeout == (match last_value(pairs, "timeout"@) {
            Some(v) => match parse_u32_spec(v) {
                Some(t) => t,
                None => 30u32,
            },
            None => 30u32,
        }),
        query_settings(pairs).use_tls == (match last_value(pairs, "useSSL"@) {
            Some(v) => match parse_bool_spec(v) {
                Some(b) => b,
                None => false,
            },
            None => false,
        }),
        query_settings(pairs).additional == extra_pairs(pairs),
    decreases pairs.len(),
{
    reveal_strlit("schema");
    reveal_strlit("timeout");
    reveal_strlit("useSSL");
    reveal_strlit("driver");
    assert("schema"@.len() == 6 && "timeout"@.len() == 7 && "useSSL"@.len() == 6 && "driver"@.len() == 6);
    assert("schema"@[0] == 's' && "useSSL"@[0] == 'u' && "driver"@[0] == 'd');
    if pairs.len() > 0 {
        law_query_settings(pairs.drop_last());
        reveal(Seq::filter);
        let f = |pr: (Seq<char>, Seq<char>)| is_extra_pair(pr);
        assert(extra_pairs(pairs) == pairs.filter(f));
        assert(extra_pairs(pairs.drop_last()) == pairs.drop_last().filter(f));
        assert(pairs.filter(f) == (if f(pairs.last()) {
            pairs.drop_last().filter(f).push(pairs.last())
        } else {
            pairs.drop_last().filter(f)
        }));
        assert(f(pairs.last()) == is_extra_pair(pairs.last()));
    }
}

/// The options read from a URL: they are read exactly when the scheme is
/// "dm" and the host and the port are given; then the server, port and user
/// name are those of the URL, the password is the URL's where there is a
/// user name (else empty), and the schema is the one the query sets, where
/// it sets a non-empty one, whatever the path; only otherwise does a path
/// longer than "/" give the schema.
pub proof fn law_dameng_options(p: ParsedUrlView)
    ensures
        options_from(p) is Ok <==> (p.scheme == "dm"@ && p.host is Some && p.port is Some),
        options_from(p) matches Ok(o) ==> {
            &&& o.server == p.host->0
            &&& o.port == p.port->0
            &&& o.username == p.username
            &&& (p.username.len() == 0 ==> o.password.len() == 0)
            &&& (p.username.len() > 0 ==> o.password == match p.password {
                Some(w) => w,
                None => Seq::<char>::empty(),
            })
            &&& (query_schema(p.query_pairs).len() > 0 ==> o.schema == query_schema(p.query_pairs))
            &&& (query_schema(p.query_pairs).len() == 0 ==> o.schema == (if p.path.len() > 1 {
                p.path.skip(1)
            } else {
                Seq::<char>::empty()
            }))
            &&& o.additional_params == extra_pairs(p.query_pairs)
        },
{
    law_query_settings(p.query_pairs);
}

} // verus!
