//! The plugin's configuration and the rules that it must keep.
use crate::text;
use crate::text::{blank, cat2, cat3, same, split_char};
use vstd::prelude::*;
use vstd::string::*;

verus! {

/// The configuration of the plugin; every field has a safe default.
#[derive(Clone, Debug, PartialEq, Eq)]
pub struct PluginConfig {
    pub database: DatabaseConfig,
    pub identity: IdentityConfig,
    pub messages: MessageConfig,
    pub illustrations: IllustrationConfig,
    pub authorization: AuthorizationConfig,
}

/// Where the game database lies, and how long a lock is waited for.
#[derive(Clone, Debug, PartialEq, Eq)]
pub struct DatabaseConfig {
    pub relative_path: String,
    pub busy_timeout_ms: u64,
}

/// How players are identified and named.
#[derive(Clone, Debug, PartialEq, Eq)]
pub struct IdentityConfig {
    pub namespace: String,
    pub max_character_name_chars: usize,
    pub qq_official_account_id: String,
}

/// How replies are rendered and arguments are read.
#[derive(Clone, Debug, PartialEq, Eq)]
pub struct MessageConfig {
    pub qq_official_markdown: bool,
    pub onebot_markdown: bool,
    pub legacy_hyphen_arguments: bool,
}

/// Where illustrations come from.
#[derive(Clone, Copy, Debug, PartialEq, Eq, Structural)]
pub enum IllustrationMode {
    Direct,
    Remote,
}

/// Whether and how replies carry illustrations.
#[derive(Clone, Debug, PartialEq, Eq)]
pub struct IllustrationConfig {
    pub enabled: bool,
    pub mode: IllustrationMode,
    pub direct_asset_root: String,
    pub remote_base_url: String,
}

/// Which conversations may play.
#[derive(Clone, Copy, Debug, PartialEq, Eq, Structural)]
pub enum AuthorizationMode {
    AllowAll,
    Allowlist,
}

#[derive(Clone, Debug, PartialEq, Eq)]
pub struct AuthorizationConfig {
    pub mode: AuthorizationMode,
}

impl Default for DatabaseConfig {
    fn default() -> (config: Self)
        ensures
            config.relative_path@ == "douluo-game/douluo.db"@,
            config.busy_timeout_ms == 3_000,
    {
        DatabaseConfig {
            relative_path: "douluo-game/douluo.db".to_owned(),
            busy_timeout_ms: 3_000,
        }
    }
}

impl Default for IdentityConfig {
    fn default() -> (config: Self)
        ensures
            config.namespace@ == "default"@,
            config.max_character_name_chars == 6,
            config.qq_official_account_id@ == ""@,
    {
        IdentityConfig {
            namespace: "default".to_owned(),
            max_character_name_chars: 6,
            qq_official_account_id: "".to_owned(),
        }
    }
}

impl Default for MessageConfig {
    fn default() -> (config: Self)
        ensures
            config.qq_official_markdown,
            !config.onebot_markdown,
            config.legacy_hyphen_arguments,
    {
        MessageConfig {
            qq_official_markdown: true,
            onebot_markdown: false,
            legacy_hyphen_arguments: true,
        }
    }
}

impl Default for IllustrationConfig {
    fn default() -> (config: Self)
        ensures
            config.enabled,
            config.mode == IllustrationMode::Direct,
            config.direct_asset_root@ == "douluo-game/assets"@,
            config.remote_base_url@ == ""@,
    {
        IllustrationConfig {
            enabled: true,
            mode: IllustrationMode::Direct,
            direct_asset_root: "douluo-game/assets".to_owned(),
            remote_base_url: "".to_owned(),
        }
    }
}

impl Default for AuthorizationConfig {
    fn default() -> (config: Self)
        ensures
            config.mode == AuthorizationMode::AllowAll,
    {
        AuthorizationConfig { mode: AuthorizationMode::AllowAll }
    }
}

/// The configuration that holds where nothing is said.
pub open spec fn is_default(config: PluginConfig) -> bool {
    &&& config.database.relative_path@ == "douluo-game/douluo.db"@
    &&& config.database.busy_timeout_ms == 3_000
    &&& config.identity.namespace@ == "default"@
    &&& config.identity.max_character_name_chars == 6
    &&& config.identity.qq_official_account_id@ == ""@
    &&& config.messages.qq_official_markdown
    &&& !config.messages.onebot_markdown
    &&& config.messages.legacy_hyphen_arguments
    &&& config.illustrations.enabled
    &&& config.illustrations.mode == IllustrationMode::Direct
    &&& config.illustrations.direct_asset_root@ == "douluo-game/assets"@
    &&& config.illustrations.remote_base_url@ == ""@
    &&& config.authorization.mode == AuthorizationMode::AllowAll
}

impl Default for PluginConfig {
    fn default() -> (config: Self)
        ensures
            is_default(config),
    {
        PluginConfig {
            database: DatabaseConfig::default(),
            identity: IdentityConfig::default(),
            messages: MessageConfig::default(),
            illustrations: IllustrationConfig::default(),
            authorization: AuthorizationConfig::default(),
        }
    }
}

/// A path below the data directory: not blank, not absolute, never upwards.
pub open spec fn is_safe_path(path: Seq<char>) -> bool {
    &&& !text::is_blank(path)
    &&& path[0] != '/'
    &&& forall|i: int|
        0 <= i < text::parts(path, '/').len() ==> #[trigger] text::parts(path, '/')[i] != ".."@
}

/// Whether a path stays below the data directory.
pub fn is_safe_data_relative_path(path: &str) -> (answer: bool)
    ensures
        answer == is_safe_path(path@),
{
    if blank(path) {
        return false;
    }
    proof {
        text::blank_means_all_white(path@);
    }
    if path.get_char(0) == '/' {
        return false;
    }
    let segments = split_char(path, '/');
    let ghost parts = text::parts(path@, '/');
    let mut i: usize = 0;
    while i < segments.len()
        invariant
            i <= segments@.len(),
            text::texts(segments@) == parts,
            parts == text::parts(path@, '/'),
            forall|j: int| 0 <= j < i ==> #[trigger] parts[j] != ".."@,
        decreases segments@.len() - i,
    {
        assert(parts[i as int] == segments@[i as int]@);
        if same(&segments[i], "..") {
            return false;
        }
        i = i + 1;
    }
    true
}

/// A letter, a digit, a dot, an underscore or a hyphen.
pub open spec fn is_name_char(c: char) -> bool {
    text::is_alphanumeric(c) || c == '.' || c == '_' || c == '-'
}

/// Whether all characters of a text are name characters.
pub open spec fn all_name_chars(name: Seq<char>) -> bool {
    forall|i: int| 0 <= i < name.len() ==> is_name_char(#[trigger] name[i])
}

pub(crate) fn only_name_chars(name: &str) -> (answer: bool)
    ensures
        answer == all_name_chars(name@),
{
    let characters = text::chars_of(name);
    let mut i: usize = 0;
    while i < characters.len()
        invariant
            i <= characters@.len(),
            characters@ == name@,
            forall|j: int| 0 <= j < i ==> is_name_char(#[trigger] name@[j]),
        decreases characters@.len() - i,
    {
        let c = characters[i];
        if !(('a' <= c && c <= 'z') || ('A' <= c && c <= 'Z') || ('0' <= c && c <= '9') || c == '.'
            || c == '_' || c == '-') {
            return false;
        }
        i = i + 1;
    }
    true
}

/// A namespace: up to 64 name characters.
pub open spec fn is_namespace(value: Seq<char>) -> bool {
    0 < value.len() <= 64 && all_name_chars(value)
}

/// Whether a text is a namespace.
pub fn valid_namespace(value: &str) -> (answer: bool)
    ensures
        answer == is_namespace(value@),
{
    let length = value.unicode_len();
    0 < length && length <= 64 && only_name_chars(value)
}

/// The first rule that a configuration breaks, as a message.
pub open spec fn config_error(config: PluginConfig) -> Option<Seq<char>> {
    if !is_safe_path(config.database.relative_path@) {
        Some("database.relative_path 必须是 data_dir 内的安全相对路径"@)
    } else if !(100 <= config.database.busy_timeout_ms <= 30_000) {
        Some("database.busy_timeout_ms 必须在 100 到 30000 之间"@)
    } else if !is_namespace(config.identity.namespace@) {
        Some("identity.namespace 只能包含字母、数字、点、下划线和横线，长度 1-64"@)
    } else if !(2 <= config.identity.max_character_name_chars <= 20) {
        Some("identity.max_character_name_chars 必须在 2 到 20 之间"@)
    } else {
        None
    }
}

/// The error of a result, as a message.
pub open spec fn failure<T>(result: Result<T, String>) -> Option<Seq<char>> {
    match result {
        Ok(_) => None,
        Err(message) => Some(message@),
    }
}

/// Checks a configuration.
pub fn validate_config(config: &PluginConfig) -> (result: Result<(), String>)
    ensures
        failure(result) == config_error(*config),
{
    if !is_safe_data_relative_path(&config.database.relative_path) {
        return Err("database.relative_path 必须是 data_dir 内的安全相对路径".to_owned());
    }
    if !(100 <= config.database.busy_timeout_ms && config.database.busy_timeout_ms <= 30_000) {
        return Err("database.busy_timeout_ms 必须在 100 到 30000 之间".to_owned());
    }
    if !valid_namespace(&config.identity.namespace) {
        return Err(
            "identity.namespace 只能包含字母、数字、点、下划线和横线，长度 1-64".to_owned(),
        );
    }
    if !(2 <= config.identity.max_character_name_chars && config.identity.max_character_name_chars
        <= 20) {
        return Err("identity.max_character_name_chars 必须在 2 到 20 之间".to_owned());
    }
    Ok(())
}

/// Takes a configuration: the one that holds where nothing is said for a blank text, and
/// otherwise what was read out of the text. That comes from outside, or the reason why
/// there is none.
pub fn parse_config(config_json: &str, parsed: Result<PluginConfig, String>) -> (result: Result<
    PluginConfig,
    String,
>)
    ensures
        match result {
            Ok(config) => config_error(config) is None && (if text::is_blank(config_json@) {
                is_default(config)
            } else {
                parsed == Ok::<_, String>(config)
            }),
            Err(message) => !text::is_blank(config_json@) && (match parsed {
                Err(error) => message@ == "配置 JSON 无效："@ + error@,
                Ok(config) => config_error(config) == Some(message@),
            }),
        },
{
    if blank(config_json) {
        let config = PluginConfig::default();
        proof {
            the_default_configuration_is_sound(config);
        }
        return Ok(config);
    }
    let config = match parsed {
        Ok(config) => config,
        Err(error) => return Err(cat2("配置 JSON 无效：", error.as_str())),
    };
    match validate_config(&config) {
        Ok(()) => Ok(config),
        Err(message) => Err(message),
    }
}

/// The configuration that holds where nothing is said breaks no rule.
pub proof fn the_default_configuration_is_sound(config: PluginConfig)
    requires
        is_default(config),
    ensures
        config_error(config) is None,
{
    reveal_strlit("douluo-game/douluo.db");
    reveal_strlit("default");
    reveal_strlit("..");
    let path = "douluo-game/douluo.db"@;
    assert(!text::is_blank(path)) by {
        text::blank_means_all_white(path);
        assert(!text::is_white(path[0]));
    }
    let parts = text::parts(path, '/');
    assert forall|i: int| 0 <= i < parts.len() implies #[trigger] parts[i] != ".."@ by {
        text::lemma_run_len(path, text::other_than('/'), 11);
        let rest = path.skip(12);
        assert forall|j: int| 0 <= j < rest.len() implies text::other_than('/')(
            #[trigger] rest[j],
        ) by {
            assert(rest[j] == path[j + 12]);
        }
        text::lemma_run_len(rest, text::other_than('/'), rest.len() as int);
        reveal_with_fuel(text::parts, 3);
        assert(parts[i].len() > 2);
    }
}

/// A segment of an asset key.
pub open spec fn is_key_segment(segment: Seq<char>) -> bool {
    &&& segment.len() > 0
    &&& segment != "."@
    &&& segment != ".."@
    &&& all_name_chars(segment)
}

/// An asset key: a relative path of name characters, without `.` and `..`, that
/// does not start in the reserved directory of content-addressed files.
pub open spec fn is_asset_key(value: Seq<char>) -> bool {
    &&& 0 < value.len() <= 200
    &&& text::parts(value, '/')[0] != "sha256"@
    &&& forall|i: int|
        0 <= i < text::parts(value, '/').len() ==> is_key_segment(
            #[trigger] text::parts(value, '/')[i],
        )
}

/// Whether a text is an asset key.
pub fn is_safe_asset_key(value: &str) -> (answer: bool)
    ensures
        answer == is_asset_key(value@),
{
    let length = value.unicode_len();
    if length == 0 || length > 200 {
        return false;
    }
    let segments = split_char(value, '/');
    let ghost parts = text::parts(value@, '/');
    assert(parts[0] == segments@[0]@);
    if same(&segments[0], "sha256") {
        return false;
    }
    let mut i: usize = 0;
    while i < segments.len()
        invariant
            i <= segments@.len(),
            text::texts(segments@) == parts,
            parts == text::parts(value@, '/'),
            forall|j: int| 0 <= j < i ==> is_key_segment(#[trigger] parts[j]),
        decreases segments@.len() - i,
    {
        let segment = &segments[i];
        assert(parts[i as int] == segment@);
        if segment.as_str().is_empty() || same(segment, ".") || same(segment, "..") || !only_name_chars(
            segment,
        ) {
            return false;
        }
        i = i + 1;
    }
    true
}

/// A visible ASCII character that needs no quoting inside a Markdown link.
pub open spec fn is_url_char(c: char) -> bool {
    &&& '!' <= c <= '~'
    &&& c != '"' && c != '\'' && c != '(' && c != ')' && c != '<' && c != '>'
    &&& c != '[' && c != ']' && c != '\\' && c != '^' && c != '`' && c != '{' && c != '|' && c != '}'
}

fn url_char(c: char) -> (answer: bool)
    ensures
        answer == is_url_char(c),
{
    '!' <= c && c <= '~' && c != '"' && c != '\'' && c != '(' && c != ')' && c != '<' && c != '>'
        && c != '[' && c != ']' && c != '\\' && c != '^' && c != '`' && c != '{' && c != '|' && c
        != '}'
}

/// The predicate that holds of a character inside the authority of a URL.
pub open spec fn authority_char() -> spec_fn(char) -> bool {
    |c: char| c != '/' && c != '?' && c != '#'
}

/// A label of a host name: letters, digits and inner hyphens.
pub open spec fn is_label(label: Seq<char>) -> bool {
    &&& 0 < label.len() <= 63
    &&& label[0] != '-'
    &&& label.last() != '-'
    &&& forall|i: int|
        0 <= i < label.len() ==> (text::is_alphanumeric(#[trigger] label[i]) || label[i] == '-')
}

fn label(value: &str) -> (answer: bool)
    ensures
        answer == is_label(value@),
{
    let characters = text::chars_of(value);
    if characters.len() == 0 || characters.len() > 63 || characters[0] == '-'
        || characters[characters.len() - 1] == '-' {
        return false;
    }
    let mut i: usize = 0;
    while i < characters.len()
        invariant
            i <= characters@.len(),
            characters@ == value@,
            forall|j: int|
                0 <= j < i ==> (text::is_alphanumeric(#[trigger] value@[j]) || value@[j] == '-'),
        decreases characters@.len() - i,
    {
        let c = characters[i];
        if !(('a' <= c && c <= 'z') || ('A' <= c && c <= 'Z') || ('0' <= c && c <= '9') || c
            == '-') {
            return false;
        }
        i = i + 1;
    }
    true
}

/// A public host name: at least two labels, the last one a name that starts with a
/// letter, so that no notation of an IP address and no single name qualifies.
pub open spec fn is_public_host(host: Seq<char>) -> bool {
    let labels = text::parts(host, '.');
    &&& labels.len() >= 2
    &&& forall|i: int| 0 <= i < labels.len() ==> is_label(#[trigger] labels[i])
    &&& (text::is_lower(labels.last()[0]) || text::is_upper(labels.last()[0]))
    &&& text::lowered(labels.last()) != "localhost"@
}

fn public_host(host: &str) -> (answer: bool)
    ensures
        answer == is_public_host(host@),
{
    let labels = split_char(host, '.');
    let ghost parts = text::parts(host@, '.');
    if labels.len() < 2 {
        return false;
    }
    let mut i: usize = 0;
    while i < labels.len()
        invariant
            i <= labels@.len(),
            text::texts(labels@) == parts,
            forall|j: int| 0 <= j < i ==> is_label(#[trigger] parts[j]),
            parts == text::parts(host@, '.'),
        decreases labels@.len() - i,
    {
        assert(parts[i as int] == labels@[i as int]@);
        if !label(&labels[i]) {
            return false;
        }
        i = i + 1;
    }
    let last = labels[labels.len() - 1].as_str();
    assert(last@ == parts.last());
    assert(is_label(parts[parts.len() - 1]));
    let first = last.get_char(0);
    (('a' <= first && first <= 'z') || ('A' <= first && first <= 'Z')) && !same(
        &text::to_lower(last),
        "localhost",
    )
}

/// A host, with a port from 1 to 65535 where there is a colon.
pub open spec fn is_public_authority(authority: Seq<char>) -> bool {
    let k = text::index_of(authority, ':') as int;
    &&& is_public_host(authority.take(k))
    &&& k < authority.len() ==> {
        let port = authority.skip(k + 1);
        text::all_digits(port) && port.len() > 0 && 1 <= text::digits_value(port) <= 65535
    }
}

fn public_authority(authority: &str) -> (answer: bool)
    ensures
        answer == is_public_authority(authority@),
{
    let characters = text::chars_of(authority);
    assert(authority@.skip(0) =~= authority@);
    let colon = text::find_char(&characters, 0, ':');
    assert(authority@.subrange(0, colon as int) =~= authority@.take(colon as int));
    let host = text::slice_text(&characters, 0, colon);
    if !public_host(&host) {
        return false;
    }
    if colon == characters.len() {
        return true;
    }
    match text::read_digits(&characters, colon + 1, 65535) {
        Some(port) => port >= 1,
        None => false,
    }
}

/// A public HTTPS address, with a path where one is required.
pub open spec fn is_public_https_url(value: Seq<char>, require_path: bool) -> bool {
    let scheme = "https://"@;
    let rest = value.skip(scheme.len() as int);
    let k = text::run_len(rest, authority_char()) as int;
    &&& scheme.is_prefix_of(value)
    &&& value.len() <= 2048
    &&& forall|i: int| 0 <= i < value.len() ==> is_url_char(#[trigger] value[i])
    &&& is_public_authority(rest.take(k))
    &&& require_path ==> k < rest.len() && rest[k] == '/'
}

/// Checks that an address is a public HTTPS address.
pub fn validate_public_https_url(value: &str, require_path: bool) -> (result: Result<(), String>)
    ensures
        failure(result) == if is_public_https_url(value@, require_path) {
            None
        } else {
            Some("地址必须是公网 HTTPS 地址"@)
        },
{
    if public_https_url(value, require_path) {
        Ok(())
    } else {
        Err("地址必须是公网 HTTPS 地址".to_owned())
    }
}

fn public_https_url(value: &str, require_path: bool) -> (answer: bool)
    ensures
        answer == is_public_https_url(value@, require_path),
{
    if !text::starts_with(value, "https://") {
        return false;
    }
    let characters = text::chars_of(value);
    if characters.len() > 2048 {
        return false;
    }
    let mut i: usize = 0;
    while i < characters.len()
        invariant
            i <= characters@.len(),
            characters@ == value@,
            forall|j: int| 0 <= j < i ==> is_url_char(#[trigger] value@[j]),
        decreases characters@.len() - i,
    {
        if !url_char(characters[i]) {
            return false;
        }
        i = i + 1;
    }
    let from = "https://".unicode_len();
    let ghost rest = value@.skip(from as int);
    let mut to: usize = from;
    while to < characters.len() && characters[to] != '/' && characters[to] != '?' && characters[to]
        != '#'
        invariant
            from <= to <= characters@.len(),
            characters@ == value@,
            rest == value@.skip(from as int),
            forall|j: int| 0 <= j < to - from ==> authority_char()(#[trigger] rest[j]),
        decreases characters@.len() - to,
    {
        assert(rest[to - from] == characters@[to as int]);
        to = to + 1;
    }
    proof {
        if to < characters@.len() {
            assert(rest[to - from] == characters@[to as int]);
        }
        text::lemma_run_len(rest, authority_char(), to - from);
        assert(rest.take(to - from) =~= value@.subrange(from as int, to as int));
    }
    let authority = text::slice_text(&characters, from, to);
    public_authority(&authority) && (!require_path || (to < characters.len() && characters[to]
        == '/'))
}

/// The predicate that holds of a slash.
pub open spec fn slash() -> spec_fn(char) -> bool {
    |c: char| c == '/'
}

/// An address without the slashes at its end.
pub open spec fn without_slashes(base: Seq<char>) -> Seq<char> {
    base.take(base.len() - text::tail_run_len(base, slash()))
}

/// The address of an asset below a configured base address.
pub open spec fn asset_url(base: Seq<char>, key: Seq<char>) -> Option<Seq<char>> {
    if text::is_blank(base) {
        None
    } else {
        Some(without_slashes(base) + "/media/"@ + key)
    }
}

impl IllustrationConfig {
    /// The address of an asset on the configured media service.
    pub fn remote_asset_url(&self, key: &str) -> (url: Option<String>)
        ensures
            text::optional_text(url) == asset_url(self.remote_base_url@, key@),
    {
        if blank(&self.remote_base_url) {
            return None;
        }
        let characters = text::chars_of(&self.remote_base_url);
        let ghost base = self.remote_base_url@;
        let mut to: usize = characters.len();
        while to > 0 && characters[to - 1] == '/'
            invariant
                to <= characters@.len(),
                characters@ == base,
                forall|j: int| to <= j < base.len() ==> slash()(#[trigger] base[j]),
            decreases to,
        {
            to = to - 1;
        }
        proof {
            text::lemma_tail_run_len(base, slash(), base.len() - to);
            assert(base.subrange(0, to as int) =~= base.take(to as int));
        }
        let trimmed = text::slice_text(&characters, 0, to);
        Some(cat3(&trimmed, "/media/", key))
    }
}

} // verus!
