//! The settings of the dispatcher, read from a YAML text.
//!
//! A setting that is missing, or whose value has another type than the setting asks for,
//! takes its default. The YAML itself is read by the `yaml-rust` crate.

use vstd::prelude::*;
use vstd::string::StringSliceAdditionalSpecFns;
use vstd::utf8::encode_utf8;
use yaml_rust::Yaml;

verus! {

pub const DEFAULT_USERNAME: &'static str = "elastic";

pub const DEFAULT_INDICES_USERNAME: &'static str = "system_indices_superuser";

pub const DEFAULT_PASSWORD: &'static str = "changeme";

pub const DEFAULT_ELASTICSEARCH_PATH: &'static str = "http://localhost:9200";

pub const DEFAULT_KIBANA_CAPACITY: isize = 10;

pub const DEFAULT_POLLING_INTERVAL: u64 = 3000;

pub const DEFAULT_KIBANA_HOST: &'static str = "http://localhost:5601";

/// The most that a line of a text that is read as YAML may weigh: the blanks that indent it
/// and the block indicators on it, counted together.
pub const MAX_LINE_DEPTH: usize = 48;

/// The most asterisks, which mark an alias, that a text that is read as YAML may hold.
pub const MAX_ALIASES: usize = 4;

#[verifier::external_type_specification]
#[verifier::external_body]
pub struct ExYaml(yaml_rust::Yaml);

/// Whether a byte is a space or a tab.
pub open spec fn blank_byte(byte: u8) -> bool {
    byte == 0x20 || byte == 0x09
}

/// Whether the byte at `at` is followed by a blank, by a line break, by a zero byte or by
/// nothing.
pub open spec fn ends_word(bytes: Seq<u8>, at: int) -> bool {
    at + 1 >= bytes.len() || blank_byte(bytes[at + 1]) || bytes[at + 1] == 0x0a || bytes[at + 1]
        == 0x0d || bytes[at + 1] == 0
}

/// Whether the byte at `at` may be a block indicator: a hyphen, a question mark or a colon
/// with nothing of a word behind it.
pub open spec fn block_indicator(bytes: Seq<u8>, at: int) -> bool {
    (bytes[at] == 0x2d || bytes[at] == 0x3f || bytes[at] == 0x3a) && ends_word(bytes, at)
}

/// Whether the byte at `at` is a carriage return that no line feed follows.
pub open spec fn lone_return(bytes: Seq<u8>, at: int) -> bool {
    bytes[at] == 0x0d && (at + 1 >= bytes.len() || bytes[at + 1] != 0x0a)
}

/// Whether nothing but blanks stands between the last line feed and `end`.
pub open spec fn in_indentation(bytes: Seq<u8>, end: int) -> bool
    decreases end,
{
    if 0 < end <= bytes.len() && bytes[end - 1] != 0x0a {
        blank_byte(bytes[end - 1]) && in_indentation(bytes, end - 1)
    } else {
        true
    }
}

/// What the line that ends just before `end` weighs: the blanks that indent it and the
/// block indicators on it.
pub open spec fn line_depth(bytes: Seq<u8>, end: int) -> nat
    decreases end,
{
    if 0 < end <= bytes.len() && bytes[end - 1] != 0x0a {
        if in_indentation(bytes, end) || block_indicator(bytes, end - 1) {
            line_depth(bytes, end - 1) + 1
        } else {
            line_depth(bytes, end - 1)
        }
    } else {
        0
    }
}

/// The number of asterisks before `end`.
pub open spec fn alias_marks(bytes: Seq<u8>, end: int) -> nat
    decreases end,
{
    if 0 < end <= bytes.len() {
        if bytes[end - 1] == 0x2a {
            alias_marks(bytes, end - 1) + 1
        } else {
            alias_marks(bytes, end - 1)
        }
    } else {
        0
    }
}

/// Whether `bytes` can be handed to the YAML reader: every carriage return has its line
/// feed, no line weighs more than `MAX_LINE_DEPTH`, and there are no more asterisks than
/// `MAX_ALIASES`.
pub open spec fn nesting_bounded(bytes: Seq<u8>) -> bool {
    &&& forall|at: int| 0 <= at < bytes.len() ==> !#[trigger] lone_return(bytes, at)
    &&& forall|end: int|
        0 <= end <= bytes.len() ==> #[trigger] line_depth(bytes, end) <= MAX_LINE_DEPTH
    &&& forall|end: int|
        0 <= end <= bytes.len() ==> #[trigger] alias_marks(bytes, end) <= MAX_ALIASES
}

/// Whether a text can be handed to the YAML reader.
pub open spec fn yaml_readable(source: Seq<char>) -> bool {
    nesting_bounded(encode_utf8(source))
}

/// The documents that `yaml_rust::YamlLoader::load_from_str` reads from a text, if the text
/// is well-formed YAML.
pub uninterp spec fn yaml_documents(source: Seq<char>) -> Option<Seq<Yaml>>;

/// The node that indexing a YAML node by a key (`node[key]`) yields.
pub uninterp spec fn yaml_member(node: Yaml, key: Seq<char>) -> Yaml;

/// The text of a YAML node, as `Yaml::as_str` gives it: that of a string node, and of no other.
pub uninterp spec fn yaml_text(node: Yaml) -> Option<Seq<char>>;

/// The number of a YAML node, as `Yaml::as_i64` gives it: that of an integer node, and of no
/// other.
pub uninterp spec fn yaml_integer(node: Yaml) -> Option<i64>;

/// The items of a YAML node, as `Yaml::as_vec` gives them: those of an array node, and of
/// no other.
pub uninterp spec fn yaml_items(node: Yaml) -> Option<Seq<Yaml>>;

/// Calls `yaml_rust::YamlLoader::load_from_str`. `None` stands for every scan error.
///
/// The crate's loader calls itself once for each collection that is open within another,
/// and a value is copied and dropped the same way, so that the nesting has to be bounded.
/// - The scanner opens a block collection only at a column greater than that of the one
///   around it, and counts columns from the last line feed. After the first token of a line
///   no more collections are open than the blanks before it allow; each further one is
///   opened by a hyphen, a question mark or a colon that ends a word on that line.
/// - The parser adds at most one sequence without indentation to each block mapping.
/// - Flow collections nest at most 255 deep: the scanner counts them in a `u8`.
/// - An alias puts a copy of an earlier value in its place, which can at most double what
///   has been built and add the depth of that value; each alias takes an asterisk.
///
/// So the value is nested no deeper than `(MAX_ALIASES + 1) * (2 * MAX_LINE_DEPTH + 257)`,
/// and takes no more than `2^MAX_ALIASES` times the room of one without aliases.
#[verifier::external_body]
fn load_yaml(source: &str) -> (documents: Option<Vec<Yaml>>)
    requires
        yaml_readable(source@),
    ensures
        match documents {
            Some(documents) => yaml_documents(source@) == Some(documents@),
            None => yaml_documents(source@) is None,
        },
{
    yaml_rust::YamlLoader::load_from_str(source).ok()
}

/// Indexes a YAML node by a key (`Index<&str>` of `Yaml`), which never fails: the crate
/// answers with its bad value where the node is no hash or has no such key.
#[verifier::external_body]
fn yaml_at<'a>(node: &'a Yaml, key: &str) -> (found: &'a Yaml)
    ensures
        *found == yaml_member(*node, key@),
{
    &node[key]
}

/// Calls `Yaml::as_str`.
#[verifier::external_body]
fn yaml_as_text<'a>(node: &'a Yaml) -> (text: Option<&'a str>)
    ensures
        match text {
            Some(text) => yaml_text(*node) == Some(text@),
            None => yaml_text(*node) is None,
        },
{
    node.as_str()
}

/// Calls `Yaml::as_i64`.
#[verifier::external_body]
fn yaml_as_integer(node: &Yaml) -> (integer: Option<i64>)
    ensures
        integer == yaml_integer(*node),
{
    node.as_i64()
}

/// Calls `Yaml::as_vec`.
#[verifier::external_body]
fn yaml_as_items<'a>(node: &'a Yaml) -> (items: Option<&'a Vec<Yaml>>)
    ensures
        match items {
            Some(items) => yaml_items(*node) == Some(items@),
            None => yaml_items(*node) is None,
        },
{
    node.as_vec()
}

/// What a configuration stands for.
pub struct ConfigView {
    pub elasticsearch_path: Seq<char>,
    pub username: Seq<char>,
    pub indices_username: Seq<char>,
    pub password: Seq<char>,
    pub kibana_capacity: isize,
    pub polling_interval: u64,
    pub kibana_hosts: Seq<Seq<char>>,
}

/// The settings of the dispatcher.
#[derive(Debug)]
pub struct Config {
    /// The base address of the task store.
    pub elasticsearch_path: String,
    /// The user that reads the task store and calls the execution nodes.
    pub username: String,
    /// The user that updates the task store.
    pub indices_username: String,
    /// The password of both users.
    pub password: String,
    /// The number of tasks that one execution node may hold.
    pub kibana_capacity: isize,
    /// The pause between two scans, in milliseconds.
    pub polling_interval: u64,
    /// The base addresses of the execution nodes.
    pub kibana_hosts: Vec<String>,
}

/// The texts of a row of strings.
pub open spec fn texts_of(row: Seq<String>) -> Seq<Seq<char>> {
    Seq::new(row.len(), |at: int| row[at]@)
}

impl View for Config {
    type V = ConfigView;

    open spec fn view(&self) -> ConfigView {
        ConfigView {
            elasticsearch_path: self.elasticsearch_path@,
            username: self.username@,
            indices_username: self.indices_username@,
            password: self.password@,
            kibana_capacity: self.kibana_capacity,
            polling_interval: self.polling_interval,
            kibana_hosts: texts_of(self.kibana_hosts@),
        }
    }
}

/// The configuration in which every setting has its default.
pub open spec fn default_settings() -> ConfigView {
    ConfigView {
        elasticsearch_path: DEFAULT_ELASTICSEARCH_PATH@,
        username: DEFAULT_USERNAME@,
        indices_username: DEFAULT_INDICES_USERNAME@,
        password: DEFAULT_PASSWORD@,
        kibana_capacity: DEFAULT_KIBANA_CAPACITY,
        polling_interval: DEFAULT_POLLING_INTERVAL,
        kibana_hosts: seq![DEFAULT_KIBANA_HOST@],
    }
}

/// The text set under `key` in a YAML document, or `fallback` where a text is not what is
/// set there.
pub open spec fn text_setting(document: Yaml, key: Seq<char>, fallback: Seq<char>) -> Seq<char> {
    match yaml_text(yaml_member(document, key)) {
        Some(text) => text,
        None => fallback,
    }
}

/// Whether every one of the first `count` items is a text.
pub open spec fn all_texts(items: Seq<Yaml>, count: int) -> bool {
    forall|at: int| 0 <= at < count ==> (#[trigger] yaml_text(items[at])) is Some
}

/// The hosts set in a YAML document: the texts of the list under `kibana.hosts`, or the one
/// default host where no list of texts is set there.
pub open spec fn hosts_setting(document: Yaml) -> Seq<Seq<char>> {
    match yaml_items(yaml_member(document, "kibana.hosts"@)) {
        Some(items) => if all_texts(items, items.len() as int) {
            Seq::new(items.len(), |at: int| yaml_text(items[at])->0)
        } else {
            seq![DEFAULT_KIBANA_HOST@]
        },
        None => seq![DEFAULT_KIBANA_HOST@],
    }
}

/// The configuration that a YAML document sets.
pub open spec fn document_settings(document: Yaml) -> ConfigView {
    ConfigView {
        elasticsearch_path: text_setting(
            document,
            "elasticsearch.host"@,
            DEFAULT_ELASTICSEARCH_PATH@,
        ),
        username: text_setting(document, "elasticsearch.username"@, DEFAULT_USERNAME@),
        indices_username: text_setting(
            document,
            "elasticsearch.indices_username"@,
            DEFAULT_INDICES_USERNAME@,
        ),
        password: text_setting(document, "elasticsearch.password"@, DEFAULT_PASSWORD@),
        kibana_capacity: capacity_setting(
            yaml_integer(yaml_member(document, "kibana_capacity"@)),
        ),
        polling_interval: interval_setting(
            yaml_integer(yaml_member(document, "polling_interval"@)),
        ),
        kibana_hosts: hosts_setting(document),
    }
}

/// The capacity that a number sets: the number itself where an `isize` holds it, and the
/// default otherwise.
pub open spec fn capacity_setting(number: Option<i64>) -> isize {
    match number {
        Some(capacity) => if isize::MIN <= capacity <= isize::MAX {
            capacity as isize
        } else {
            DEFAULT_KIBANA_CAPACITY
        },
        None => DEFAULT_KIBANA_CAPACITY,
    }
}

/// The polling interval that a number sets: the number itself where it is not negative, and
/// the default otherwise.
pub open spec fn interval_setting(number: Option<i64>) -> u64 {
    match number {
        Some(interval) => if interval >= 0 {
            interval as u64
        } else {
            DEFAULT_POLLING_INTERVAL
        },
        None => DEFAULT_POLLING_INTERVAL,
    }
}

/// The configuration that a YAML text sets: that of its first document, the defaults where
/// it holds no document, and none where it cannot be handed to the reader or is not YAML.
pub open spec fn settings_of(source: Seq<char>) -> Option<ConfigView> {
    if yaml_readable(source) {
        match yaml_documents(source) {
            Some(documents) => Some(
                if documents.len() == 0 {
                    default_settings()
                } else {
                    document_settings(documents[0])
                },
            ),
            None => None,
        }
    } else {
        None
    }
}

/// Whether a text can be handed to the YAML reader.
pub fn nesting_is_bounded(source: &str) -> (bounded: bool)
    ensures
        bounded == yaml_readable(source@),
{
    let bytes = source.as_bytes();
    let mut depth: usize = 0;
    let mut indenting: bool = true;
    let mut aliases: usize = 0;
    let mut at: usize = 0;
    while at < bytes.len()
        invariant
            at <= bytes.len(),
            bytes@ == encode_utf8(source@),
            depth == line_depth(bytes@, at as int),
            depth <= MAX_LINE_DEPTH,
            indenting == in_indentation(bytes@, at as int),
            aliases == alias_marks(bytes@, at as int),
            aliases <= MAX_ALIASES,
            forall|seen: int| 0 <= seen < at ==> !#[trigger] lone_return(bytes@, seen),
            forall|end: int|
                0 <= end <= at ==> #[trigger] line_depth(bytes@, end) <= MAX_LINE_DEPTH,
            forall|end: int|
                0 <= end <= at ==> #[trigger] alias_marks(bytes@, end) <= MAX_ALIASES,
        decreases bytes.len() - at,
    {
        let byte: u8 = bytes[at];
        let last: bool = at + 1 == bytes.len();
        if byte == 0x0d && (last || bytes[at + 1] != 0x0a) {
            assert(lone_return(bytes@, at as int));
            return false;
        }
        if byte == 0x2a {
            aliases += 1;
            if aliases > MAX_ALIASES {
                assert(alias_marks(bytes@, at + 1) > MAX_ALIASES);
                return false;
            }
        }
        if byte == 0x0a {
            depth = 0;
            indenting = true;
        } else {
            let blank: bool = byte == 0x20 || byte == 0x09;
            let ends: bool = last || bytes[at + 1] == 0x20 || bytes[at + 1] == 0x09 || bytes[at
                + 1] == 0x0a || bytes[at + 1] == 0x0d || bytes[at + 1] == 0;
            let indicator: bool = (byte == 0x2d || byte == 0x3f || byte == 0x3a) && ends;
            indenting = indenting && blank;
            if indenting || indicator {
                depth += 1;
                if depth > MAX_LINE_DEPTH {
                    assert(line_depth(bytes@, at + 1) > MAX_LINE_DEPTH);
                    return false;
                }
            }
        }
        at += 1;
    }
    true
}

/// Reads the text set under `key`, or takes `fallback`.
fn read_text_setting(document: &Yaml, key: &str, fallback: &str) -> (text: String)
    ensures
        text@ == text_setting(*document, key@, fallback@),
{
    match yaml_as_text(yaml_at(document, key)) {
        Some(text) => text.to_owned(),
        None => fallback.to_owned(),
    }
}

/// The one default host.
fn default_hosts() -> (hosts: Vec<String>)
    ensures
        texts_of(hosts@) == seq![DEFAULT_KIBANA_HOST@],
{
    let mut hosts: Vec<String> = Vec::new();
    hosts.push(DEFAULT_KIBANA_HOST.to_owned());
    assert(texts_of(hosts@) =~= seq![DEFAULT_KIBANA_HOST@]);
    hosts
}

/// Reads the hosts set in a YAML document.
fn read_hosts_setting(document: &Yaml) -> (hosts: Vec<String>)
    ensures
        texts_of(hosts@) == hosts_setting(*document),
{
    match yaml_as_items(yaml_at(document, "kibana.hosts")) {
        Some(items) => {
            let mut hosts: Vec<String> = Vec::new();
            let mut at: usize = 0;
            while at < items.len()
                invariant
                    at <= items.len(),
                    hosts.len() == at,
                    yaml_items(yaml_member(*document, "kibana.hosts"@)) == Some(items@),
                    all_texts(items@, at as int),
                    forall|seen: int|
                        0 <= seen < at ==> (#[trigger] hosts@[seen])@ == yaml_text(items@[seen])->0,
                decreases items.len() - at,
            {
                match yaml_as_text(&items[at]) {
                    Some(text) => {
                        hosts.push(text.to_owned());
                    },
                    None => {
                        assert(yaml_text(items@[at as int]) is None);
                        return default_hosts();
                    },
                }
                at += 1;
            }
            assert(texts_of(hosts@) =~= hosts_setting(*document));
            hosts
        },
        None => default_hosts(),
    }
}

impl Config {
    /// The configuration in which every setting has its default.
    pub fn defaults() -> (config: Config)
        ensures
            config@ == default_settings(),
    {
        Config {
            elasticsearch_path: DEFAULT_ELASTICSEARCH_PATH.to_owned(),
            username: DEFAULT_USERNAME.to_owned(),
            indices_username: DEFAULT_INDICES_USERNAME.to_owned(),
            password: DEFAULT_PASSWORD.to_owned(),
            kibana_capacity: DEFAULT_KIBANA_CAPACITY,
            polling_interval: DEFAULT_POLLING_INTERVAL,
            kibana_hosts: default_hosts(),
        }
    }

    /// The configuration that a YAML document sets.
    pub fn from_document(document: &Yaml) -> (config: Config)
        ensures
            config@ == document_settings(*document),
    {
        Config {
            elasticsearch_path: read_text_setting(
                document,
                "elasticsearch.host",
                DEFAULT_ELASTICSEARCH_PATH,
            ),
            username: read_text_setting(document, "elasticsearch.username", DEFAULT_USERNAME),
            indices_username: read_text_setting(
                document,
                "elasticsearch.indices_username",
                DEFAULT_INDICES_USERNAME,
            ),
            password: read_text_setting(document, "elasticsearch.password", DEFAULT_PASSWORD),
            kibana_capacity: match yaml_as_integer(yaml_at(document, "kibana_capacity")) {
                Some(capacity) => if capacity >= isize::MIN as i64 && capacity
                    <= isize::MAX as i64 {
                    capacity as isize
                } else {
                    DEFAULT_KIBANA_CAPACITY
                },
                None => DEFAULT_KIBANA_CAPACITY,
            },
            polling_interval: match yaml_as_integer(yaml_at(document, "polling_interval")) {
                Some(interval) => if interval >= 0 {
                    interval as u64
                } else {
                    DEFAULT_POLLING_INTERVAL
                },
                None => DEFAULT_POLLING_INTERVAL,
            },
            kibana_hosts: read_hosts_setting(document),
        }
    }
}

/// Reads the configuration from the text of the configuration file. A text that is nested
/// too deep by its indentation, by its block indicators or by its aliases, or one that is
/// not YAML, gives none.
pub fn read_config(source: &str) -> (config: Option<Config>)
    ensures
        match config {
            Some(config) => settings_of(source@) == Some(config@),
            None => settings_of(source@) is None,
        },
{
    if !nesting_is_bounded(source) {
        return None;
    }
    match load_yaml(source) {
        Some(documents) => {
            if documents.len() == 0 {
                Some(Config::defaults())
            } else {
                Some(Config::from_document(&documents[0]))
            }
        },
        None => None,
    }
}

} // verus!
