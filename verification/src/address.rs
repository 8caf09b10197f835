//! The addresses that the dispatcher calls: those of the task store's search and update
//! operations, and that of an execution node's operation to run a task.
//!
//! The addresses are put together by the `url` crate, and identities are escaped for them by
//! the `urlencoding` crate.

use crate::config::Config;
use url::Url;
use vstd::prelude::*;
use vstd::string::StrSliceExecFns;
use vstd::utf8::encode_utf8;

verus! {

/// The index of the task store that holds the tasks, relative to the store's base address.
pub const TASK_MANAGER_INDEX: &'static str = ".kibana_task_manager/";

/// The search operation, relative to the index.
pub const SEARCH_API: &'static str = "_search/";

/// The update operation, relative to the index.
pub const UPDATE_API: &'static str = "_update/";

/// The query that asks the search operation for one page of the full size.
pub const SEARCH_PAGE: &'static str = "size=5000";

/// An execution node's operation to run a task, relative to the node's base address.
pub const KIBANA_RUN_NOW_API: &'static str = "api/task_manager/_run_now";

/// The most characters of an address to which a query is added, and of the query. The `url`
/// crate indexes an address by `u32`; with at most four bytes to a character of the address,
/// and twelve to an escaped character of the query, both stay well within that.
pub const MAX_ADDRESS_CHARS: usize = 0x03ff_ffff;

#[verifier::external_type_specification]
#[verifier::external_body]
pub struct ExUrl(url::Url);

/// The address that `Url::parse` reads from a text, if the text is an absolute address.
pub uninterp spec fn url_parsed(text: Seq<char>) -> Option<Url>;

/// The address that `Url::join` makes of a base address and a reference, if the reference
/// can be resolved.
pub uninterp spec fn url_joined(base: Url, reference: Seq<char>) -> Option<Url>;

/// The address that `Url::set_query` leaves when it is given a query.
pub uninterp spec fn url_with_query(address: Url, query: Seq<char>) -> Url;

/// The text of an address, as its `Display` implementation (`to_string`) writes it.
pub uninterp spec fn url_text(address: Url) -> Seq<char>;

/// Whether a byte stands for itself in an escaped text: an ASCII letter, a digit, a
/// hyphen, a full stop, an underscore or a tilde.
pub open spec fn unreserved_byte(byte: u8) -> bool {
    ||| 0x30 <= byte <= 0x39
    ||| 0x41 <= byte <= 0x5a
    ||| 0x61 <= byte <= 0x7a
    ||| byte == 0x2d
    ||| byte == 0x2e
    ||| byte == 0x5f
    ||| byte == 0x7e
}

/// The hexadecimal digit, in upper case, of a number below sixteen.
pub open spec fn hex_digit(value: int) -> char {
    if value < 10 {
        (0x30 + value) as char
    } else {
        (0x41 + value - 10) as char
    }
}

/// What stands for a byte in an escaped text: the byte itself where it is unreserved, and
/// otherwise a percent sign and the two hexadecimal digits of the byte.
pub open spec fn escaped_byte(byte: u8) -> Seq<char> {
    if unreserved_byte(byte) {
        seq![byte as char]
    } else {
        seq!['%', hex_digit(byte as int / 16), hex_digit(byte as int % 16)]
    }
}

/// What stands for a row of bytes in an escaped text.
pub open spec fn escaped_bytes(bytes: Seq<u8>) -> Seq<char>
    decreases bytes.len(),
{
    if bytes.len() == 0 {
        Seq::empty()
    } else {
        escaped_bytes(bytes.drop_last()) + escaped_byte(bytes.last())
    }
}

/// The escaped text of a text: that of its UTF-8 bytes.
pub open spec fn percent_encoded(text: Seq<char>) -> Seq<char> {
    escaped_bytes(encode_utf8(text))
}

/// The text that `urlencoding::decode` makes of a text, if what the escapes stand for is
/// UTF-8.
pub uninterp spec fn percent_decoded(text: Seq<char>) -> Option<Seq<char>>;

/// Calls `Url::parse`. `None` stands for every parse error.
#[verifier::external_body]
fn parse_url(text: &str) -> (address: Option<Url>)
    ensures
        address == url_parsed(text@),
{
    Url::parse(text).ok()
}

/// Calls `Url::join`. `None` stands for every parse error.
#[verifier::external_body]
fn join_url(base: &Url, reference: &str) -> (address: Option<Url>)
    ensures
        address == url_joined(*base, reference@),
{
    base.join(reference).ok()
}

/// Calls `Url::set_query` with a query. The crate indexes an address by `u32` and panics
/// where the address, before or after it has taken the query, is longer than that in bytes,
/// which the bounds on the characters of both rule out.
#[verifier::external_body]
fn set_query(address: Url, query: &str) -> (extended: Url)
    requires
        url_text(address).len() <= MAX_ADDRESS_CHARS,
        query@.len() <= MAX_ADDRESS_CHARS,
    ensures
        extended == url_with_query(address, query@),
{
    let mut extended = address;
    extended.set_query(Some(query));
    extended
}

/// Calls `to_string` on an address (`Display` of `Url`).
#[verifier::external_body]
fn show_url(address: &Url) -> (text: String)
    ensures
        text@ == url_text(*address),
{
    address.to_string()
}

/// Calls `urlencoding::encode`, which escapes every byte of the text's UTF-8 form but the
/// unreserved ones, with hexadecimal digits in upper case.
#[verifier::external_body]
fn encode(text: &str) -> (escaped: String)
    ensures
        escaped@ == percent_encoded(text@),
{
    urlencoding::encode(text).into_owned()
}

/// Calls `urlencoding::decode`. `None` stands for its one error: what the escapes stand for
/// is not UTF-8.
#[verifier::external_body]
fn decode(text: &str) -> (plain: Option<String>)
    ensures
        match plain {
            Some(plain) => percent_decoded(text@) == Some(plain@),
            None => percent_decoded(text@) is None,
        },
{
    match urlencoding::decode(text) {
        Ok(plain) => Some(plain.into_owned()),
        Err(_) => None,
    }
}

/// Why an address could not be put together.
#[derive(Debug, Clone, Copy, PartialEq, Eq, Structural)]
pub enum UrlError {
    /// The base address is no absolute address.
    InvalidBase,
    /// A reference could not be resolved against the address before it.
    InvalidReference,
    /// The address is too long to take a query.
    TooLong,
    /// The escapes of the address do not stand for UTF-8.
    InvalidEncoding,
}

/// The address of an operation on the index of tasks, for a task store at `base`.
pub open spec fn tm_url(base: Seq<char>, api: Seq<char>) -> Result<Url, UrlError> {
    match url_parsed(base) {
        Some(store) => match url_joined(store, TASK_MANAGER_INDEX@) {
            Some(index) => match url_joined(index, api) {
                Some(operation) => Ok(operation),
                None => Err(UrlError::InvalidReference),
            },
            None => Err(UrlError::InvalidReference),
        },
        None => Err(UrlError::InvalidBase),
    }
}

/// The text of an address with its escapes resolved.
pub open spec fn plain_text(address: Url) -> Result<Seq<char>, UrlError> {
    match percent_decoded(url_text(address)) {
        Some(plain) => Ok(plain),
        None => Err(UrlError::InvalidEncoding),
    }
}

/// The address of the search for one page of tasks, for a task store at `base`.
pub open spec fn search_url(base: Seq<char>) -> Result<Seq<char>, UrlError> {
    match tm_url(base, SEARCH_API@) {
        Ok(search) => if url_text(search).len() <= MAX_ADDRESS_CHARS {
            Ok(url_text(url_with_query(search, SEARCH_PAGE@)))
        } else {
            Err(UrlError::TooLong)
        },
        Err(error) => Err(error),
    }
}

/// The address of the update of the task `id`, for a task store at `base`.
pub open spec fn update_url(base: Seq<char>, id: Seq<char>) -> Result<Seq<char>, UrlError> {
    match tm_url(base, UPDATE_API@) {
        Ok(update) => match url_joined(update, percent_encoded(id)) {
            Some(document) => plain_text(document),
            None => Err(UrlError::InvalidReference),
        },
        Err(error) => Err(error),
    }
}

/// The address at which the execution node at `path` runs a task.
pub open spec fn run_now_url(path: Seq<char>) -> Result<Seq<char>, UrlError> {
    match url_parsed(path) {
        Some(node) => match url_joined(node, KIBANA_RUN_NOW_API@) {
            Some(operation) => plain_text(operation),
            None => Err(UrlError::InvalidReference),
        },
        None => Err(UrlError::InvalidBase),
    }
}

/// Writes an address out with its escapes resolved.
fn show_plain(address: &Url) -> (text: Result<String, UrlError>)
    ensures
        match text {
            Ok(text) => plain_text(*address) == Ok::<Seq<char>, UrlError>(text@),
            Err(error) => plain_text(*address) == Err::<Seq<char>, UrlError>(error),
        },
{
    let escaped = show_url(address);
    match decode(escaped.as_str()) {
        Some(plain) => Ok(plain),
        None => Err(UrlError::InvalidEncoding),
    }
}

/// Puts together the address of an operation on the index of tasks.
pub fn build_tm_url(config: &Config, api: &str) -> (address: Result<Url, UrlError>)
    ensures
        address == tm_url(config@.elasticsearch_path, api@),
{
    let store = match parse_url(config.elasticsearch_path.as_str()) {
        Some(store) => store,
        None => {
            return Err(UrlError::InvalidBase);
        },
    };
    let index = match join_url(&store, TASK_MANAGER_INDEX) {
        Some(index) => index,
        None => {
            return Err(UrlError::InvalidReference);
        },
    };
    match join_url(&index, api) {
        Some(operation) => Ok(operation),
        None => Err(UrlError::InvalidReference),
    }
}

/// Puts together the address of the search for one page of tasks.
pub fn get_search_url(config: &Config) -> (address: Result<String, UrlError>)
    ensures
        match address {
            Ok(text) => search_url(config@.elasticsearch_path) == Ok::<Seq<char>, UrlError>(
                text@,
            ),
            Err(error) => search_url(config@.elasticsearch_path) == Err::<Seq<char>, UrlError>(
                error,
            ),
        },
{
    let search = match build_tm_url(config, SEARCH_API) {
        Ok(search) => search,
        Err(error) => {
            return Err(error);
        },
    };
    if show_url(&search).as_str().unicode_len() > MAX_ADDRESS_CHARS {
        return Err(UrlError::TooLong);
    }
    proof {
        reveal_strlit("size=5000");
    }
    Ok(show_url(&set_query(search, SEARCH_PAGE)))
}

/// Puts together the address of the update of the task `id`.
pub fn get_update_url_from_id(config: &Config, id: &str) -> (address: Result<String, UrlError>)
    ensures
        match address {
            Ok(text) => update_url(config@.elasticsearch_path, id@) == Ok::<
                Seq<char>,
                UrlError,
            >(text@),
            Err(error) => update_url(config@.elasticsearch_path, id@) == Err::<
                Seq<char>,
                UrlError,
            >(error),
        },
{
    let update = match build_tm_url(config, UPDATE_API) {
        Ok(update) => update,
        Err(error) => {
            return Err(error);
        },
    };
    let escaped = encode(id);
    match join_url(&update, escaped.as_str()) {
        Some(document) => show_plain(&document),
        None => Err(UrlError::InvalidReference),
    }
}

/// Puts together the address at which the execution node at `path` runs a task.
pub fn get_run_now_url(path: &str) -> (address: Result<String, UrlError>)
    ensures
        match address {
            Ok(text) => run_now_url(path@) == Ok::<Seq<char>, UrlError>(text@),
            Err(error) => run_now_url(path@) == Err::<Seq<char>, UrlError>(error),
        },
{
    let node = match parse_url(path) {
        Some(node) => node,
        None => {
            return Err(UrlError::InvalidBase);
        },
    };
    match join_url(&node, KIBANA_RUN_NOW_API) {
        Some(operation) => show_plain(&operation),
        None => Err(UrlError::InvalidReference),
    }
}

} // verus!
