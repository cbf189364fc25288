//! The configuration file: a TOML document with a `[telegram]` table
//! (`api_id`, `api_hash`, optional `tdlib_log_verbosity`) and an optional
//! `[channel]` table (`chat`, optional `message_limit`). Keys that the
//! reader does not know are ignored.

use vstd::prelude::*;
use crate::decimal::{parse_i32, parse_i32_spec, decimal_text, lemma_decimal_roundtrip};
use crate::text::push_str;

verus! {

#[verifier::external_type_specification]
#[verifier::external_body]
#[verifier::reject_recursive_types(K)]
#[verifier::reject_recursive_types(V)]
pub struct ExTomlMap<K, V>(toml::map::Map<K, V>);

#[verifier::external_type_specification]
#[verifier::external_body]
pub struct ExTomlValue(toml::Value);

/// A value inside a TOML array, as far as the configuration reads it: a
/// nested array or table is known by its kind only.
pub enum TomlElement {
    Text(Seq<char>),
    Integer(int),
    Float,
    Boolean(bool),
    Datetime,
    Array,
    Table,
}

/// A TOML value, as far as the configuration reads it.
pub enum TomlItem {
    Text(Seq<char>),
    Integer(int),
    Float,
    Boolean(bool),
    Datetime,
    Array(Seq<TomlElement>),
    Table(Map<Seq<char>, TomlItem>),
}

/// The kind of a value, with its text, number or truth value.
pub open spec fn shallow(item: TomlItem) -> TomlElement {
    match item {
        TomlItem::Text(s) => TomlElement::Text(s),
        TomlItem::Integer(i) => TomlElement::Integer(i),
        TomlItem::Float => TomlElement::Float,
        TomlItem::Boolean(b) => TomlElement::Boolean(b),
        TomlItem::Datetime => TomlElement::Datetime,
        TomlItem::Array(_) => TomlElement::Array,
        TomlItem::Table(_) => TomlElement::Table,
    }
}

pub open spec fn shallow_entry(item: Option<TomlItem>) -> Option<TomlElement> {
    match item {
        Some(i) => Some(shallow(i)),
        None => None,
    }
}

/// The entries of a TOML table: each key with its value.
pub uninterp spec fn table_entries(table: toml::Table) -> Map<Seq<char>, TomlItem>;

/// The values of a TOML array, in order.
pub uninterp spec fn array_items(array: Vec<toml::Value>) -> Seq<TomlElement>;

/// What `toml::from_str::<toml::Table>` gives for a text: the entries of the
/// document's top-level table, or, when the text is not a valid TOML
/// document, the error's message as `toml::de::Error` displays it.
pub uninterp spec fn toml_document(content: Seq<char>) -> Result<Map<Seq<char>, TomlItem>, Seq<char>>;

/// The value stored under a key of a TOML table.
pub enum TomlEntry {
    Missing,
    Text(String),
    Integer(i64),
    Float,
    Boolean(bool),
    Datetime,
    Array(Vec<toml::Value>),
    Table(toml::Table),
}

impl View for TomlEntry {
    type V = Option<TomlItem>;

    open spec fn view(&self) -> Option<TomlItem> {
        match self {
            TomlEntry::Missing => None,
            TomlEntry::Text(s) => Some(TomlItem::Text(s@)),
            TomlEntry::Integer(i) => Some(TomlItem::Integer(*i as int)),
            TomlEntry::Float => Some(TomlItem::Float),
            TomlEntry::Boolean(b) => Some(TomlItem::Boolean(*b)),
            TomlEntry::Datetime => Some(TomlItem::Datetime),
            TomlEntry::Array(a) => Some(TomlItem::Array(array_items(*a))),
            TomlEntry::Table(t) => Some(TomlItem::Table(table_entries(*t))),
        }
    }
}

/// A value read for a field: its kind, with its text, number or truth value.
pub enum TomlScalar {
    Text(String),
    Integer(i64),
    Float,
    Boolean(bool),
    Datetime,
    Array,
    Table,
}

impl View for TomlScalar {
    type V = TomlElement;

    open spec fn view(&self) -> TomlElement {
        match self {
            TomlScalar::Text(s) => TomlElement::Text(s@),
            TomlScalar::Integer(i) => TomlElement::Integer(*i as int),
            TomlScalar::Float => TomlElement::Float,
            TomlScalar::Boolean(b) => TomlElement::Boolean(*b),
            TomlScalar::Datetime => TomlElement::Datetime,
            TomlScalar::Array => TomlElement::Array,
            TomlScalar::Table => TomlElement::Table,
        }
    }
}

pub open spec fn scalar_view(e: Option<TomlScalar>) -> Option<TomlElement> {
    match e {
        Some(x) => Some(x@),
        None => None,
    }
}

/// `toml::from_str::<toml::Table>`: parses a TOML document; an error is
/// turned into its message (`Display` of `toml::de::Error`).
/// Trusted: the table or the message is what `toml_document` names for the
/// text.
#[verifier::external_body]
fn parse_document(content: &str) -> (res: Result<toml::Table, String>)
    ensures
        match res {
            Ok(t) => toml_document(content@) == Ok::<Map<Seq<char>, TomlItem>, Seq<char>>(table_entries(t)),
            Err(m) => toml_document(content@) == Err::<Map<Seq<char>, TomlItem>, Seq<char>>(m@),
        },
{
    match toml::from_str::<toml::Table>(content) {
        Ok(t) => Ok(t),
        Err(e) => Err(e.to_string()),
    }
}

/// `toml::Table::get`, telling the kinds of TOML values apart.
/// Trusted: the entry is the one the table holds under `key`, if any; an
/// array holds as many values as the vector.
#[verifier::external_body]
fn lookup(table: &toml::Table, key: &str) -> (res: TomlEntry)
    ensures
        res@ == table_entries(*table).get(key@),
        res matches TomlEntry::Array(a) ==> array_items(a).len() == a@.len(),
{
    match table.get(key) {
        None => TomlEntry::Missing,
        Some(toml::Value::String(s)) => TomlEntry::Text(s.clone()),
        Some(toml::Value::Integer(i)) => TomlEntry::Integer(*i),
        Some(toml::Value::Float(_)) => TomlEntry::Float,
        Some(toml::Value::Boolean(b)) => TomlEntry::Boolean(*b),
        Some(toml::Value::Datetime(_)) => TomlEntry::Datetime,
        Some(toml::Value::Array(a)) => TomlEntry::Array(a.clone()),
        Some(toml::Value::Table(t)) => TomlEntry::Table(t.clone()),
    }
}

/// Indexing a TOML array (`Vec<toml::Value>`), telling the kinds of TOML
/// values apart.
/// Trusted: the value is the array's `i`-th one.
#[verifier::external_body]
fn element(array: &Vec<toml::Value>, i: usize) -> (res: TomlScalar)
    requires
        i < array@.len(),
    ensures
        res@ == array_items(*array)[i as int],
{
    match &array[i] {
        toml::Value::String(s) => TomlScalar::Text(s.clone()),
        toml::Value::Integer(n) => TomlScalar::Integer(*n),
        toml::Value::Float(_) => TomlScalar::Float,
        toml::Value::Boolean(b) => TomlScalar::Boolean(*b),
        toml::Value::Datetime(_) => TomlScalar::Datetime,
        toml::Value::Array(_) => TomlScalar::Array,
        toml::Value::Table(_) => TomlScalar::Table,
    }
}

/// The `[telegram]` section.
#[derive(Debug, Clone, PartialEq, Eq)]
pub struct TelegramConfig {
    pub api_id: i32,
    pub api_hash: String,
    pub tdlib_log_verbosity: Option<i32>,
}

/// The optional `[channel]` section.
#[derive(Debug, Clone, PartialEq, Eq)]
pub struct ChannelConfig {
    pub chat: String,
    pub message_limit: Option<i32>,
}

/// The whole configuration.
#[derive(Debug, Clone, PartialEq, Eq)]
pub struct Config {
    pub telegram: TelegramConfig,
    pub channel: Option<ChannelConfig>,
}

pub struct TelegramConfigView {
    pub api_id: i32,
    pub api_hash: Seq<char>,
    pub tdlib_log_verbosity: Option<i32>,
}

pub struct ChannelConfigView {
    pub chat: Seq<char>,
    pub message_limit: Option<i32>,
}

pub struct ConfigView {
    pub telegram: TelegramConfigView,
    pub channel: Option<ChannelConfigView>,
}

impl View for TelegramConfig {
    type V = TelegramConfigView;

    open spec fn view(&self) -> TelegramConfigView {
        TelegramConfigView { api_id: self.api_id, api_hash: self.api_hash@, tdlib_log_verbosity: self.tdlib_log_verbosity }
    }
}

impl View for ChannelConfig {
    type V = ChannelConfigView;

    open spec fn view(&self) -> ChannelConfigView {
        ChannelConfigView { chat: self.chat@, message_limit: self.message_limit }
    }
}

impl View for Config {
    type V = ConfigView;

    open spec fn view(&self) -> ConfigView {
        ConfigView {
            telegram: self.telegram@,
            channel: match self.channel {
                Some(c) => Some(c@),
                None => None,
            },
        }
    }
}

/// The entries of the configuration.
#[derive(Debug, Clone, Copy, PartialEq, Eq)]
pub enum ConfigField {
    Telegram,
    ApiId,
    ApiHash,
    TdlibLogVerbosity,
    Channel,
    Chat,
    MessageLimit,
}

/// Why a configuration was refused.
#[derive(Debug, Clone, PartialEq, Eq)]
pub enum ConfigError {
    /// The text is not a TOML document; the parser's message.
    Syntax(String),
    /// A required entry is absent.
    Missing(ConfigField),
    /// An entry holds another kind of TOML value than it should.
    WrongType(ConfigField),
    /// An integer entry does not fit in 32 bits.
    OutOfRange(ConfigField),
    /// `api_id` is a string that is not a 32-bit decimal integer.
    InvalidApiId(String),
    /// A section written as an array has too few values.
    TooShort(ConfigField),
}

pub enum ConfigErrorView {
    Syntax(Seq<char>),
    Missing(ConfigField),
    WrongType(ConfigField),
    OutOfRange(ConfigField),
    InvalidApiId(Seq<char>),
    TooShort(ConfigField),
}

impl View for ConfigError {
    type V = ConfigErrorView;

    open spec fn view(&self) -> ConfigErrorView {
        match self {
            ConfigError::Syntax(m) => ConfigErrorView::Syntax(m@),
            ConfigError::Missing(f) => ConfigErrorView::Missing(*f),
            ConfigError::WrongType(f) => ConfigErrorView::WrongType(*f),
            ConfigError::OutOfRange(f) => ConfigErrorView::OutOfRange(*f),
            ConfigError::InvalidApiId(s) => ConfigErrorView::InvalidApiId(s@),
            ConfigError::TooShort(f) => ConfigErrorView::TooShort(*f),
        }
    }
}

pub open spec fn key_telegram() -> Seq<char> { "telegram"@ }
pub open spec fn key_channel() -> Seq<char> { "channel"@ }
pub open spec fn key_api_id() -> Seq<char> { "api_id"@ }
pub open spec fn key_api_hash() -> Seq<char> { "api_hash"@ }
pub open spec fn key_verbosity() -> Seq<char> { "tdlib_log_verbosity"@ }
pub open spec fn key_chat() -> Seq<char> { "chat"@ }
pub open spec fn key_message_limit() -> Seq<char> { "message_limit"@ }

pub open spec fn fits_i32(i: int) -> bool {
    i32::MIN <= i <= i32::MAX
}

/// `api_id`: an integer, or a string holding a decimal integer, that fits in
/// 32 bits.
pub open spec fn api_id_spec(item: Option<TomlElement>) -> Result<i32, ConfigErrorView> {
    match item {
        None => Err(ConfigErrorView::Missing(ConfigField::ApiId)),
        Some(TomlElement::Integer(i)) => if fits_i32(i) {
            Ok(i as i32)
        } else {
            Err(ConfigErrorView::OutOfRange(ConfigField::ApiId))
        },
        Some(TomlElement::Text(s)) => match parse_i32_spec(s) {
            Some(v) => Ok(v),
            None => Err(ConfigErrorView::InvalidApiId(s)),
        },
        Some(_) => Err(ConfigErrorView::WrongType(ConfigField::ApiId)),
    }
}

/// A required string entry.
pub open spec fn text_spec(item: Option<TomlElement>, field: ConfigField) -> Result<Seq<char>, ConfigErrorView> {
    match item {
        None => Err(ConfigErrorView::Missing(field)),
        Some(TomlElement::Text(s)) => Ok(s),
        Some(_) => Err(ConfigErrorView::WrongType(field)),
    }
}

/// An optional 32-bit integer entry.
pub open spec fn optional_i32_spec(item: Option<TomlElement>, field: ConfigField) -> Result<Option<i32>, ConfigErrorView> {
    match item {
        None => Ok(None),
        Some(TomlElement::Integer(i)) => if fits_i32(i) {
            Ok(Some(i as i32))
        } else {
            Err(ConfigErrorView::OutOfRange(field))
        },
        Some(_) => Err(ConfigErrorView::WrongType(field)),
    }
}

/// The `[telegram]` section from its three values, in the order `api_id`,
/// `api_hash`, `tdlib_log_verbosity`, each checked in turn.
pub open spec fn telegram_fields(
    api_id: Option<TomlElement>,
    api_hash: Option<TomlElement>,
    verbosity: Option<TomlElement>,
) -> Result<TelegramConfigView, ConfigErrorView> {
    match api_id_spec(api_id) {
        Err(e) => Err(e),
        Ok(api_id) => match text_spec(api_hash, ConfigField::ApiHash) {
            Err(e) => Err(e),
            Ok(api_hash) => match optional_i32_spec(verbosity, ConfigField::TdlibLogVerbosity) {
                Err(e) => Err(e),
                Ok(v) => Ok(TelegramConfigView { api_id, api_hash, tdlib_log_verbosity: v }),
            },
        },
    }
}

/// The `[telegram]` section written as a table.
pub open spec fn telegram_spec(t: Map<Seq<char>, TomlItem>) -> Result<TelegramConfigView, ConfigErrorView> {
    telegram_fields(
        shallow_entry(t.get(key_api_id())),
        shallow_entry(t.get(key_api_hash())),
        shallow_entry(t.get(key_verbosity())),
    )
}

/// The `[telegram]` section written as an array of its values in field
/// order: `api_id` and `api_hash` must be there, `tdlib_log_verbosity` may
/// be left out, and values past the third are not read.
pub open spec fn telegram_seq_spec(s: Seq<TomlElement>) -> Result<TelegramConfigView, ConfigErrorView> {
    if s.len() < 1 {
        Err(ConfigErrorView::TooShort(ConfigField::Telegram))
    } else {
        match api_id_spec(Some(s[0])) {
            Err(e) => Err(e),
            Ok(_) => if s.len() < 2 {
                Err(ConfigErrorView::TooShort(ConfigField::Telegram))
            } else {
                telegram_fields(Some(s[0]), Some(s[1]), if s.len() < 3 { None } else { Some(s[2]) })
            },
        }
    }
}

/// The `[channel]` section from its two values, `chat` checked before
/// `message_limit`.
pub open spec fn channel_fields(chat: Option<TomlElement>, limit: Option<TomlElement>) -> Result<ChannelConfigView, ConfigErrorView> {
    match text_spec(chat, ConfigField::Chat) {
        Err(e) => Err(e),
        Ok(chat) => match optional_i32_spec(limit, ConfigField::MessageLimit) {
            Err(e) => Err(e),
            Ok(m) => Ok(ChannelConfigView { chat, message_limit: m }),
        },
    }
}

/// The `[channel]` section written as a table.
pub open spec fn channel_spec(t: Map<Seq<char>, TomlItem>) -> Result<ChannelConfigView, ConfigErrorView> {
    channel_fields(shallow_entry(t.get(key_chat())), shallow_entry(t.get(key_message_limit())))
}

/// The `[channel]` section written as an array of its values in field
/// order: both `chat` and `message_limit` must be there, and values past the
/// second are not read.
pub open spec fn channel_seq_spec(s: Seq<TomlElement>) -> Result<ChannelConfigView, ConfigErrorView> {
    if s.len() < 1 {
        Err(ConfigErrorView::TooShort(ConfigField::Channel))
    } else {
        match text_spec(Some(s[0]), ConfigField::Chat) {
            Err(e) => Err(e),
            Ok(_) => if s.len() < 2 {
                Err(ConfigErrorView::TooShort(ConfigField::Channel))
            } else {
                channel_fields(Some(s[0]), Some(s[1]))
            },
        }
    }
}

/// The `telegram` entry of a document: a table or an array.
pub open spec fn telegram_section(item: Option<TomlItem>) -> Result<TelegramConfigView, ConfigErrorView> {
    match item {
        None => Err(ConfigErrorView::Missing(ConfigField::Telegram)),
        Some(TomlItem::Table(t)) => telegram_spec(t),
        Some(TomlItem::Array(s)) => telegram_seq_spec(s),
        Some(_) => Err(ConfigErrorView::WrongType(ConfigField::Telegram)),
    }
}

/// The `channel` entry of a document: absent, a table or an array.
pub open spec fn channel_section(item: Option<TomlItem>) -> Result<Option<ChannelConfigView>, ConfigErrorView> {
    match item {
        None => Ok(None),
        Some(TomlItem::Table(c)) => match channel_spec(c) {
            Ok(ch) => Ok(Some(ch)),
            Err(e) => Err(e),
        },
        Some(TomlItem::Array(s)) => match channel_seq_spec(s) {
            Ok(ch) => Ok(Some(ch)),
            Err(e) => Err(e),
        },
        Some(_) => Err(ConfigErrorView::WrongType(ConfigField::Channel)),
    }
}

/// The configuration a document's top-level table describes; `telegram`
/// is checked before `channel`.
pub open spec fn config_spec(doc: Map<Seq<char>, TomlItem>) -> Result<ConfigView, ConfigErrorView> {
    match telegram_section(doc.get(key_telegram())) {
        Err(e) => Err(e),
        Ok(tg) => match channel_section(doc.get(key_channel())) {
            Ok(ch) => Ok(ConfigView { telegram: tg, channel: ch }),
            Err(e) => Err(e),
        },
    }
}

/// The configuration a text describes: a syntax error with the TOML
/// parser's message, or what `config_spec` says of the document.
pub open spec fn parsed_config(content: Seq<char>) -> Result<ConfigView, ConfigErrorView> {
    match toml_document(content) {
        Err(m) => Err(ConfigErrorView::Syntax(m)),
        Ok(doc) => config_spec(doc),
    }
}

pub open spec fn result_view<T: View, E: View>(r: Result<T, E>) -> Result<T::V, E::V> {
    match r {
        Ok(t) => Ok(t@),
        Err(e) => Err(e@),
    }
}

fn api_id_of(e: Option<TomlScalar>) -> (res: Result<i32, ConfigError>)
    ensures
        result_view(res) == api_id_spec(scalar_view(e)),
{
    match e {
        None => Err(ConfigError::Missing(ConfigField::ApiId)),
        Some(TomlScalar::Integer(i)) => if i32::MIN as i64 <= i && i <= i32::MAX as i64 {
            Ok(i as i32)
        } else {
            Err(ConfigError::OutOfRange(ConfigField::ApiId))
        },
        Some(TomlScalar::Text(s)) => match parse_i32(s.as_str()) {
            Some(v) => Ok(v),
            None => Err(ConfigError::InvalidApiId(s)),
        },
        Some(_) => Err(ConfigError::WrongType(ConfigField::ApiId)),
    }
}

fn text_of(e: Option<TomlScalar>, field: ConfigField) -> (res: Result<String, ConfigError>)
    ensures
        result_view(res) == text_spec(scalar_view(e), field),
{
    match e {
        None => Err(ConfigError::Missing(field)),
        Some(TomlScalar::Text(s)) => Ok(s),
        Some(_) => Err(ConfigError::WrongType(field)),
    }
}

fn optional_i32_of(e: Option<TomlScalar>, field: ConfigField) -> (res: Result<Option<i32>, ConfigError>)
    ensures
        match res {
            Ok(v) => optional_i32_spec(scalar_view(e), field) == Ok::<Option<i32>, ConfigErrorView>(v),
            Err(x) => optional_i32_spec(scalar_view(e), field) == Err::<Option<i32>, ConfigErrorView>(x@),
        },
{
    match e {
        None => Ok(None),
        Some(TomlScalar::Integer(i)) => if i32::MIN as i64 <= i && i <= i32::MAX as i64 {
            Ok(Some(i as i32))
        } else {
            Err(ConfigError::OutOfRange(field))
        },
        Some(_) => Err(ConfigError::WrongType(field)),
    }
}

/// The value under `key`, by its kind.
fn scalar_at(t: &toml::Table, key: &str) -> (res: Option<TomlScalar>)
    ensures
        scalar_view(res) == shallow_entry(table_entries(*t).get(key@)),
{
    match lookup(t, key) {
        TomlEntry::Missing => None,
        TomlEntry::Text(s) => Some(TomlScalar::Text(s)),
        TomlEntry::Integer(i) => Some(TomlScalar::Integer(i)),
        TomlEntry::Float => Some(TomlScalar::Float),
        TomlEntry::Boolean(b) => Some(TomlScalar::Boolean(b)),
        TomlEntry::Datetime => Some(TomlScalar::Datetime),
        TomlEntry::Array(_) => Some(TomlScalar::Array),
        TomlEntry::Table(_) => Some(TomlScalar::Table),
    }
}

/// The `i`-th value of an array, if it has one.
fn element_at(a: &Vec<toml::Value>, i: usize) -> (res: Option<TomlScalar>)
    requires
        array_items(*a).len() == a@.len(),
    ensures
        scalar_view(res) == (if i < array_items(*a).len() { Some(array_items(*a)[i as int]) } else { None::<TomlElement> }),
{
    if i < a.len() {
        Some(element(a, i))
    } else {
        None
    }
}

fn telegram_from_fields(api_id: Option<TomlScalar>, api_hash: Option<TomlScalar>, verbosity: Option<TomlScalar>)
    -> (res: Result<TelegramConfig, ConfigError>)
    ensures
        result_view(res) == telegram_fields(scalar_view(api_id), scalar_view(api_hash), scalar_view(verbosity)),
{
    let api_id = match api_id_of(api_id) {
        Ok(v) => v,
        Err(e) => return Err(e),
    };
    let api_hash = match text_of(api_hash, ConfigField::ApiHash) {
        Ok(v) => v,
        Err(e) => return Err(e),
    };
    let tdlib_log_verbosity = match optional_i32_of(verbosity, ConfigField::TdlibLogVerbosity) {
        Ok(v) => v,
        Err(e) => return Err(e),
    };
    Ok(TelegramConfig { api_id, api_hash, tdlib_log_verbosity })
}

fn channel_from_fields(chat: Option<TomlScalar>, limit: Option<TomlScalar>) -> (res: Result<ChannelConfig, ConfigError>)
    ensures
        result_view(res) == channel_fields(scalar_view(chat), scalar_view(limit)),
{
    let chat = match text_of(chat, ConfigField::Chat) {
        Ok(v) => v,
        Err(e) => return Err(e),
    };
    let message_limit = match optional_i32_of(limit, ConfigField::MessageLimit) {
        Ok(v) => v,
        Err(e) => return Err(e),
    };
    Ok(ChannelConfig { chat, message_limit })
}

impl TelegramConfig {
    /// Reads the `[telegram]` section written as a table.
    pub fn from_table(t: &toml::Table) -> (res: Result<TelegramConfig, ConfigError>)
        ensures
            result_view(res) == telegram_spec(table_entries(*t)),
    {
        let id_key = "api_id";
        let hash_key = "api_hash";
        let verbosity_key = "tdlib_log_verbosity";
        proof {
            assert(id_key@ == key_api_id());
            assert(hash_key@ == key_api_hash());
            assert(verbosity_key@ == key_verbosity());
        }
        telegram_from_fields(scalar_at(t, id_key), scalar_at(t, hash_key), scalar_at(t, verbosity_key))
    }

    fn from_array(a: &Vec<toml::Value>) -> (res: Result<TelegramConfig, ConfigError>)
        requires
            array_items(*a).len() == a@.len(),
        ensures
            result_view(res) == telegram_seq_spec(array_items(*a)),
    {
        let first = element_at(a, 0);
        if first.is_none() {
            return Err(ConfigError::TooShort(ConfigField::Telegram));
        }
        let api_id = match api_id_of(first) {
            Ok(v) => v,
            Err(e) => return Err(e),
        };
        let second = element_at(a, 1);
        if second.is_none() {
            return Err(ConfigError::TooShort(ConfigField::Telegram));
        }
        let api_hash = match text_of(second, ConfigField::ApiHash) {
            Ok(v) => v,
            Err(e) => return Err(e),
        };
        let tdlib_log_verbosity = match optional_i32_of(element_at(a, 2), ConfigField::TdlibLogVerbosity) {
            Ok(v) => v,
            Err(e) => return Err(e),
        };
        Ok(TelegramConfig { api_id, api_hash, tdlib_log_verbosity })
    }
}

impl ChannelConfig {
    /// Reads the `[channel]` section written as a table.
    pub fn from_table(t: &toml::Table) -> (res: Result<ChannelConfig, ConfigError>)
        ensures
            result_view(res) == channel_spec(table_entries(*t)),
    {
        let chat_key = "chat";
        let limit_key = "message_limit";
        proof {
            assert(chat_key@ == key_chat());
            assert(limit_key@ == key_message_limit());
        }
        channel_from_fields(scalar_at(t, chat_key), scalar_at(t, limit_key))
    }

    fn from_array(a: &Vec<toml::Value>) -> (res: Result<ChannelConfig, ConfigError>)
        requires
            array_items(*a).len() == a@.len(),
        ensures
            result_view(res) == channel_seq_spec(array_items(*a)),
    {
        let first = element_at(a, 0);
        if first.is_none() {
            return Err(ConfigError::TooShort(ConfigField::Channel));
        }
        let chat = match text_of(first, ConfigField::Chat) {
            Ok(v) => v,
            Err(e) => return Err(e),
        };
        let second = element_at(a, 1);
        if second.is_none() {
            return Err(ConfigError::TooShort(ConfigField::Channel));
        }
        let message_limit = match optional_i32_of(second, ConfigField::MessageLimit) {
            Ok(v) => v,
            Err(e) => return Err(e),
        };
        Ok(ChannelConfig { chat, message_limit })
    }
}

impl Config {
    /// Reads a configuration from the top-level table of a TOML document.
    pub fn from_table(doc: &toml::Table) -> (res: Result<Config, ConfigError>)
        ensures
            result_view(res) == config_spec(table_entries(*doc)),
    {
        let telegram_key = "telegram";
        proof { assert(telegram_key@ == key_telegram()); }
        let telegram = match lookup(doc, telegram_key) {
            TomlEntry::Missing => return Err(ConfigError::Missing(ConfigField::Telegram)),
            TomlEntry::Table(t) => match TelegramConfig::from_table(&t) {
                Ok(tg) => tg,
                Err(e) => return Err(e),
            },
            TomlEntry::Array(a) => match TelegramConfig::from_array(&a) {
                Ok(tg) => tg,
                Err(e) => return Err(e),
            },
            _ => return Err(ConfigError::WrongType(ConfigField::Telegram)),
        };
        let channel_key = "channel";
        proof { assert(channel_key@ == key_channel()); }
        match lookup(doc, channel_key) {
            TomlEntry::Missing => Ok(Config { telegram, channel: None }),
            TomlEntry::Table(c) => match ChannelConfig::from_table(&c) {
                Ok(ch) => Ok(Config { telegram, channel: Some(ch) }),
                Err(e) => Err(e),
            },
            TomlEntry::Array(a) => match ChannelConfig::from_array(&a) {
                Ok(ch) => Ok(Config { telegram, channel: Some(ch) }),
                Err(e) => Err(e),
            },
            _ => Err(ConfigError::WrongType(ConfigField::Channel)),
        }
    }

    /// Reads a configuration from the text of a TOML document.
    pub fn from_toml(content: &str) -> (res: Result<Config, ConfigError>)
        ensures
            result_view(res) == parsed_config(content@),
    {
        match parse_document(content) {
            Ok(doc) => Config::from_table(&doc),
            Err(m) => Err(ConfigError::Syntax(m)),
        }
    }
}

/// The key of a configuration entry.
pub open spec fn field_key(f: ConfigField) -> Seq<char> {
    match f {
        ConfigField::Telegram => key_telegram(),
        ConfigField::ApiId => key_api_id(),
        ConfigField::ApiHash => key_api_hash(),
        ConfigField::TdlibLogVerbosity => key_verbosity(),
        ConfigField::Channel => key_channel(),
        ConfigField::Chat => key_chat(),
        ConfigField::MessageLimit => key_message_limit(),
    }
}

/// The key of a configuration entry.
pub fn field_name(f: ConfigField) -> (res: &'static str)
    ensures
        res@ == field_key(f),
{
    match f {
        ConfigField::Telegram => "telegram",
        ConfigField::ApiId => "api_id",
        ConfigField::ApiHash => "api_hash",
        ConfigField::TdlibLogVerbosity => "tdlib_log_verbosity",
        ConfigField::Channel => "channel",
        ConfigField::Chat => "chat",
        ConfigField::MessageLimit => "message_limit",
    }
}

/// How a refused configuration is described.
pub open spec fn config_error_text(e: ConfigErrorView) -> Seq<char> {
    match e {
        ConfigErrorView::Syntax(m) => m,
        ConfigErrorView::Missing(f) => "missing field `"@ + field_key(f) + "`"@,
        ConfigErrorView::WrongType(f) => "invalid type for field `"@ + field_key(f) + "`"@,
        ConfigErrorView::OutOfRange(f) => "integer out of range for field `"@ + field_key(f) + "`"@,
        ConfigErrorView::InvalidApiId(s) => "invalid api_id `"@ + s + "`: expected a 32-bit integer"@,
        ConfigErrorView::TooShort(f) => "too few values in `"@ + field_key(f) + "`"@,
    }
}

impl ConfigError {
    /// Describes the error.
    pub fn message(&self) -> (res: String)
        ensures
            res@ == config_error_text(self@),
    {
        let mut s = String::new();
        match self {
            ConfigError::Syntax(m) => push_str(&mut s, m.as_str()),
            ConfigError::Missing(f) => {
                push_str(&mut s, "missing field `");
                push_str(&mut s, field_name(*f));
                push_str(&mut s, "`");
            },
            ConfigError::WrongType(f) => {
                push_str(&mut s, "invalid type for field `");
                push_str(&mut s, field_name(*f));
                push_str(&mut s, "`");
            },
            ConfigError::OutOfRange(f) => {
                push_str(&mut s, "integer out of range for field `");
                push_str(&mut s, field_name(*f));
                push_str(&mut s, "`");
            },
            ConfigError::InvalidApiId(v) => {
                push_str(&mut s, "invalid api_id `");
                push_str(&mut s, v.as_str());
                push_str(&mut s, "`: expected a 32-bit integer");
            },
            ConfigError::TooShort(f) => {
                push_str(&mut s, "too few values in `");
                push_str(&mut s, field_name(*f));
                push_str(&mut s, "`");
            },
        }
        s
    }
}

pub open spec fn parse_failure_prefix() -> Seq<char> {
    "Failed to parse config: "@
}

impl Config {
    /// Parses the text of a configuration file; a refusal is described as
    /// `Failed to parse config: ` followed by the reason.
    pub fn parse(content: &str) -> (res: Result<Config, String>)
        ensures
            match parsed_config(content@) {
                Ok(c) => res is Ok && res->Ok_0@ == c,
                Err(e) => res is Err && res->Err_0@ == parse_failure_prefix() + config_error_text(e),
            },
    {
        match Config::from_toml(content) {
            Ok(c) => Ok(c),
            Err(e) => {
                let mut s = String::new();
                push_str(&mut s, "Failed to parse config: ");
                let m = e.message();
                push_str(&mut s, m.as_str());
                Err(s)
            },
        }
    }
}

proof fn lemma_keys_distinct()
    ensures
        key_telegram() != key_channel(),
        key_api_id() != key_api_hash(),
        key_api_id() != key_verbosity(),
        key_api_hash() != key_verbosity(),
        key_chat() != key_message_limit(),
{
    reveal_strlit("telegram");
    reveal_strlit("channel");
    reveal_strlit("api_id");
    reveal_strlit("api_hash");
    reveal_strlit("tdlib_log_verbosity");
    reveal_strlit("chat");
    reveal_strlit("message_limit");
    assert(key_telegram().len() != key_channel().len());
    assert(key_api_id().len() != key_api_hash().len());
    assert(key_api_id().len() != key_verbosity().len());
    assert(key_api_hash().len() != key_verbosity().len());
    assert(key_chat().len() != key_message_limit().len());
}

/// `api_id` may be written as a number or as a string holding that number:
/// both give the same `[telegram]` section.
pub proof fn lemma_api_id_number_or_string(t: Map<Seq<char>, TomlItem>, n: i32)
    ensures
        telegram_spec(t.insert(key_api_id(), TomlItem::Integer(n as int)))
            == telegram_spec(t.insert(key_api_id(), TomlItem::Text(decimal_text(n as int)))),
{
    lemma_keys_distinct();
    lemma_decimal_roundtrip(n as int);
    let a = t.insert(key_api_id(), TomlItem::Integer(n as int));
    let b = t.insert(key_api_id(), TomlItem::Text(decimal_text(n as int)));
    assert(a.get(key_api_hash()) == b.get(key_api_hash()));
    assert(a.get(key_verbosity()) == b.get(key_verbosity()));
    assert(api_id_spec(shallow_entry(a.get(key_api_id()))) == api_id_spec(shallow_entry(b.get(key_api_id()))));
}

/// The `[channel]` section may be left out: a document whose `[telegram]`
/// section is valid and that has no `channel` entry is accepted, with no
/// channel defaults.
pub proof fn lemma_channel_optional(doc: Map<Seq<char>, TomlItem>, t: Map<Seq<char>, TomlItem>)
    requires
        doc.get(key_telegram()) == Some(TomlItem::Table(t)),
        telegram_spec(t) is Ok,
        !doc.dom().contains(key_channel()),
    ensures
        config_spec(doc) == Ok::<ConfigView, ConfigErrorView>(ConfigView { telegram: telegram_spec(t)->Ok_0, channel: None }),
{
}

/// The `[channel]` table is read as written: its `chat` string is the chat
/// and its `message_limit` integer, when there is one, is the limit, whatever
/// its value.
pub proof fn lemma_channel_read_as_written(t: Map<Seq<char>, TomlItem>, chat: Seq<char>, limit: Option<i32>)
    requires
        t.get(key_chat()) == Some(TomlItem::Text(chat)),
        match limit {
            Some(n) => t.get(key_message_limit()) == Some(TomlItem::Integer(n as int)),
            None => !t.dom().contains(key_message_limit()),
        },
    ensures
        channel_spec(t) == Ok::<ChannelConfigView, ConfigErrorView>(ChannelConfigView { chat, message_limit: limit }),
{
}

/// The `[channel]` section written as an array is read as written too: its
/// first value is the chat and its second the limit.
pub proof fn lemma_channel_array_read_as_written(s: Seq<TomlElement>, chat: Seq<char>, limit: i32)
    requires
        s.len() >= 2,
        s[0] == TomlElement::Text(chat),
        s[1] == TomlElement::Integer(limit as int),
    ensures
        channel_seq_spec(s) == Ok::<ChannelConfigView, ConfigErrorView>(ChannelConfigView { chat, message_limit: Some(limit) }),
{
}

/// The `[telegram]` table is read as written: the `api_id` integer, the
/// `api_hash` string and the `tdlib_log_verbosity` integer, when there is
/// one.
pub proof fn lemma_telegram_read_as_written(
    t: Map<Seq<char>, TomlItem>,
    api_id: i32,
    api_hash: Seq<char>,
    verbosity: Option<i32>,
)
    requires
        t.get(key_api_id()) == Some(TomlItem::Integer(api_id as int)),
        t.get(key_api_hash()) == Some(TomlItem::Text(api_hash)),
        match verbosity {
            Some(v) => t.get(key_verbosity()) == Some(TomlItem::Integer(v as int)),
            None => !t.dom().contains(key_verbosity()),
        },
    ensures
        telegram_spec(t) == Ok::<TelegramConfigView, ConfigErrorView>(
            TelegramConfigView { api_id, api_hash, tdlib_log_verbosity: verbosity }),
{
}

/// The `[telegram]` section written as an array is read as written too:
/// `api_id`, `api_hash` and, when there is a third value,
/// `tdlib_log_verbosity`.
pub proof fn lemma_telegram_array_read_as_written(
    s: Seq<TomlElement>,
    api_id: i32,
    api_hash: Seq<char>,
    verbosity: Option<i32>,
)
    requires
        s[0] == TomlElement::Integer(api_id as int),
        s[1] == TomlElement::Text(api_hash),
        match verbosity {
            Some(v) => s.len() >= 3 && s[2] == TomlElement::Integer(v as int),
            None => s.len() == 2,
        },
    ensures
        telegram_seq_spec(s) == Ok::<TelegramConfigView, ConfigErrorView>(
            TelegramConfigView { api_id, api_hash, tdlib_log_verbosity: verbosity }),
{
}

/// A document with both sections written as tables is read as written: the
/// configuration holds the values of the file, the channel's message limit
/// among them.
pub proof fn lemma_config_read_as_written(
    doc: Map<Seq<char>, TomlItem>,
    tg: Map<Seq<char>, TomlItem>,
    ch: Map<Seq<char>, TomlItem>,
    api_id: i32,
    api_hash: Seq<char>,
    chat: Seq<char>,
    limit: i32,
)
    requires
        doc.get(key_telegram()) == Some(TomlItem::Table(tg)),
        doc.get(key_channel()) == Some(TomlItem::Table(ch)),
        tg.get(key_api_id()) == Some(TomlItem::Integer(api_id as int)),
        tg.get(key_api_hash()) == Some(TomlItem::Text(api_hash)),
        !tg.dom().contains(key_verbosity()),
        ch.get(key_chat()) == Some(TomlItem::Text(chat)),
        ch.get(key_message_limit()) == Some(TomlItem::Integer(limit as int)),
    ensures
        config_spec(doc) == Ok::<ConfigView, ConfigErrorView>(ConfigView {
            telegram: TelegramConfigView { api_id, api_hash, tdlib_log_verbosity: None },
            channel: Some(ChannelConfigView { chat, message_limit: Some(limit) }),
        }),
{
    lemma_telegram_read_as_written(tg, api_id, api_hash, None);
    lemma_channel_read_as_written(ch, chat, Some(limit));
}

/// Entries that the configuration does not know are ignored, at the top
/// level and in both sections.
pub proof fn lemma_unknown_keys_ignored(m: Map<Seq<char>, TomlItem>, k: Seq<char>, v: TomlItem)
    ensures
        k != key_telegram() && k != key_channel() ==> config_spec(m.insert(k, v)) == config_spec(m),
        k != key_api_id() && k != key_api_hash() && k != key_verbosity()
            ==> telegram_spec(m.insert(k, v)) == telegram_spec(m),
        k != key_chat() && k != key_message_limit() ==> channel_spec(m.insert(k, v)) == channel_spec(m),
{
    let m2 = m.insert(k, v);
    if k != key_telegram() && k != key_channel() {
        assert(m2.get(key_telegram()) == m.get(key_telegram()));
        assert(m2.get(key_channel()) == m.get(key_channel()));
    }
    if k != key_api_id() && k != key_api_hash() && k != key_verbosity() {
        assert(m2.get(key_api_id()) == m.get(key_api_id()));
        assert(m2.get(key_api_hash()) == m.get(key_api_hash()));
        assert(m2.get(key_verbosity()) == m.get(key_verbosity()));
    }
    if k != key_chat() && k != key_message_limit() {
        assert(m2.get(key_chat()) == m.get(key_chat()));
        assert(m2.get(key_message_limit()) == m.get(key_message_limit()));
    }
}

pub open spec fn not_found_text() -> Seq<char> {
    "Config file not found. Create ~/.config/tgrc/config.toml or ./config.toml\nSee config.example.toml for the required format."@
}

/// The outcome of loading the configuration from the first candidate file
/// that exists.
pub open spec fn load_spec(path: Seq<char>, read: Result<Seq<char>, Seq<char>>) -> Result<ConfigView, Seq<char>> {
    match read {
        Err(reason) => Err("Failed to read "@ + path + ": "@ + reason),
        Ok(content) => match parsed_config(content) {
            Ok(c) => Ok(c),
            Err(e) => Err("Failed to parse "@ + path + ": "@ + config_error_text(e)),
        },
    }
}

impl Config {
    /// The message given when none of the candidate files exists.
    pub fn not_found() -> (res: String)
        ensures
            res@ == not_found_text(),
    {
        let mut s = String::new();
        push_str(&mut s, "Config file not found. Create ~/.config/tgrc/config.toml or ./config.toml\nSee config.example.toml for the required format.");
        s
    }

    /// Loads the configuration from the file at `path`, given what reading
    /// it gave (its text, or why it could not be read).
    pub fn load_from(path: &str, read: Result<String, String>) -> (res: Result<Config, String>)
        ensures
            match load_spec(path@, match read { Ok(t) => Ok(t@), Err(r) => Err(r@) }) {
                Ok(c) => res is Ok && res->Ok_0@ == c,
                Err(m) => res is Err && res->Err_0@ == m,
            },
    {
        match read {
            Err(reason) => {
                let mut s = String::new();
                push_str(&mut s, "Failed to read ");
                push_str(&mut s, path);
                push_str(&mut s, ": ");
                push_str(&mut s, reason.as_str());
                Err(s)
            },
            Ok(content) => match Config::from_toml(content.as_str()) {
                Ok(c) => Ok(c),
                Err(e) => {
                    let mut s = String::new();
                    push_str(&mut s, "Failed to parse ");
                    push_str(&mut s, path);
                    push_str(&mut s, ": ");
                    let m = e.message();
                    push_str(&mut s, m.as_str());
                    Err(s)
                },
            },
        }
    }
}

} // verus!
