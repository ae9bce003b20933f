//! The stored configuration of the analysis service: the record, its
//! defaults, the fields that a configuration file holds, and what loading
//! and saving come to.
//!
//! Reading and writing a file, and the text format of its content, lie
//! outside this library. A file reaches it as the list of its top-level
//! fields ([`StoredField`]), inside a [`LoadAttempt`]; a record leaves it
//! the same way, and what came of writing it comes back as a
//! [`SaveAttempt`].

use vstd::prelude::*;
use crate::text::same_text;

verus! {

/// The configuration record. Every field may be absent.
#[derive(Debug, PartialEq, Eq)]
pub struct GeminiConfig {
    /// The secret that authenticates against the service.
    pub api_key: Option<String>,
    /// The model to ask when none is chosen.
    pub default_model: Option<String>,
    /// Advisory spending cap for one analysis, in microcents.
    pub max_cost_per_analysis: Option<u128>,
    /// Whether reports are written to disk without asking.
    pub auto_save_reports: Option<bool>,
    /// Where reports are written.
    pub report_directory: Option<String>,
}

/// The mathematical content of a [`GeminiConfig`].
pub struct ConfigRecord {
    pub api_key: Option<Seq<char>>,
    pub default_model: Option<Seq<char>>,
    pub max_cost_per_analysis: Option<nat>,
    pub auto_save_reports: Option<bool>,
    pub report_directory: Option<Seq<char>>,
}

/// The view of an optional text.
pub open spec fn text_of(text: Option<String>) -> Option<Seq<char>> {
    match text {
        Some(t) => Some(t@),
        None => None,
    }
}

/// The view of an optional amount.
pub open spec fn amount_of(amount: Option<u128>) -> Option<nat> {
    match amount {
        Some(a) => Some(a as nat),
        None => None,
    }
}

impl View for GeminiConfig {
    type V = ConfigRecord;

    open spec fn view(&self) -> ConfigRecord {
        ConfigRecord {
            api_key: text_of(self.api_key),
            default_model: text_of(self.default_model),
            max_cost_per_analysis: amount_of(self.max_cost_per_analysis),
            auto_save_reports: self.auto_save_reports,
            report_directory: text_of(self.report_directory),
        }
    }
}

/// The record that stands in when nothing is stored: no key, the flash
/// model, a cap of one dollar, reports saved under `./gemini_reports`.
pub open spec fn default_record() -> ConfigRecord {
    ConfigRecord {
        api_key: None,
        default_model: Some("gemini-1.5-flash"@),
        max_cost_per_analysis: Some(100_000_000nat),
        auto_save_reports: Some(true),
        report_directory: Some("./gemini_reports"@),
    }
}

impl ConfigRecord {
    /// The record with each absent field replaced by its default. The key
    /// has no default and stays as it is.
    pub open spec fn with_defaults(self) -> ConfigRecord {
        ConfigRecord {
            api_key: self.api_key,
            default_model: if self.default_model is Some {
                self.default_model
            } else {
                default_record().default_model
            },
            max_cost_per_analysis: if self.max_cost_per_analysis is Some {
                self.max_cost_per_analysis
            } else {
                default_record().max_cost_per_analysis
            },
            auto_save_reports: if self.auto_save_reports is Some {
                self.auto_save_reports
            } else {
                default_record().auto_save_reports
            },
            report_directory: if self.report_directory is Some {
                self.report_directory
            } else {
                default_record().report_directory
            },
        }
    }

    /// Whether every field that has a default is present.
    pub open spec fn is_complete(self) -> bool {
        &&& self.default_model is Some
        &&& self.max_cost_per_analysis is Some
        &&& self.auto_save_reports is Some
        &&& self.report_directory is Some
    }
}

/// Why a configuration could not be loaded or saved. Each kind carries a
/// message that says what went wrong.
#[derive(Debug, PartialEq, Eq)]
pub enum ConfigError {
    /// The file could not be read or written.
    Io(String),
    /// The content is not a valid record.
    Parse(String),
    /// The record could not be encoded.
    Serialize(String),
}

/// The mathematical content of a [`ConfigError`].
pub enum ConfigFailure {
    Io(Seq<char>),
    Parse(Seq<char>),
    Serialize(Seq<char>),
}

impl View for ConfigError {
    type V = ConfigFailure;

    open spec fn view(&self) -> ConfigFailure {
        match *self {
            ConfigError::Io(message) => ConfigFailure::Io(message@),
            ConfigError::Parse(message) => ConfigFailure::Parse(message@),
            ConfigError::Serialize(message) => ConfigFailure::Serialize(message@),
        }
    }
}

impl ConfigFailure {
    /// The message that the failure carries.
    pub open spec fn message(self) -> Seq<char> {
        match self {
            ConfigFailure::Io(m) => m,
            ConfigFailure::Parse(m) => m,
            ConfigFailure::Serialize(m) => m,
        }
    }
}

impl ConfigError {
    /// The message that the error carries.
    pub fn message(&self) -> (message: &String)
        ensures
            message@ == self@.message(),
    {
        match self {
            ConfigError::Io(message) => message,
            ConfigError::Parse(message) => message,
            ConfigError::Serialize(message) => message,
        }
    }
}

/// The value of one field of a configuration file.
#[derive(Debug, PartialEq, Eq)]
pub enum StoredValue {
    /// A text.
    Text(String),
    /// A truth value.
    Flag(bool),
    /// An amount of money, in microcents.
    Amount(u128),
    /// Anything else that a file may hold: a list, a table, a date.
    Other,
}

/// The mathematical content of a [`StoredValue`].
pub enum FieldValue {
    Text(Seq<char>),
    Flag(bool),
    Amount(nat),
    Other,
}

impl View for StoredValue {
    type V = FieldValue;

    open spec fn view(&self) -> FieldValue {
        match *self {
            StoredValue::Text(text) => FieldValue::Text(text@),
            StoredValue::Flag(flag) => FieldValue::Flag(flag),
            StoredValue::Amount(amount) => FieldValue::Amount(amount as nat),
            StoredValue::Other => FieldValue::Other,
        }
    }
}

/// One top-level field of a configuration file: a key and its value.
#[derive(Debug, PartialEq, Eq)]
pub struct StoredField {
    pub key: String,
    pub value: StoredValue,
}

/// The mathematical content of a [`StoredField`].
pub struct Field {
    pub key: Seq<char>,
    pub value: FieldValue,
}

impl View for StoredField {
    type V = Field;

    open spec fn view(&self) -> Field {
        Field { key: self.key@, value: self.value@ }
    }
}

/// The fields that a list of stored fields stands for, in the same order.
pub open spec fn fields_of(stored: Seq<StoredField>) -> Seq<Field> {
    Seq::new(stored.len(), |i: int| stored[i]@)
}

/// The value that `fields` give to `key`: that of the first field with that
/// key, if there is one.
pub open spec fn lookup(fields: Seq<Field>, key: Seq<char>) -> Option<FieldValue>
    decreases fields.len(),
{
    if fields.len() == 0 {
        None
    } else if fields[0].key == key {
        Some(fields[0].value)
    } else {
        lookup(fields.drop_first(), key)
    }
}

/// The text that `fields` give to `key`, if they give it a text.
pub open spec fn text_at(fields: Seq<Field>, key: Seq<char>) -> Option<Seq<char>> {
    match lookup(fields, key) {
        Some(FieldValue::Text(text)) => Some(text),
        _ => None,
    }
}

/// The truth value that `fields` give to `key`, if they give it one.
pub open spec fn flag_at(fields: Seq<Field>, key: Seq<char>) -> Option<bool> {
    match lookup(fields, key) {
        Some(FieldValue::Flag(flag)) => Some(flag),
        _ => None,
    }
}

/// The amount that `fields` give to `key`, if they give it an amount.
pub open spec fn amount_at(fields: Seq<Field>, key: Seq<char>) -> Option<nat> {
    match lookup(fields, key) {
        Some(FieldValue::Amount(amount)) => Some(amount),
        _ => None,
    }
}

/// Whether `key` is absent from `fields` or holds a text.
pub open spec fn fits_text(fields: Seq<Field>, key: Seq<char>) -> bool {
    lookup(fields, key) is None || lookup(fields, key)->Some_0 is Text
}

/// Whether `key` is absent from `fields` or holds a truth value.
pub open spec fn fits_flag(fields: Seq<Field>, key: Seq<char>) -> bool {
    lookup(fields, key) is None || lookup(fields, key)->Some_0 is Flag
}

/// Whether `key` is absent from `fields` or holds an amount.
pub open spec fn fits_amount(fields: Seq<Field>, key: Seq<char>) -> bool {
    lookup(fields, key) is None || lookup(fields, key)->Some_0 is Amount
}

/// The first key of the record, in the order of its declaration, to which
/// `fields` give a value of the wrong kind.
pub open spec fn mistyped_key(fields: Seq<Field>) -> Option<Seq<char>> {
    if !fits_text(fields, "api_key"@) {
        Some("api_key"@)
    } else if !fits_text(fields, "default_model"@) {
        Some("default_model"@)
    } else if !fits_amount(fields, "max_cost_per_analysis"@) {
        Some("max_cost_per_analysis"@)
    } else if !fits_flag(fields, "auto_save_reports"@) {
        Some("auto_save_reports"@)
    } else if !fits_text(fields, "report_directory"@) {
        Some("report_directory"@)
    } else {
        None
    }
}

/// The message of the error that rejects a value of the wrong kind.
pub open spec fn mistyped_message(key: Seq<char>) -> Seq<char> {
    "invalid type for key `"@ + key + "`"@
}

/// The record that `fields` hold. A key that the record does not know is
/// passed over; a key of the record that is missing is an absent field; a
/// key of the record with a value of the wrong kind makes the content
/// invalid.
pub open spec fn decoded(fields: Seq<Field>) -> Result<ConfigRecord, ConfigFailure> {
    match mistyped_key(fields) {
        Some(key) => Err(ConfigFailure::Parse(mistyped_message(key))),
        None => Ok(
            ConfigRecord {
                api_key: text_at(fields, "api_key"@),
                default_model: text_at(fields, "default_model"@),
                max_cost_per_analysis: amount_at(fields, "max_cost_per_analysis"@),
                auto_save_reports: flag_at(fields, "auto_save_reports"@),
                report_directory: text_at(fields, "report_directory"@),
            },
        ),
    }
}

/// No field or one: the field with `key` and `value`, if there is a value.
pub open spec fn optional_field(key: Seq<char>, value: Option<FieldValue>) -> Seq<Field> {
    match value {
        Some(v) => seq![Field { key, value: v }],
        None => Seq::empty(),
    }
}

/// An optional text as the value of a field.
pub open spec fn text_value(text: Option<Seq<char>>) -> Option<FieldValue> {
    match text {
        Some(t) => Some(FieldValue::Text(t)),
        None => None,
    }
}

/// An optional amount as the value of a field.
pub open spec fn amount_value(amount: Option<nat>) -> Option<FieldValue> {
    match amount {
        Some(a) => Some(FieldValue::Amount(a)),
        None => None,
    }
}

/// An optional truth value as the value of a field.
pub open spec fn flag_value(flag: Option<bool>) -> Option<FieldValue> {
    match flag {
        Some(f) => Some(FieldValue::Flag(f)),
        None => None,
    }
}

/// The fields that a record is stored as: one for each present field, in
/// the order of the record's declaration. An absent field is left out.
pub open spec fn encoded(record: ConfigRecord) -> Seq<Field> {
    optional_field("api_key"@, text_value(record.api_key)) + (optional_field(
        "default_model"@,
        text_value(record.default_model),
    ) + (optional_field("max_cost_per_analysis"@, amount_value(record.max_cost_per_analysis))
        + (optional_field("auto_save_reports"@, flag_value(record.auto_save_reports))
        + optional_field("report_directory"@, text_value(record.report_directory)))))
}

/// What came of reading a configuration file.
#[derive(Debug, PartialEq, Eq)]
pub enum LoadAttempt {
    /// The file could not be read; the message says why.
    Unreadable(String),
    /// The content was read and is not well-formed; the message says why.
    Malformed(String),
    /// The content was read: these are its top-level fields, in the order
    /// in which the file holds them.
    Read(Vec<StoredField>),
}

/// The mathematical content of a [`LoadAttempt`].
pub enum LoadFinding {
    Unreadable(Seq<char>),
    Malformed(Seq<char>),
    Read(Seq<Field>),
}

impl View for LoadAttempt {
    type V = LoadFinding;

    open spec fn view(&self) -> LoadFinding {
        match *self {
            LoadAttempt::Unreadable(message) => LoadFinding::Unreadable(message@),
            LoadAttempt::Malformed(message) => LoadFinding::Malformed(message@),
            LoadAttempt::Read(stored) => LoadFinding::Read(fields_of(stored@)),
        }
    }
}

/// What came of encoding a record's fields and writing them to its file.
#[derive(Debug, PartialEq, Eq)]
pub enum SaveAttempt {
    /// The fields could not be encoded; nothing was written.
    Unencodable(String),
    /// The fields were encoded and the file could not be written.
    Unwritable(String),
    /// The file now holds the fields, in place of what it held before.
    Written,
}

/// The mathematical content of a [`SaveAttempt`].
pub enum SaveFinding {
    Unencodable(Seq<char>),
    Unwritable(Seq<char>),
    Written,
}

impl View for SaveAttempt {
    type V = SaveFinding;

    open spec fn view(&self) -> SaveFinding {
        match *self {
            SaveAttempt::Unencodable(message) => SaveFinding::Unencodable(message@),
            SaveAttempt::Unwritable(message) => SaveFinding::Unwritable(message@),
            SaveAttempt::Written => SaveFinding::Written,
        }
    }
}

/// What loading yields: the record that the file holds, with its absent
/// fields filled in, or the failure.
pub open spec fn loaded(finding: LoadFinding) -> Result<ConfigRecord, ConfigFailure> {
    match finding {
        LoadFinding::Unreadable(message) => Err(ConfigFailure::Io(message)),
        LoadFinding::Malformed(message) => Err(ConfigFailure::Parse(message)),
        LoadFinding::Read(fields) => match decoded(fields) {
            Ok(found) => Ok(found.with_defaults()),
            Err(failure) => Err(failure),
        },
    }
}

/// What saving yields: nothing, or the failure.
pub open spec fn saved(finding: SaveFinding) -> Result<(), ConfigFailure> {
    match finding {
        SaveFinding::Unencodable(message) => Err(ConfigFailure::Serialize(message)),
        SaveFinding::Unwritable(message) => Err(ConfigFailure::Io(message)),
        SaveFinding::Written => Ok(()),
    }
}

/// What a fail-open load yields: the loaded record, or the default record
/// after any failure.
pub open spec fn loaded_or_default(finding: LoadFinding) -> ConfigRecord {
    match loaded(finding) {
        Ok(record) => record,
        Err(_) => default_record(),
    }
}

/// Whether `result` is what the model `expected` says, views taken.
pub open spec fn agrees(
    result: Result<GeminiConfig, ConfigError>,
    expected: Result<ConfigRecord, ConfigFailure>,
) -> bool {
    match result {
        Ok(config) => expected == Ok::<ConfigRecord, ConfigFailure>(config@),
        Err(error) => expected == Err::<ConfigRecord, ConfigFailure>(error@),
    }
}

/// The two ways a fail-open load ends. The reason for falling back is kept,
/// so that a caller who wants to report it can.
#[derive(Debug, PartialEq, Eq)]
pub enum LoadResolution {
    /// The file was read and holds a valid record.
    Loaded(GeminiConfig),
    /// The file was missing, unreadable or invalid; the defaults apply.
    DefaultedDueTo(ConfigError),
}

impl LoadResolution {
    /// The record that the resolution stands for.
    pub open spec fn record(self) -> ConfigRecord {
        match self {
            LoadResolution::Loaded(config) => config@,
            LoadResolution::DefaultedDueTo(_) => default_record(),
        }
    }

    /// The configuration to go on with: the loaded one, or the defaults.
    pub fn into_config(self) -> (config: GeminiConfig)
        ensures
            config@ == self.record(),
    {
        match self {
            LoadResolution::Loaded(config) => config,
            LoadResolution::DefaultedDueTo(_) => GeminiConfig::default(),
        }
    }
}

impl Default for GeminiConfig {
    fn default() -> (config: Self)
        ensures
            config@ == default_record(),
    {
        GeminiConfig {
            api_key: None,
            default_model: Some(String::from_str("gemini-1.5-flash")),
            max_cost_per_analysis: Some(100_000_000),
            auto_save_reports: Some(true),
            report_directory: Some(String::from_str("./gemini_reports")),
        }
    }
}

impl Clone for GeminiConfig {
    fn clone(&self) -> (copy: Self)
        ensures
            copy@ == self@,
    {
        GeminiConfig {
            api_key: clone_text(&self.api_key),
            default_model: clone_text(&self.default_model),
            max_cost_per_analysis: self.max_cost_per_analysis,
            auto_save_reports: self.auto_save_reports,
            report_directory: clone_text(&self.report_directory),
        }
    }
}

/// A copy of an optional text.
fn clone_text(text: &Option<String>) -> (copy: Option<String>)
    ensures
        text_of(copy) == text_of(*text),
{
    match text {
        Some(t) => Some(t.clone()),
        None => None,
    }
}

/// Finds the value that the stored fields give to `key`.
fn find<'a>(stored: &'a Vec<StoredField>, key: &str) -> (found: Option<&'a StoredValue>)
    ensures
        match found {
            Some(value) => lookup(fields_of(stored@), key@) == Some(value@),
            None => lookup(fields_of(stored@), key@) is None,
        },
{
    let ghost fields = fields_of(stored@);
    let mut i: usize = 0;
    assert(fields.skip(0) =~= fields);
    while i < stored.len()
        invariant
            i <= stored.len(),
            fields == fields_of(stored@),
            lookup(fields, key@) == lookup(fields.skip(i as int), key@),
        decreases stored.len() - i,
    {
        let ghost rest = fields.skip(i as int);
        assert(rest[0] == stored@[i as int]@);
        assert(rest.drop_first() =~= fields.skip(i + 1));
        if same_text(stored[i].key.as_str(), key) {
            return Some(&stored[i].value);
        }
        i = i + 1;
    }
    None
}

/// The error that rejects the value of `key`.
fn mistyped(key: &str) -> (error: ConfigError)
    ensures
        error@ == ConfigFailure::Parse(mistyped_message(key@)),
{
    let mut message = String::from_str("invalid type for key `");
    message.append(key);
    message.append("`");
    ConfigError::Parse(message)
}

/// Reads the optional text that the stored fields give to `key`.
fn read_text(stored: &Vec<StoredField>, key: &str) -> (result: Result<Option<String>, ConfigError>)
    ensures
        match result {
            Ok(text) => fits_text(fields_of(stored@), key@) && text_of(text) == text_at(
                fields_of(stored@),
                key@,
            ),
            Err(error) => !fits_text(fields_of(stored@), key@) && error@ == ConfigFailure::Parse(
                mistyped_message(key@),
            ),
        },
{
    match find(stored, key) {
        None => Ok(None),
        Some(StoredValue::Text(text)) => Ok(Some(text.clone())),
        Some(_) => Err(mistyped(key)),
    }
}

/// Reads the optional truth value that the stored fields give to `key`.
fn read_flag(stored: &Vec<StoredField>, key: &str) -> (result: Result<Option<bool>, ConfigError>)
    ensures
        match result {
            Ok(flag) => fits_flag(fields_of(stored@), key@) && flag == flag_at(
                fields_of(stored@),
                key@,
            ),
            Err(error) => !fits_flag(fields_of(stored@), key@) && error@ == ConfigFailure::Parse(
                mistyped_message(key@),
            ),
        },
{
    match find(stored, key) {
        None => Ok(None),
        Some(StoredValue::Flag(flag)) => Ok(Some(*flag)),
        Some(_) => Err(mistyped(key)),
    }
}

/// Reads the optional amount that the stored fields give to `key`.
fn read_amount(stored: &Vec<StoredField>, key: &str) -> (result: Result<
    Option<u128>,
    ConfigError,
>)
    ensures
        match result {
            Ok(amount) => fits_amount(fields_of(stored@), key@) && amount_of(amount) == amount_at(
                fields_of(stored@),
                key@,
            ),
            Err(error) => !fits_amount(fields_of(stored@), key@) && error@ == ConfigFailure::Parse(
                mistyped_message(key@),
            ),
        },
{
    match find(stored, key) {
        None => Ok(None),
        Some(StoredValue::Amount(amount)) => Ok(Some(*amount)),
        Some(_) => Err(mistyped(key)),
    }
}

/// Appends the field with `key` and `text` to `stored`, if there is a text.
fn push_text(stored: &mut Vec<StoredField>, key: &str, text: &Option<String>)
    ensures
        fields_of(final(stored)@) == fields_of(old(stored)@) + optional_field(
            key@,
            text_value(text_of(*text)),
        ),
{
    match text {
        Some(t) => {
            stored.push(StoredField { key: String::from_str(key), value: StoredValue::Text(t.clone()) });
        },
        None => {},
    }
    assert(fields_of(stored@) =~= fields_of(old(stored)@) + optional_field(
        key@,
        text_value(text_of(*text)),
    ));
}

impl GeminiConfig {
    /// Fills each absent field with its default.
    pub fn with_defaults(self) -> (filled: Self)
        ensures
            filled@ == self@.with_defaults(),
            filled@.is_complete(),
    {
        GeminiConfig {
            api_key: self.api_key,
            default_model: match self.default_model {
                Some(model) => Some(model),
                None => Some(String::from_str("gemini-1.5-flash")),
            },
            max_cost_per_analysis: match self.max_cost_per_analysis {
                Some(cap) => Some(cap),
                None => Some(100_000_000),
            },
            auto_save_reports: match self.auto_save_reports {
                Some(flag) => Some(flag),
                None => Some(true),
            },
            report_directory: match self.report_directory {
                Some(directory) => Some(directory),
                None => Some(String::from_str("./gemini_reports")),
            },
        }
    }

    /// Reads the record out of the fields of a file, as they are: nothing is
    /// filled in. Fails with a `Parse` error where one of the record's keys
    /// holds a value of the wrong kind.
    pub fn from_stored_fields(stored: &Vec<StoredField>) -> (result: Result<Self, ConfigError>)
        ensures
            agrees(result, decoded(fields_of(stored@))),
    {
        let api_key = match read_text(stored, "api_key") {
            Ok(text) => text,
            Err(error) => {
                return Err(error);
            },
        };
        let default_model = match read_text(stored, "default_model") {
            Ok(text) => text,
            Err(error) => {
                return Err(error);
            },
        };
        let max_cost_per_analysis = match read_amount(stored, "max_cost_per_analysis") {
            Ok(amount) => amount,
            Err(error) => {
                return Err(error);
            },
        };
        let auto_save_reports = match read_flag(stored, "auto_save_reports") {
            Ok(flag) => flag,
            Err(error) => {
                return Err(error);
            },
        };
        let report_directory = match read_text(stored, "report_directory") {
            Ok(text) => text,
            Err(error) => {
                return Err(error);
            },
        };
        Ok(
            GeminiConfig {
                api_key,
                default_model,
                max_cost_per_analysis,
                auto_save_reports,
                report_directory,
            },
        )
    }

    /// The fields to store the record as: one for each present field.
    pub fn stored_fields(&self) -> (stored: Vec<StoredField>)
        ensures
            fields_of(stored@) == encoded(self@),
    {
        let mut stored: Vec<StoredField> = Vec::new();
        assert(fields_of(stored@) =~= Seq::<Field>::empty());
        push_text(&mut stored, "api_key", &self.api_key);
        push_text(&mut stored, "default_model", &self.default_model);
        let ghost before_cap = fields_of(stored@);
        match self.max_cost_per_analysis {
            Some(cap) => {
                stored.push(
                    StoredField {
                        key: String::from_str("max_cost_per_analysis"),
                        value: StoredValue::Amount(cap),
                    },
                );
            },
            None => {},
        }
        assert(fields_of(stored@) =~= before_cap + optional_field(
            "max_cost_per_analysis"@,
            amount_value(self@.max_cost_per_analysis),
        ));
        let ghost before_flag = fields_of(stored@);
        match self.auto_save_reports {
            Some(flag) => {
                stored.push(
                    StoredField {
                        key: String::from_str("auto_save_reports"),
                        value: StoredValue::Flag(flag),
                    },
                );
            },
            None => {},
        }
        assert(fields_of(stored@) =~= before_flag + optional_field(
            "auto_save_reports"@,
            flag_value(self@.auto_save_reports),
        ));
        push_text(&mut stored, "report_directory", &self.report_directory);
        assert(fields_of(stored@) =~= encoded(self@));
        stored
    }

    /// Turns an attempt to read the file into the configuration. An
    /// unreadable file is an `Io` error. Content that is not well-formed,
    /// or that gives one of the record's keys a value of the wrong kind, is
    /// a `Parse` error. Otherwise the record that the file holds is
    /// returned, with each absent field filled by its default.
    pub fn load_from_file(attempt: LoadAttempt) -> (result: Result<Self, ConfigError>)
        ensures
            agrees(result, loaded(attempt@)),
    {
        match attempt {
            LoadAttempt::Unreadable(message) => Err(ConfigError::Io(message)),
            LoadAttempt::Malformed(message) => Err(ConfigError::Parse(message)),
            LoadAttempt::Read(stored) => match Self::from_stored_fields(&stored) {
                Ok(found) => Ok(found.with_defaults()),
                Err(error) => Err(error),
            },
        }
    }

    /// Turns an attempt to encode and write the fields of a record into the
    /// result of saving: fields that could not be encoded are a `Serialize`
    /// error, a file that could not be written an `Io` error.
    pub fn save_to_file(attempt: SaveAttempt) -> (result: Result<(), ConfigError>)
        ensures
            match result {
                Ok(_) => saved(attempt@) == Ok::<(), ConfigFailure>(()),
                Err(error) => saved(attempt@) == Err::<(), ConfigFailure>(error@),
            },
    {
        match attempt {
            SaveAttempt::Unencodable(message) => Err(ConfigError::Serialize(message)),
            SaveAttempt::Unwritable(message) => Err(ConfigError::Io(message)),
            SaveAttempt::Written => Ok(()),
        }
    }

    /// Loads fail-open and keeps the reason: `Loaded` with the configuration
    /// where loading succeeds, `DefaultedDueTo` with the error where it
    /// fails.
    pub fn resolve(attempt: LoadAttempt) -> (resolution: LoadResolution)
        ensures
            match resolution {
                LoadResolution::Loaded(config) => loaded(attempt@) == Ok::<
                    ConfigRecord,
                    ConfigFailure,
                >(config@),
                LoadResolution::DefaultedDueTo(error) => loaded(attempt@) == Err::<
                    ConfigRecord,
                    ConfigFailure,
                >(error@),
            },
            resolution.record() == loaded_or_default(attempt@),
    {
        match Self::load_from_file(attempt) {
            Ok(config) => LoadResolution::Loaded(config),
            Err(error) => LoadResolution::DefaultedDueTo(error),
        }
    }

    /// Loads fail-open: the loaded configuration, or exactly the default one
    /// after any failure. The failure is reported nowhere.
    pub fn load_or_default(attempt: LoadAttempt) -> (config: Self)
        ensures
            config@ == loaded_or_default(attempt@),
    {
        Self::resolve(attempt).into_config()
    }
}

/// Looking a key up behind no field or one: the one field answers if it has
/// the key, and the rest answers otherwise.
proof fn lookup_behind_optional(
    key: Seq<char>,
    first_key: Seq<char>,
    first: Option<FieldValue>,
    rest: Seq<Field>,
)
    ensures
        lookup(optional_field(first_key, first) + rest, key) == if first is Some && first_key
            == key {
            first
        } else {
            lookup(rest, key)
        },
{
    let all = optional_field(first_key, first) + rest;
    match first {
        Some(v) => {
            assert(all[0] == Field { key: first_key, value: v });
            assert(all.drop_first() =~= rest);
        },
        None => {
            assert(all =~= rest);
        },
    }
}

/// The five keys of the record differ from one another.
proof fn keys_differ()
    ensures
        "api_key"@.len() == 7,
        "default_model"@.len() == 13,
        "max_cost_per_analysis"@.len() == 21,
        "auto_save_reports"@.len() == 17,
        "report_directory"@.len() == 16,
{
    reveal_strlit("api_key");
    reveal_strlit("default_model");
    reveal_strlit("max_cost_per_analysis");
    reveal_strlit("auto_save_reports");
    reveal_strlit("report_directory");
}

/// The value that the stored form of `record` gives to each of the five
/// keys is the value of the field of that name.
proof fn lookup_in_encoded(record: ConfigRecord)
    ensures
        lookup(encoded(record), "api_key"@) == text_value(record.api_key),
        lookup(encoded(record), "default_model"@) == text_value(record.default_model),
        lookup(encoded(record), "max_cost_per_analysis"@) == amount_value(
            record.max_cost_per_analysis,
        ),
        lookup(encoded(record), "auto_save_reports"@) == flag_value(record.auto_save_reports),
        lookup(encoded(record), "report_directory"@) == text_value(record.report_directory),
{
    keys_differ();
    let f5 = optional_field("report_directory"@, text_value(record.report_directory));
    let f4 = optional_field("auto_save_reports"@, flag_value(record.auto_save_reports)) + f5;
    let f3 = optional_field(
        "max_cost_per_analysis"@,
        amount_value(record.max_cost_per_analysis),
    ) + f4;
    let f2 = optional_field("default_model"@, text_value(record.default_model)) + f3;
    let keys = seq![
        "api_key"@,
        "default_model"@,
        "max_cost_per_analysis"@,
        "auto_save_reports"@,
        "report_directory"@,
    ];
    assert forall|k: int| 0 <= k < 5 implies {
        let key = #[trigger] keys[k];
        &&& lookup(f5, key) == if key == "report_directory"@ {
            text_value(record.report_directory)
        } else {
            None
        }
        &&& lookup(f4, key) == if key == "auto_save_reports"@ {
            flag_value(record.auto_save_reports)
        } else {
            lookup(f5, key)
        }
        &&& lookup(f3, key) == if key == "max_cost_per_analysis"@ {
            amount_value(record.max_cost_per_analysis)
        } else {
            lookup(f4, key)
        }
        &&& lookup(f2, key) == if key == "default_model"@ {
            text_value(record.default_model)
        } else {
            lookup(f3, key)
        }
        &&& lookup(encoded(record), key) == if key == "api_key"@ {
            text_value(record.api_key)
        } else {
            lookup(f2, key)
        }
    } by {
        let key = keys[k];
        lookup_behind_optional(
            key,
            "report_directory"@,
            text_value(record.report_directory),
            Seq::empty(),
        );
        assert(f5 + Seq::<Field>::empty() =~= f5);
        lookup_behind_optional(
            key,
            "auto_save_reports"@,
            flag_value(record.auto_save_reports),
            f5,
        );
        lookup_behind_optional(
            key,
            "max_cost_per_analysis"@,
            amount_value(record.max_cost_per_analysis),
            f4,
        );
        lookup_behind_optional(key, "default_model"@, text_value(record.default_model), f3);
        lookup_behind_optional(key, "api_key"@, text_value(record.api_key), f2);
    }
    assert(keys[0] == "api_key"@);
    assert(keys[1] == "default_model"@);
    assert(keys[2] == "max_cost_per_analysis"@);
    assert(keys[3] == "auto_save_reports"@);
    assert(keys[4] == "report_directory"@);
}

/// Reading back the fields that a record is stored as yields the record:
/// nothing is lost and nothing is added between a record and its stored
/// form.
pub proof fn stored_fields_hold_the_record(record: ConfigRecord)
    ensures
        decoded(encoded(record)) == Ok::<ConfigRecord, ConfigFailure>(record),
{
    lookup_in_encoded(record);
    let found = decoded(encoded(record));
    assert(mistyped_key(encoded(record)) is None);
    assert(found->Ok_0.api_key == record.api_key);
    assert(found->Ok_0.default_model == record.default_model);
    assert(found->Ok_0.max_cost_per_analysis == record.max_cost_per_analysis);
    assert(found->Ok_0.auto_save_reports == record.auto_save_reports);
    assert(found->Ok_0.report_directory == record.report_directory);
}

/// Loading what was saved: a file that holds the stored form of a record
/// loads as that record with its absent fields filled in, and as the very
/// same record where it is complete. A record with an absent field that has
/// a default does not come back unchanged: the default takes the field's
/// place.
pub proof fn reload_returns_saved_record(record: ConfigRecord)
    ensures
        loaded(LoadFinding::Read(encoded(record))) == Ok::<ConfigRecord, ConfigFailure>(
            record.with_defaults(),
        ),
        record.is_complete() ==> loaded(LoadFinding::Read(encoded(record))) == Ok::<
            ConfigRecord,
            ConfigFailure,
        >(record),
        record.is_complete() ==> loaded_or_default(LoadFinding::Read(encoded(record))) == record,
{
    stored_fields_hold_the_record(record);
}

/// Loading fills every field that has a default, so a loaded record is
/// complete, and so is the record of a fail-open load.
pub proof fn loaded_record_is_complete(finding: LoadFinding)
    ensures
        loaded(finding) matches Ok(record) ==> record.is_complete(),
        loaded_or_default(finding).is_complete(),
{
}

/// A fail-open load of a file that could not be read, or whose content is
/// not well-formed, yields exactly the default record.
pub proof fn unusable_file_yields_defaults(message: Seq<char>)
    ensures
        loaded_or_default(LoadFinding::Unreadable(message)) == default_record(),
        loaded_or_default(LoadFinding::Malformed(message)) == default_record(),
{
}

/// Filling in defaults twice is the same as filling them in once.
pub proof fn defaults_fill_once(record: ConfigRecord)
    ensures
        record.with_defaults().with_defaults() == record.with_defaults(),
{
}

} // verus!
