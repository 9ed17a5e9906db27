//! Strongly-typed runtime configuration and the rules that resolve it.
//!
//! Every value is looked up, highest priority first, in the command-line
//! overrides, the `SCORPIO_<KEY>` environment variables, the config file's
//! sectioned form (`[section] short = ...`), the config file's legacy flat
//! key, and finally the built-in default. A value that is present but blank
//! counts as absent. The resolved values are then type-checked and validated.

use vstd::prelude::*;

use crate::text::{
    ascii_lowercase, ascii_uppercase, cat, debug_quote, debug_text, decimal, i64_text, is_blank,
    parse_unsigned, parse_unsigned_text, same_text, signed_decimal, str_is_blank, to_ascii_lowercase,
    to_ascii_uppercase, trim, trim_text, u64_text, ParseIntFailure,
};
use crate::util::overrides::{lookup, Entries, Overrides};
use crate::util::sources::{
    current_username, parse_toml_table, parse_url, table_get, toml_document, toml_table_entries,
    toml_value_item, url_parse, value_as_table, value_scalar, TomlItem, TomlScalar, UrlParts,
};

verus! {

pub const DEFAULT_LOAD_DIR_DEPTH: usize = 3;
pub const DEFAULT_FETCH_FILE_THREAD: usize = 10;
pub const DEFAULT_DICFUSE_IMPORT_CONCURRENCY: usize = 4;
/// Directory refresh TTL for base Dicfuse mounts.
pub const DEFAULT_DICFUSE_DIR_SYNC_TTL_SECS: u64 = 5;
/// Kernel entry TTL for base Dicfuse mounts.
pub const DEFAULT_DICFUSE_REPLY_TTL_SECS: u64 = 2;
/// Per-request timeout for directory listing RPCs.
pub const DEFAULT_DICFUSE_FETCH_DIR_TIMEOUT_SECS: u64 = 10;
/// TCP connect timeout for Dicfuse HTTP requests.
pub const DEFAULT_DICFUSE_CONNECT_TIMEOUT_SECS: u64 = 3;
/// Retry count for transient directory listing failures.
pub const DEFAULT_DICFUSE_FETCH_DIR_MAX_RETRIES: u32 = 3;
pub const DEFAULT_DICFUSE_OPEN_BUFF_MAX_BYTES: u64 = 268435456;
pub const DEFAULT_DICFUSE_OPEN_BUFF_MAX_FILES: usize = 4096;
/// Preload directory depth for Antares mounts.
pub const DEFAULT_ANTARES_LOAD_DIR_DEPTH: usize = 3;
/// Directory refresh TTL for Antares mounts.
pub const DEFAULT_ANTARES_DICFUSE_DIR_SYNC_TTL_SECS: u64 = 120;
/// Kernel entry TTL for Antares mounts.
pub const DEFAULT_ANTARES_DICFUSE_REPLY_TTL_SECS: u64 = 60;
pub const DEFAULT_ANTARES_DICFUSE_OPEN_BUFF_MAX_BYTES: u64 = 67108864;
pub const DEFAULT_ANTARES_DICFUSE_OPEN_BUFF_MAX_FILES: usize = 1024;

/// How Dicfuse answers `stat`: from cached metadata, or exactly.
#[derive(Debug, Clone, Copy, PartialEq, Eq, Structural)]
pub enum DicfuseStatMode {
    Fast,
    Accurate,
}

// ---------------------------------------------------------------------------
// Reading one raw value.
// ---------------------------------------------------------------------------

/// The error for a config-file value that is not a scalar.
pub open spec fn non_scalar_message(key_desc: Seq<char>, what: Seq<char>) -> Seq<char> {
    "Invalid value for '"@ + key_desc + "': expected a scalar (string/number/bool), got "@ + what
}

/// The text a config-file value stands for: `None` when blank, an error when
/// the value is not a string, number or boolean.
pub open spec fn scalar_text(item: TomlItem, key_desc: Seq<char>) -> Result<Option<Seq<char>>, Seq<char>> {
    let s = match item {
        TomlItem::Text(s) => Some(s),
        TomlItem::Integer(i) => Some(signed_decimal(i)),
        TomlItem::Float(t) => Some(t),
        TomlItem::Boolean(b) => Some(
            if b {
                "true"@
            } else {
                "false"@
            },
        ),
        _ => None,
    };
    match s {
        Some(s) => if is_blank(s) {
            Ok(None)
        } else {
            Ok(Some(s))
        },
        None => Err(
            non_scalar_message(
                key_desc,
                match item {
                    TomlItem::Datetime => "a datetime"@,
                    TomlItem::Array => "an array"@,
                    _ => "a table"@,
                },
            ),
        ),
    }
}

pub open spec fn section_desc(section: Seq<char>, short: Seq<char>) -> Seq<char> {
    "["@ + section + "]."@ + short
}

/// The value under `[section] short`. A section that is not a table counts
/// as absent; an empty section name means the key has no sectioned form.
pub open spec fn section_value(file: Map<Seq<char>, TomlItem>, section: Seq<char>, short: Seq<char>) -> Result<Option<Seq<char>>, Seq<char>> {
    if section.len() == 0 || !file.contains_key(section) {
        Ok(None)
    } else {
        match file[section] {
            TomlItem::Table(t) => if t.contains_key(short) {
                scalar_text(t[short], section_desc(section, short))
            } else {
                Ok(None)
            },
            _ => Ok(None),
        }
    }
}

/// The value under the legacy flat key.
pub open spec fn flat_value(file: Map<Seq<char>, TomlItem>, flat: Seq<char>) -> Result<Option<Seq<char>>, Seq<char>> {
    if file.contains_key(flat) {
        scalar_text(file[flat], flat)
    } else {
        Ok(None)
    }
}

/// The environment variable that overrides a flat key.
pub open spec fn env_key(flat: Seq<char>) -> Seq<char> {
    "SCORPIO_"@ + ascii_uppercase(flat)
}

/// The sources a value is resolved from.
pub struct ResolverView {
    pub file: Map<Seq<char>, TomlItem>,
    pub cli: Entries,
    pub env: Entries,
}

/// The highest-priority non-blank raw value for a key: command line, then
/// environment, then the file's sectioned form, then its flat key. Both
/// file forms are read, so a malformed value in either is reported.
pub open spec fn resolve(r: ResolverView, flat: Seq<char>, section: Seq<char>, short: Seq<char>) -> Result<Option<Seq<char>>, Seq<char>> {
    if lookup(r.cli, flat) is Some && !is_blank(lookup(r.cli, flat)->0) {
        Ok(lookup(r.cli, flat))
    } else if lookup(r.env, env_key(flat)) is Some && !is_blank(lookup(r.env, env_key(flat))->0) {
        Ok(lookup(r.env, env_key(flat)))
    } else {
        match section_value(r.file, section, short) {
            Err(e) => Err(e),
            Ok(sv) => match flat_value(r.file, flat) {
                Err(e) => Err(e),
                Ok(fv) => Ok(
                    if sv is Some {
                        sv
                    } else {
                        fv
                    },
                ),
            },
        }
    }
}

pub open spec fn opt_result_view(r: Result<Option<String>, String>) -> Result<Option<Seq<char>>, Seq<char>> {
    match r {
        Ok(Some(s)) => Ok(Some(s@)),
        Ok(None) => Ok(None),
        Err(e) => Err(e@),
    }
}

/// Converts a scalar TOML value to its string form.
pub fn extract_scalar(value: &toml::Value, key_desc: &str) -> (r: Result<Option<String>, String>)
    ensures
        opt_result_view(r) == scalar_text(toml_value_item(*value), key_desc@),
{
    let s = match value_scalar(value) {
        TomlScalar::Text(s) => s,
        TomlScalar::Integer(i) => i64_text(i),
        TomlScalar::Float(t) => t,
        TomlScalar::Boolean(b) => if b {
            String::from_str("true")
        } else {
            String::from_str("false")
        },
        TomlScalar::Datetime => {
            return Err(non_scalar_error(key_desc, "a datetime"));
        },
        TomlScalar::Array => {
            return Err(non_scalar_error(key_desc, "an array"));
        },
        TomlScalar::Table => {
            return Err(non_scalar_error(key_desc, "a table"));
        },
    };
    if str_is_blank(s.as_str()) {
        Ok(None)
    } else {
        Ok(Some(s))
    }
}

fn non_scalar_error(key_desc: &str, what: &str) -> (r: String)
    ensures
        r@ == non_scalar_message(key_desc@, what@),
{
    cat(
        cat(cat(String::from_str("Invalid value for '"), key_desc), "': expected a scalar (string/number/bool), got "),
        what,
    )
}

/// Resolves a single configuration value across all sources, honoring the
/// precedence `CLI > environment (SCORPIO_*) > config file > default`.
pub struct RawResolver {
    file: toml::Table,
    cli: Overrides,
    env: Overrides,
}

impl View for RawResolver {
    type V = ResolverView;

    closed spec fn view(&self) -> ResolverView {
        ResolverView { file: toml_table_entries(self.file), cli: self.cli@, env: self.env@ }
    }
}

impl RawResolver {
    /// A resolver over a parsed config file, the command-line overrides and
    /// the `SCORPIO_*` environment variables (keyed by variable name).
    pub fn new(file: toml::Table, cli: Overrides, env: Overrides) -> (r: Self)
        ensures
            r@ == (ResolverView { file: toml_table_entries(file), cli: cli@, env: env@ }),
    {
        RawResolver { file, cli, env }
    }

    /// Returns the highest-priority non-empty raw string for `flat_key`.
    ///
    /// `section`/`short` name the equivalent location in the sectioned
    /// format; an empty `section` means the key only exists as a flat key.
    pub fn get(&self, flat_key: &str, section: &str, short: &str) -> (r: Result<Option<String>, String>)
        ensures
            opt_result_view(r) == resolve(self@, flat_key@, section@, short@),
    {
        match self.cli.get(flat_key) {
            Some(v) => {
                if !str_is_blank(v.as_str()) {
                    return Ok(Some(v.clone()));
                }
            },
            None => {},
        }
        let upper = to_ascii_uppercase(flat_key);
        let env_name = cat(String::from_str("SCORPIO_"), upper.as_str());
        match self.env.get(env_name.as_str()) {
            Some(v) => {
                if !str_is_blank(v.as_str()) {
                    return Ok(Some(v.clone()));
                }
            },
            None => {},
        }
        let section_val = match self.section_get(section, short) {
            Ok(v) => v,
            Err(e) => {
                return Err(e);
            },
        };
        let flat_val = match self.flat_get(flat_key) {
            Ok(v) => v,
            Err(e) => {
                return Err(e);
            },
        };
        match section_val {
            Some(v) => Ok(Some(v)),
            None => Ok(flat_val),
        }
    }

    fn section_get(&self, section: &str, short: &str) -> (r: Result<Option<String>, String>)
        ensures
            opt_result_view(r) == section_value(self@.file, section@, short@),
    {
        if section.unicode_len() == 0 {
            return Ok(None);
        }
        let value = match table_get(&self.file, section) {
            Some(v) => v,
            None => {
                return Ok(None);
            },
        };
        // A malformed section (e.g. `server = "x"` instead of `[server]`) is
        // treated as absent; the flat-key fallback still applies.
        let table = match value_as_table(value) {
            Some(t) => t,
            None => {
                return Ok(None);
            },
        };
        match table_get(table, short) {
            Some(v) => {
                let desc = cat(cat(cat(String::from_str("["), section), "]."), short);
                extract_scalar(v, desc.as_str())
            },
            None => Ok(None),
        }
    }

    fn flat_get(&self, flat_key: &str) -> (r: Result<Option<String>, String>)
        ensures
            opt_result_view(r) == flat_value(self@.file, flat_key@),
    {
        match table_get(&self.file, flat_key) {
            Some(v) => extract_scalar(v, flat_key),
            None => Ok(None),
        }
    }
}

} // verus!

verus! {

// ---------------------------------------------------------------------------
// Typing one value.
// ---------------------------------------------------------------------------

/// The message `core::num::ParseIntError` displays for each failure.
pub open spec fn int_error_text(f: ParseIntFailure) -> Seq<char> {
    match f {
        ParseIntFailure::Empty => "cannot parse integer from empty string"@,
        ParseIntFailure::InvalidDigit => "invalid digit found in string"@,
        ParseIntFailure::PosOverflow => "number too large to fit in target type"@,
    }
}

pub open spec fn number_message(flat: Seq<char>, raw: Seq<char>, kind_name: Seq<char>, f: ParseIntFailure) -> Seq<char> {
    "Invalid value for '"@ + flat + "': "@ + debug_text(raw) + " is not a valid "@ + kind_name + " ("@
        + int_error_text(f) + ")"@
}

pub open spec fn flag_message(flat: Seq<char>, got: Seq<char>) -> Seq<char> {
    "Invalid boolean for '"@ + flat + "': expected 'true' or 'false', got "@ + debug_text(got)
}

pub open spec fn mode_message(flat: Seq<char>, got: Seq<char>) -> Seq<char> {
    "Invalid stat mode for '"@ + flat + "': expected 'fast' or 'accurate', got "@ + debug_text(got)
}

/// A text setting: the resolved value, or the default when none is set.
#[verifier::opaque]
pub open spec fn text_field(r: ResolverView, flat: Seq<char>, section: Seq<char>, short: Seq<char>, default: Seq<char>) -> Result<Seq<char>, Seq<char>> {
    match resolve(r, flat, section, short) {
        Err(e) => Err(e),
        Ok(Some(v)) => Ok(v),
        Ok(None) => Ok(default),
    }
}

/// A numeric setting of an unsigned type whose largest value is `max`: the
/// trimmed resolved value parsed in decimal, or the default when none is set.
#[verifier::opaque]
pub open spec fn number_field(r: ResolverView, flat: Seq<char>, section: Seq<char>, short: Seq<char>, default: nat, max: nat, kind_name: Seq<char>) -> Result<nat, Seq<char>> {
    match resolve(r, flat, section, short) {
        Err(e) => Err(e),
        Ok(None) => Ok(default),
        Ok(Some(v)) => match parse_unsigned(trim(v), max) {
            Ok(n) => Ok(n),
            Err(f) => Err(number_message(flat, v, kind_name, f)),
        },
    }
}

/// A boolean setting: `true` or `false`, trimmed and in any ASCII case.
#[verifier::opaque]
pub open spec fn flag_field(r: ResolverView, flat: Seq<char>, section: Seq<char>, short: Seq<char>, default: bool) -> Result<bool, Seq<char>> {
    match resolve(r, flat, section, short) {
        Err(e) => Err(e),
        Ok(None) => Ok(default),
        Ok(Some(v)) => {
            let o = ascii_lowercase(trim(v));
            if o == "true"@ {
                Ok(true)
            } else if o == "false"@ {
                Ok(false)
            } else {
                Err(flag_message(flat, o))
            }
        },
    }
}

/// A stat-mode setting: `fast` or `accurate`, trimmed and in any ASCII case.
#[verifier::opaque]
pub open spec fn mode_field(r: ResolverView, flat: Seq<char>, section: Seq<char>, short: Seq<char>, default: DicfuseStatMode) -> Result<DicfuseStatMode, Seq<char>> {
    match resolve(r, flat, section, short) {
        Err(e) => Err(e),
        Ok(None) => Ok(default),
        Ok(Some(v)) => {
            let o = ascii_lowercase(trim(v));
            if o == "fast"@ {
                Ok(DicfuseStatMode::Fast)
            } else if o == "accurate"@ {
                Ok(DicfuseStatMode::Accurate)
            } else {
                Err(mode_message(flat, o))
            }
        },
    }
}

pub open spec fn text_result_view(r: Result<String, String>) -> Result<Seq<char>, Seq<char>> {
    match r {
        Ok(s) => Ok(s@),
        Err(e) => Err(e@),
    }
}

pub open spec fn value_result_view<T>(r: Result<T, String>) -> Result<T, Seq<char>> {
    match r {
        Ok(v) => Ok(v),
        Err(e) => Err(e@),
    }
}

pub open spec fn number_result_view(r: Result<u64, String>) -> Result<nat, Seq<char>> {
    match r {
        Ok(v) => Ok(v as nat),
        Err(e) => Err(e@),
    }
}

/// A text setting, falling back to `default`.
pub fn optional_string(r: &RawResolver, flat: &str, section: &str, short: &str, default: String) -> (res: Result<String, String>)
    ensures
        text_result_view(res) == text_field(r@, flat@, section@, short@, default@),
{
    reveal(text_field);
    match r.get(flat, section, short) {
        Ok(Some(v)) => Ok(v),
        Ok(None) => Ok(default),
        Err(e) => Err(e),
    }
}

fn int_error_message(f: ParseIntFailure) -> (r: &'static str)
    ensures
        r@ == int_error_text(f),
{
    match f {
        ParseIntFailure::Empty => "cannot parse integer from empty string",
        ParseIntFailure::InvalidDigit => "invalid digit found in string",
        ParseIntFailure::PosOverflow => "number too large to fit in target type",
    }
}

fn number_error(flat: &str, raw: &str, kind_name: &str, f: ParseIntFailure) -> (r: String)
    ensures
        r@ == number_message(flat@, raw@, kind_name@, f),
{
    let q = debug_quote(raw);
    let m = cat(cat(String::from_str("Invalid value for '"), flat), "': ");
    let m = cat(cat(cat(m, q.as_str()), " is not a valid "), kind_name);
    cat(cat(cat(m, " ("), int_error_message(f)), ")")
}

/// A numeric setting of an unsigned type whose largest value is `max` and
/// whose name is `kind_name`, falling back to `default`.
pub fn parse_number(r: &RawResolver, flat: &str, section: &str, short: &str, default: u64, max: u64, kind_name: &str) -> (res: Result<u64, String>)
    requires
        default <= max,
    ensures
        number_result_view(res) == number_field(r@, flat@, section@, short@, default as nat, max as nat, kind_name@),
        res matches Ok(n) ==> n <= max,
{
    reveal(number_field);
    match r.get(flat, section, short) {
        Ok(Some(v)) => {
            let t = trim_text(v.as_str());
            match parse_unsigned_text(t.as_str(), max) {
                Ok(n) => {
                    proof {
                        crate::text::lemma_parse_unsigned_bound(t@, max as nat);
                    }
                    Ok(n)
                },
                Err(f) => Err(number_error(flat, v.as_str(), kind_name, f)),
            }
        },
        Ok(None) => Ok(default),
        Err(e) => Err(e),
    }
}

/// A boolean setting, falling back to `default`.
pub fn parse_bool(r: &RawResolver, flat: &str, section: &str, short: &str, default: bool) -> (res: Result<bool, String>)
    ensures
        value_result_view(res) == flag_field(r@, flat@, section@, short@, default),
{
    reveal(flag_field);
    match r.get(flat, section, short) {
        Ok(Some(v)) => {
            let t = trim_text(v.as_str());
            let o = to_ascii_lowercase(t.as_str());
            if same_text(o.as_str(), "true") {
                Ok(true)
            } else if same_text(o.as_str(), "false") {
                Ok(false)
            } else {
                let q = debug_quote(o.as_str());
                Err(
                    cat(
                        cat(cat(String::from_str("Invalid boolean for '"), flat), "': expected 'true' or 'false', got "),
                        q.as_str(),
                    ),
                )
            }
        },
        Ok(None) => Ok(default),
        Err(e) => Err(e),
    }
}

/// A stat-mode setting, falling back to `default`.
pub fn parse_stat_mode(r: &RawResolver, flat: &str, section: &str, short: &str, default: DicfuseStatMode) -> (res: Result<DicfuseStatMode, String>)
    ensures
        value_result_view(res) == mode_field(r@, flat@, section@, short@, default),
{
    reveal(mode_field);
    match r.get(flat, section, short) {
        Ok(Some(v)) => {
            let t = trim_text(v.as_str());
            let o = to_ascii_lowercase(t.as_str());
            if same_text(o.as_str(), "fast") {
                Ok(DicfuseStatMode::Fast)
            } else if same_text(o.as_str(), "accurate") {
                Ok(DicfuseStatMode::Accurate)
            } else {
                let q = debug_quote(o.as_str());
                Err(
                    cat(
                        cat(cat(String::from_str("Invalid stat mode for '"), flat), "': expected 'fast' or 'accurate', got "),
                        q.as_str(),
                    ),
                )
            }
        },
        Ok(None) => Ok(default),
        Err(e) => Err(e),
    }
}

} // verus!

verus! {

/// Strongly-typed runtime configuration. Text fields (paths, URLs) are kept
/// as `String`; numeric, boolean and enum knobs as their concrete type.
#[derive(Debug, Clone)]
pub struct ScorpioConfig {
    pub base_url: String,
    pub workspace: String,
    pub store_path: String,
    pub git_author: String,
    pub git_email: String,
    pub config_file: String,
    pub lfs_url: String,
    pub log_level: String,
    pub dicfuse_readable: bool,
    pub load_dir_depth: usize,
    pub fetch_file_thread: usize,
    pub dicfuse_import_concurrency: usize,
    pub dicfuse_dir_sync_ttl_secs: u64,
    pub dicfuse_reply_ttl_secs: u64,
    pub dicfuse_fetch_dir_timeout_secs: u64,
    pub dicfuse_connect_timeout_secs: u64,
    pub dicfuse_fetch_dir_max_retries: u32,
    pub dicfuse_stat_mode: DicfuseStatMode,
    pub dicfuse_open_buff_max_bytes: u64,
    pub dicfuse_open_buff_max_files: usize,
    pub antares_load_dir_depth: usize,
    pub antares_dicfuse_dir_sync_ttl_secs: u64,
    pub antares_dicfuse_reply_ttl_secs: u64,
    pub antares_dicfuse_stat_mode: DicfuseStatMode,
    pub antares_dicfuse_open_buff_max_bytes: u64,
    pub antares_dicfuse_open_buff_max_files: usize,
    pub antares_upper_root: String,
    pub antares_cl_root: String,
    pub antares_mount_root: String,
    pub antares_state_file: String,
}

/// The configuration's values, as mathematical values.
pub struct ConfigView {
    pub base_url: Seq<char>,
    pub workspace: Seq<char>,
    pub store_path: Seq<char>,
    pub git_author: Seq<char>,
    pub git_email: Seq<char>,
    pub config_file: Seq<char>,
    pub lfs_url: Seq<char>,
    pub log_level: Seq<char>,
    pub dicfuse_readable: bool,
    pub load_dir_depth: nat,
    pub fetch_file_thread: nat,
    pub dicfuse_import_concurrency: nat,
    pub dicfuse_dir_sync_ttl_secs: nat,
    pub dicfuse_reply_ttl_secs: nat,
    pub dicfuse_fetch_dir_timeout_secs: nat,
    pub dicfuse_connect_timeout_secs: nat,
    pub dicfuse_fetch_dir_max_retries: nat,
    pub dicfuse_stat_mode: DicfuseStatMode,
    pub dicfuse_open_buff_max_bytes: nat,
    pub dicfuse_open_buff_max_files: nat,
    pub antares_load_dir_depth: nat,
    pub antares_dicfuse_dir_sync_ttl_secs: nat,
    pub antares_dicfuse_reply_ttl_secs: nat,
    pub antares_dicfuse_stat_mode: DicfuseStatMode,
    pub antares_dicfuse_open_buff_max_bytes: nat,
    pub antares_dicfuse_open_buff_max_files: nat,
    pub antares_upper_root: Seq<char>,
    pub antares_cl_root: Seq<char>,
    pub antares_mount_root: Seq<char>,
    pub antares_state_file: Seq<char>,
}

impl View for ScorpioConfig {
    type V = ConfigView;

    open spec fn view(&self) -> ConfigView {
        ConfigView {
            base_url: self.base_url@,
            workspace: self.workspace@,
            store_path: self.store_path@,
            git_author: self.git_author@,
            git_email: self.git_email@,
            config_file: self.config_file@,
            lfs_url: self.lfs_url@,
            log_level: self.log_level@,
            dicfuse_readable: self.dicfuse_readable,
            load_dir_depth: self.load_dir_depth as nat,
            fetch_file_thread: self.fetch_file_thread as nat,
            dicfuse_import_concurrency: self.dicfuse_import_concurrency as nat,
            dicfuse_dir_sync_ttl_secs: self.dicfuse_dir_sync_ttl_secs as nat,
            dicfuse_reply_ttl_secs: self.dicfuse_reply_ttl_secs as nat,
            dicfuse_fetch_dir_timeout_secs: self.dicfuse_fetch_dir_timeout_secs as nat,
            dicfuse_connect_timeout_secs: self.dicfuse_connect_timeout_secs as nat,
            dicfuse_fetch_dir_max_retries: self.dicfuse_fetch_dir_max_retries as nat,
            dicfuse_stat_mode: self.dicfuse_stat_mode,
            dicfuse_open_buff_max_bytes: self.dicfuse_open_buff_max_bytes as nat,
            dicfuse_open_buff_max_files: self.dicfuse_open_buff_max_files as nat,
            antares_load_dir_depth: self.antares_load_dir_depth as nat,
            antares_dicfuse_dir_sync_ttl_secs: self.antares_dicfuse_dir_sync_ttl_secs as nat,
            antares_dicfuse_reply_ttl_secs: self.antares_dicfuse_reply_ttl_secs as nat,
            antares_dicfuse_stat_mode: self.antares_dicfuse_stat_mode,
            antares_dicfuse_open_buff_max_bytes: self.antares_dicfuse_open_buff_max_bytes as nat,
            antares_dicfuse_open_buff_max_files: self.antares_dicfuse_open_buff_max_files as nat,
            antares_upper_root: self.antares_upper_root@,
            antares_cl_root: self.antares_cl_root@,
            antares_mount_root: self.antares_mount_root@,
            antares_state_file: self.antares_state_file@,
        }
    }
}

} // verus!

verus! {

// ---------------------------------------------------------------------------
// Defaults.
// ---------------------------------------------------------------------------

/// The per-user base directory the default paths live under.
pub open spec fn base_dir(username: Seq<char>) -> Seq<char> {
    "/tmp/megadir-"@ + username
}

/// Built-in defaults, used when a field is absent or blank.
pub open spec fn spec_defaults(username: Seq<char>) -> ConfigView {
    let b = base_dir(username);
    ConfigView {
        base_url: "http://localhost:8000"@,
        workspace: b + "/mount"@,
        store_path: b + "/store"@,
        git_author: "MEGA"@,
        git_email: "admin@mega.org"@,
        config_file: "config.toml"@,
        lfs_url: "http://localhost:8000/lfs"@,
        log_level: "info"@,
        dicfuse_readable: true,
        load_dir_depth: DEFAULT_LOAD_DIR_DEPTH as nat,
        fetch_file_thread: DEFAULT_FETCH_FILE_THREAD as nat,
        dicfuse_import_concurrency: DEFAULT_DICFUSE_IMPORT_CONCURRENCY as nat,
        dicfuse_dir_sync_ttl_secs: DEFAULT_DICFUSE_DIR_SYNC_TTL_SECS as nat,
        dicfuse_reply_ttl_secs: DEFAULT_DICFUSE_REPLY_TTL_SECS as nat,
        dicfuse_fetch_dir_timeout_secs: DEFAULT_DICFUSE_FETCH_DIR_TIMEOUT_SECS as nat,
        dicfuse_connect_timeout_secs: DEFAULT_DICFUSE_CONNECT_TIMEOUT_SECS as nat,
        dicfuse_fetch_dir_max_retries: DEFAULT_DICFUSE_FETCH_DIR_MAX_RETRIES as nat,
        dicfuse_stat_mode: DicfuseStatMode::Accurate,
        dicfuse_open_buff_max_bytes: DEFAULT_DICFUSE_OPEN_BUFF_MAX_BYTES as nat,
        dicfuse_open_buff_max_files: DEFAULT_DICFUSE_OPEN_BUFF_MAX_FILES as nat,
        antares_load_dir_depth: DEFAULT_ANTARES_LOAD_DIR_DEPTH as nat,
        antares_dicfuse_dir_sync_ttl_secs: DEFAULT_ANTARES_DICFUSE_DIR_SYNC_TTL_SECS as nat,
        antares_dicfuse_reply_ttl_secs: DEFAULT_ANTARES_DICFUSE_REPLY_TTL_SECS as nat,
        antares_dicfuse_stat_mode: DicfuseStatMode::Fast,
        antares_dicfuse_open_buff_max_bytes: DEFAULT_ANTARES_DICFUSE_OPEN_BUFF_MAX_BYTES as nat,
        antares_dicfuse_open_buff_max_files: DEFAULT_ANTARES_DICFUSE_OPEN_BUFF_MAX_FILES as nat,
        antares_upper_root: b + "/antares/upper"@,
        antares_cl_root: b + "/antares/cl"@,
        antares_mount_root: b + "/antares/mnt"@,
        antares_state_file: b + "/antares/state.toml"@,
    }
}

/// The built-in defaults for the user named `username`.
pub fn defaults_for(username: &str) -> (c: ScorpioConfig)
    ensures
        c@ == spec_defaults(username@),
{
    let b = cat(String::from_str("/tmp/megadir-"), username);
    ScorpioConfig {
        base_url: String::from_str("http://localhost:8000"),
        workspace: cat(b.clone(), "/mount"),
        store_path: cat(b.clone(), "/store"),
        git_author: String::from_str("MEGA"),
        git_email: String::from_str("admin@mega.org"),
        config_file: String::from_str("config.toml"),
        lfs_url: String::from_str("http://localhost:8000/lfs"),
        log_level: String::from_str("info"),
        dicfuse_readable: true,
        load_dir_depth: DEFAULT_LOAD_DIR_DEPTH,
        fetch_file_thread: DEFAULT_FETCH_FILE_THREAD,
        dicfuse_import_concurrency: DEFAULT_DICFUSE_IMPORT_CONCURRENCY,
        dicfuse_dir_sync_ttl_secs: DEFAULT_DICFUSE_DIR_SYNC_TTL_SECS,
        dicfuse_reply_ttl_secs: DEFAULT_DICFUSE_REPLY_TTL_SECS,
        dicfuse_fetch_dir_timeout_secs: DEFAULT_DICFUSE_FETCH_DIR_TIMEOUT_SECS,
        dicfuse_connect_timeout_secs: DEFAULT_DICFUSE_CONNECT_TIMEOUT_SECS,
        dicfuse_fetch_dir_max_retries: DEFAULT_DICFUSE_FETCH_DIR_MAX_RETRIES,
        dicfuse_stat_mode: DicfuseStatMode::Accurate,
        dicfuse_open_buff_max_bytes: DEFAULT_DICFUSE_OPEN_BUFF_MAX_BYTES,
        dicfuse_open_buff_max_files: DEFAULT_DICFUSE_OPEN_BUFF_MAX_FILES,
        antares_load_dir_depth: DEFAULT_ANTARES_LOAD_DIR_DEPTH,
        antares_dicfuse_dir_sync_ttl_secs: DEFAULT_ANTARES_DICFUSE_DIR_SYNC_TTL_SECS,
        antares_dicfuse_reply_ttl_secs: DEFAULT_ANTARES_DICFUSE_REPLY_TTL_SECS,
        antares_dicfuse_stat_mode: DicfuseStatMode::Fast,
        antares_dicfuse_open_buff_max_bytes: DEFAULT_ANTARES_DICFUSE_OPEN_BUFF_MAX_BYTES,
        antares_dicfuse_open_buff_max_files: DEFAULT_ANTARES_DICFUSE_OPEN_BUFF_MAX_FILES,
        antares_upper_root: cat(b.clone(), "/antares/upper"),
        antares_cl_root: cat(b.clone(), "/antares/cl"),
        antares_mount_root: cat(b.clone(), "/antares/mnt"),
        antares_state_file: cat(b, "/antares/state.toml"),
    }
}

/// Built-in defaults for the user running the process. The user name comes
/// from the account database; whichever it is, the defaults are those for it.
pub fn defaults() -> (c: ScorpioConfig)
    ensures
        exists|u: Seq<char>| c@ == spec_defaults(u),
{
    match current_username() {
        Some(u) => defaults_for(u.as_str()),
        None => defaults_for("unknown"),
    }
}

// ---------------------------------------------------------------------------
// Validation.
// ---------------------------------------------------------------------------

pub open spec fn parts_view(p: Result<UrlParts, String>) -> Result<(Seq<char>, Option<Seq<char>>), Seq<char>> {
    match p {
        Ok(u) => Ok((u.scheme@, crate::util::sources::opt_text(u.host))),
        Err(e) => Err(e@),
    }
}

pub open spec fn unit_result_view(r: Result<(), String>) -> Result<(), Seq<char>> {
    match r {
        Ok(()) => Ok(()),
        Err(e) => Err(e@),
    }
}

/// What a parsed URL means for a URL setting: it must have been parsed, use
/// the `http` or `https` scheme, and name a non-empty host.
pub open spec fn url_outcome(field: Seq<char>, value: Seq<char>, parsed: Result<(Seq<char>, Option<Seq<char>>), Seq<char>>) -> Result<(), Seq<char>> {
    match parsed {
        Err(e) => Err("Invalid URL for '"@ + field + "': "@ + debug_text(value) + " ("@ + e + ")"@),
        Ok((scheme, host)) => if scheme != "http"@ && scheme != "https"@ {
            Err(
                "Invalid URL scheme for '"@ + field + "': expected http/https, got "@ + debug_text(
                    scheme,
                ) + " in "@ + debug_text(value),
            )
        } else if host is None || host->0.len() == 0 {
            Err("Invalid URL for '"@ + field + "': missing host in "@ + debug_text(value))
        } else {
            Ok(())
        },
    }
}

/// Whether a URL setting is valid.
pub open spec fn url_check(field: Seq<char>, value: Seq<char>) -> Result<(), Seq<char>> {
    url_outcome(field, value, url_parse(value))
}

/// Judges a URL setting from the outcome of parsing it.
pub fn url_verdict(field: &str, value: &str, parsed: Result<UrlParts, String>) -> (r: Result<(), String>)
    ensures
        unit_result_view(r) == url_outcome(field@, value@, parts_view(parsed)),
{
    match parsed {
        Err(e) => {
            let q = debug_quote(value);
            let m = cat(cat(cat(String::from_str("Invalid URL for '"), field), "': "), q.as_str());
            Err(cat(cat(cat(m, " ("), e.as_str()), ")"))
        },
        Ok(p) => {
            if !same_text(p.scheme.as_str(), "http") && !same_text(p.scheme.as_str(), "https") {
                let qs = debug_quote(p.scheme.as_str());
                let qv = debug_quote(value);
                let m = cat(cat(String::from_str("Invalid URL scheme for '"), field), "': expected http/https, got ");
                return Err(cat(cat(cat(m, qs.as_str()), " in "), qv.as_str()));
            }
            let missing = match &p.host {
                Some(h) => h.as_str().unicode_len() == 0,
                None => true,
            };
            if missing {
                let qv = debug_quote(value);
                return Err(cat(cat(cat(String::from_str("Invalid URL for '"), field), "': missing host in "), qv.as_str()));
            }
            Ok(())
        },
    }
}

/// Checks that `value` is an absolute `http`/`https` URL with a host.
pub fn validate_url(field: &str, value: &str) -> (r: Result<(), String>)
    ensures
        unit_result_view(r) == url_check(field@, value@),
{
    url_verdict(field, value, parse_url(value))
}

pub open spec fn missing_message(name: Seq<char>) -> Seq<char> {
    "Missing or empty required config: "@ + name
}

pub open spec fn below_one_message(name: Seq<char>) -> Seq<char> {
    "Invalid config '"@ + name + "': must be >= 1, got 0"@
}

/// The name of the first blank text among `items`.
pub open spec fn first_blank(items: Seq<(Seq<char>, Seq<char>)>) -> Option<Seq<char>>
    decreases items.len(),
{
    if items.len() == 0 {
        None
    } else if is_blank(items[0].1) {
        Some(items[0].0)
    } else {
        first_blank(items.drop_first())
    }
}

/// The name of the first zero among `items`.
pub open spec fn first_zero(items: Seq<(Seq<char>, nat)>) -> Option<Seq<char>>
    decreases items.len(),
{
    if items.len() == 0 {
        None
    } else if items[0].1 < 1 {
        Some(items[0].0)
    } else {
        first_zero(items.drop_first())
    }
}

/// Text settings that must not be blank.
pub open spec fn required_fields(c: ConfigView) -> Seq<(Seq<char>, Seq<char>)> {
    seq![
        ("workspace"@, c.workspace),
        ("store_path"@, c.store_path),
        ("git_author"@, c.git_author),
        ("git_email"@, c.git_email),
        ("config_file"@, c.config_file),
        ("antares_upper_root"@, c.antares_upper_root),
        ("antares_cl_root"@, c.antares_cl_root),
        ("antares_mount_root"@, c.antares_mount_root),
        ("antares_state_file"@, c.antares_state_file),
    ]
}

/// Counts that must be at least 1.
pub open spec fn positive_fields(c: ConfigView) -> Seq<(Seq<char>, nat)> {
    seq![
        ("load_dir_depth"@, c.load_dir_depth),
        ("fetch_file_thread"@, c.fetch_file_thread),
        ("dicfuse_import_concurrency"@, c.dicfuse_import_concurrency),
        ("dicfuse_open_buff_max_files"@, c.dicfuse_open_buff_max_files),
        ("antares_load_dir_depth"@, c.antares_load_dir_depth),
        ("antares_dicfuse_open_buff_max_files"@, c.antares_dicfuse_open_buff_max_files),
    ]
}

/// Timeouts that must be at least one second, in the order start-up checks them.
pub open spec fn timeout_fields(c: ConfigView) -> Seq<(Seq<char>, nat)> {
    seq![
        ("dicfuse_fetch_dir_timeout_secs"@, c.dicfuse_fetch_dir_timeout_secs),
        ("dicfuse_connect_timeout_secs"@, c.dicfuse_connect_timeout_secs),
    ]
}

/// Start-up validation: the first problem found, in this order: the two
/// URLs, the required texts, the counts, the timeouts.
pub open spec fn spec_validate(c: ConfigView) -> Result<(), Seq<char>> {
    if url_check("base_url"@, c.base_url) is Err {
        url_check("base_url"@, c.base_url)
    } else if url_check("lfs_url"@, c.lfs_url) is Err {
        url_check("lfs_url"@, c.lfs_url)
    } else if first_blank(required_fields(c)) is Some {
        Err(missing_message(first_blank(required_fields(c))->0))
    } else if first_zero(positive_fields(c)) is Some {
        Err(below_one_message(first_zero(positive_fields(c))->0))
    } else if first_zero(timeout_fields(c)) is Some {
        Err(below_one_message(first_zero(timeout_fields(c))->0))
    } else {
        Ok(())
    }
}

pub open spec fn text_pairs(items: Seq<(&str, &str)>) -> Seq<(Seq<char>, Seq<char>)> {
    items.map_values(|p: (&str, &str)| (p.0@, p.1@))
}

pub open spec fn count_pairs(items: Seq<(&str, u64)>) -> Seq<(Seq<char>, nat)> {
    items.map_values(|p: (&str, u64)| (p.0@, p.1 as nat))
}

fn first_blank_name<'a>(items: &Vec<(&'a str, &'a str)>) -> (r: Option<&'a str>)
    ensures
        match (r, first_blank(text_pairs(items@))) {
            (Some(n), Some(m)) => n@ == m,
            (None, None) => true,
            _ => false,
        },
{
    let ghost all = text_pairs(items@);
    let mut i: usize = 0;
    assert(all.subrange(0, all.len() as int) =~= all);
    while i < items.len()
        invariant
            i <= items.len(),
            all == text_pairs(items@),
            first_blank(all) == first_blank(all.subrange(i as int, all.len() as int)),
        decreases items.len() - i,
    {
        let (name, value) = items[i];
        assert(all.subrange(i as int, all.len() as int)[0] == (name@, value@));
        assert(all.subrange(i as int, all.len() as int).drop_first() =~= all.subrange(i + 1, all.len() as int));
        if str_is_blank(value) {
            return Some(name);
        }
        i = i + 1;
    }
    None
}

fn first_zero_name<'a>(items: &Vec<(&'a str, u64)>) -> (r: Option<&'a str>)
    ensures
        match (r, first_zero(count_pairs(items@))) {
            (Some(n), Some(m)) => n@ == m,
            (None, None) => true,
            _ => false,
        },
{
    let ghost all = count_pairs(items@);
    let mut i: usize = 0;
    assert(all.subrange(0, all.len() as int) =~= all);
    while i < items.len()
        invariant
            i <= items.len(),
            all == count_pairs(items@),
            first_zero(all) == first_zero(all.subrange(i as int, all.len() as int)),
        decreases items.len() - i,
    {
        let (name, value) = items[i];
        assert(all.subrange(i as int, all.len() as int)[0] == (name@, value as nat));
        assert(all.subrange(i as int, all.len() as int).drop_first() =~= all.subrange(i + 1, all.len() as int));
        if value < 1 {
            return Some(name);
        }
        i = i + 1;
    }
    None
}

fn missing_error(name: &str) -> (r: String)
    ensures
        r@ == missing_message(name@),
{
    cat(String::from_str("Missing or empty required config: "), name)
}

fn below_one_error(name: &str) -> (r: String)
    ensures
        r@ == below_one_message(name@),
{
    cat(cat(String::from_str("Invalid config '"), name), "': must be >= 1, got 0")
}

fn required_list(cfg: &ScorpioConfig) -> (v: Vec<(&str, &str)>)
    ensures
        text_pairs(v@) == required_fields(cfg@),
{
    let v = vec![
        ("workspace", cfg.workspace.as_str()),
        ("store_path", cfg.store_path.as_str()),
        ("git_author", cfg.git_author.as_str()),
        ("git_email", cfg.git_email.as_str()),
        ("config_file", cfg.config_file.as_str()),
        ("antares_upper_root", cfg.antares_upper_root.as_str()),
        ("antares_cl_root", cfg.antares_cl_root.as_str()),
        ("antares_mount_root", cfg.antares_mount_root.as_str()),
        ("antares_state_file", cfg.antares_state_file.as_str()),
    ];
    assert(text_pairs(v@) =~= required_fields(cfg@));
    v
}

fn positive_list(cfg: &ScorpioConfig) -> (v: Vec<(&str, u64)>)
    ensures
        count_pairs(v@) == positive_fields(cfg@),
{
    let v = vec![
        ("load_dir_depth", cfg.load_dir_depth as u64),
        ("fetch_file_thread", cfg.fetch_file_thread as u64),
        ("dicfuse_import_concurrency", cfg.dicfuse_import_concurrency as u64),
        ("dicfuse_open_buff_max_files", cfg.dicfuse_open_buff_max_files as u64),
        ("antares_load_dir_depth", cfg.antares_load_dir_depth as u64),
        ("antares_dicfuse_open_buff_max_files", cfg.antares_dicfuse_open_buff_max_files as u64),
    ];
    assert(count_pairs(v@) =~= positive_fields(cfg@));
    v
}

/// Lightweight, start-up-time validation; reports the first problem.
pub fn validate(cfg: &ScorpioConfig) -> (r: Result<(), String>)
    ensures
        unit_result_view(r) == spec_validate(cfg@),
{
    match validate_url("base_url", cfg.base_url.as_str()) {
        Ok(()) => {},
        Err(e) => {
            return Err(e);
        },
    }
    match validate_url("lfs_url", cfg.lfs_url.as_str()) {
        Ok(()) => {},
        Err(e) => {
            return Err(e);
        },
    }
    let required = required_list(cfg);
    match first_blank_name(&required) {
        Some(name) => {
            return Err(missing_error(name));
        },
        None => {},
    }
    let positive = positive_list(cfg);
    match first_zero_name(&positive) {
        Some(name) => {
            return Err(below_one_error(name));
        },
        None => {},
    }
    let timeouts = vec![
        ("dicfuse_fetch_dir_timeout_secs", cfg.dicfuse_fetch_dir_timeout_secs),
        ("dicfuse_connect_timeout_secs", cfg.dicfuse_connect_timeout_secs),
    ];
    assert(count_pairs(timeouts@) =~= timeout_fields(cfg@));
    match first_zero_name(&timeouts) {
        Some(name) => {
            return Err(below_one_error(name));
        },
        None => {},
    }
    Ok(())
}

} // verus!

verus! {

// ---------------------------------------------------------------------------
// The whole configuration.
// ---------------------------------------------------------------------------

/// The configuration resolved from `r` over the defaults `d`: every field is
/// resolved and typed in turn, and the first failure is reported.
pub open spec fn build_fields(r: ResolverView, d: ConfigView) -> Result<ConfigView, Seq<char>> {
    let base_url = text_field(r, "base_url"@, "server"@, "base_url"@, d.base_url);
    let lfs_url = text_field(r, "lfs_url"@, "server"@, "lfs_url"@, d.lfs_url);
    let workspace = text_field(r, "workspace"@, "server"@, "workspace"@, d.workspace);
    let store_path = text_field(r, "store_path"@, "server"@, "store_path"@, d.store_path);
    let git_author = text_field(r, "git_author"@, "server"@, "git_author"@, d.git_author);
    let git_email = text_field(r, "git_email"@, "server"@, "git_email"@, d.git_email);
    let config_file = text_field(r, "config_file"@, "server"@, "config_file"@, d.config_file);
    let log_level = text_field(r, "log_level"@, "server"@, "log_level"@, d.log_level);
    let dicfuse_readable = flag_field(r, "dicfuse_readable"@, "dicfuse"@, "readable"@, d.dicfuse_readable);
    let load_dir_depth = number_field(r, "load_dir_depth"@, "dicfuse"@, "load_dir_depth"@, d.load_dir_depth, usize::MAX as nat, "usize"@);
    let fetch_file_thread = number_field(r, "fetch_file_thread"@, "dicfuse"@, "fetch_file_thread"@, d.fetch_file_thread, usize::MAX as nat, "usize"@);
    let dicfuse_import_concurrency = number_field(r, "dicfuse_import_concurrency"@, "dicfuse"@, "import_concurrency"@, d.dicfuse_import_concurrency, usize::MAX as nat, "usize"@);
    let dicfuse_dir_sync_ttl_secs = number_field(r, "dicfuse_dir_sync_ttl_secs"@, "dicfuse"@, "dir_sync_ttl_secs"@, d.dicfuse_dir_sync_ttl_secs, u64::MAX as nat, "u64"@);
    let dicfuse_reply_ttl_secs = number_field(r, "dicfuse_reply_ttl_secs"@, "dicfuse"@, "reply_ttl_secs"@, d.dicfuse_reply_ttl_secs, u64::MAX as nat, "u64"@);
    let dicfuse_fetch_dir_timeout_secs = number_field(r, "dicfuse_fetch_dir_timeout_secs"@, "dicfuse"@, "fetch_dir_timeout_secs"@, d.dicfuse_fetch_dir_timeout_secs, u64::MAX as nat, "u64"@);
    let dicfuse_connect_timeout_secs = number_field(r, "dicfuse_connect_timeout_secs"@, "dicfuse"@, "connect_timeout_secs"@, d.dicfuse_connect_timeout_secs, u64::MAX as nat, "u64"@);
    let dicfuse_fetch_dir_max_retries = number_field(r, "dicfuse_fetch_dir_max_retries"@, "dicfuse"@, "fetch_dir_max_retries"@, d.dicfuse_fetch_dir_max_retries, u32::MAX as nat, "u32"@);
    let dicfuse_stat_mode = mode_field(r, "dicfuse_stat_mode"@, "dicfuse"@, "stat_mode"@, d.dicfuse_stat_mode);
    let dicfuse_open_buff_max_bytes = number_field(r, "dicfuse_open_buff_max_bytes"@, "dicfuse"@, "open_buff_max_bytes"@, d.dicfuse_open_buff_max_bytes, u64::MAX as nat, "u64"@);
    let dicfuse_open_buff_max_files = number_field(r, "dicfuse_open_buff_max_files"@, "dicfuse"@, "open_buff_max_files"@, d.dicfuse_open_buff_max_files, usize::MAX as nat, "usize"@);
    let antares_load_dir_depth = number_field(r, "antares_load_dir_depth"@, "antares"@, "load_dir_depth"@, d.antares_load_dir_depth, usize::MAX as nat, "usize"@);
    let antares_dicfuse_dir_sync_ttl_secs = number_field(r, "antares_dicfuse_dir_sync_ttl_secs"@, "antares"@, "dir_sync_ttl_secs"@, d.antares_dicfuse_dir_sync_ttl_secs, u64::MAX as nat, "u64"@);
    let antares_dicfuse_reply_ttl_secs = number_field(r, "antares_dicfuse_reply_ttl_secs"@, "antares"@, "reply_ttl_secs"@, d.antares_dicfuse_reply_ttl_secs, u64::MAX as nat, "u64"@);
    let antares_dicfuse_stat_mode = mode_field(r, "antares_dicfuse_stat_mode"@, "antares"@, "stat_mode"@, d.antares_dicfuse_stat_mode);
    let antares_dicfuse_open_buff_max_bytes = number_field(r, "antares_dicfuse_open_buff_max_bytes"@, "antares"@, "open_buff_max_bytes"@, d.antares_dicfuse_open_buff_max_bytes, u64::MAX as nat, "u64"@);
    let antares_dicfuse_open_buff_max_files = number_field(r, "antares_dicfuse_open_buff_max_files"@, "antares"@, "open_buff_max_files"@, d.antares_dicfuse_open_buff_max_files, usize::MAX as nat, "usize"@);
    let antares_upper_root = text_field(r, "antares_upper_root"@, "antares"@, "upper_root"@, d.antares_upper_root);
    let antares_cl_root = text_field(r, "antares_cl_root"@, "antares"@, "cl_root"@, d.antares_cl_root);
    let antares_mount_root = text_field(r, "antares_mount_root"@, "antares"@, "mount_root"@, d.antares_mount_root);
    let antares_state_file = text_field(r, "antares_state_file"@, "antares"@, "state_file"@, d.antares_state_file);
    if base_url is Err {
        Err(base_url->Err_0)
    } else if lfs_url is Err {
        Err(lfs_url->Err_0)
    } else if workspace is Err {
        Err(workspace->Err_0)
    } else if store_path is Err {
        Err(store_path->Err_0)
    } else if git_author is Err {
        Err(git_author->Err_0)
    } else if git_email is Err {
        Err(git_email->Err_0)
    } else if config_file is Err {
        Err(config_file->Err_0)
    } else if log_level is Err {
        Err(log_level->Err_0)
    } else if dicfuse_readable is Err {
        Err(dicfuse_readable->Err_0)
    } else if load_dir_depth is Err {
        Err(load_dir_depth->Err_0)
    } else if fetch_file_thread is Err {
        Err(fetch_file_thread->Err_0)
    } else if dicfuse_import_concurrency is Err {
        Err(dicfuse_import_concurrency->Err_0)
    } else if dicfuse_dir_sync_ttl_secs is Err {
        Err(dicfuse_dir_sync_ttl_secs->Err_0)
    } else if dicfuse_reply_ttl_secs is Err {
        Err(dicfuse_reply_ttl_secs->Err_0)
    } else if dicfuse_fetch_dir_timeout_secs is Err {
        Err(dicfuse_fetch_dir_timeout_secs->Err_0)
    } else if dicfuse_connect_timeout_secs is Err {
        Err(dicfuse_connect_timeout_secs->Err_0)
    } else if dicfuse_fetch_dir_max_retries is Err {
        Err(dicfuse_fetch_dir_max_retries->Err_0)
    } else if dicfuse_stat_mode is Err {
        Err(dicfuse_stat_mode->Err_0)
    } else if dicfuse_open_buff_max_bytes is Err {
        Err(dicfuse_open_buff_max_bytes->Err_0)
    } else if dicfuse_open_buff_max_files is Err {
        Err(dicfuse_open_buff_max_files->Err_0)
    } else if antares_load_dir_depth is Err {
        Err(antares_load_dir_depth->Err_0)
    } else if antares_dicfuse_dir_sync_ttl_secs is Err {
        Err(antares_dicfuse_dir_sync_ttl_secs->Err_0)
    } else if antares_dicfuse_reply_ttl_secs is Err {
        Err(antares_dicfuse_reply_ttl_secs->Err_0)
    } else if antares_dicfuse_stat_mode is Err {
        Err(antares_dicfuse_stat_mode->Err_0)
    } else if antares_dicfuse_open_buff_max_bytes is Err {
        Err(antares_dicfuse_open_buff_max_bytes->Err_0)
    } else if antares_dicfuse_open_buff_max_files is Err {
        Err(antares_dicfuse_open_buff_max_files->Err_0)
    } else if antares_upper_root is Err {
        Err(antares_upper_root->Err_0)
    } else if antares_cl_root is Err {
        Err(antares_cl_root->Err_0)
    } else if antares_mount_root is Err {
        Err(antares_mount_root->Err_0)
    } else if antares_state_file is Err {
        Err(antares_state_file->Err_0)
    } else {
        let c = ConfigView {
            base_url: base_url->Ok_0,
            workspace: workspace->Ok_0,
            store_path: store_path->Ok_0,
            git_author: git_author->Ok_0,
            git_email: git_email->Ok_0,
            config_file: config_file->Ok_0,
            lfs_url: lfs_url->Ok_0,
            log_level: log_level->Ok_0,
            dicfuse_readable: dicfuse_readable->Ok_0,
            load_dir_depth: load_dir_depth->Ok_0,
            fetch_file_thread: fetch_file_thread->Ok_0,
            dicfuse_import_concurrency: dicfuse_import_concurrency->Ok_0,
            dicfuse_dir_sync_ttl_secs: dicfuse_dir_sync_ttl_secs->Ok_0,
            dicfuse_reply_ttl_secs: dicfuse_reply_ttl_secs->Ok_0,
            dicfuse_fetch_dir_timeout_secs: dicfuse_fetch_dir_timeout_secs->Ok_0,
            dicfuse_connect_timeout_secs: dicfuse_connect_timeout_secs->Ok_0,
            dicfuse_fetch_dir_max_retries: dicfuse_fetch_dir_max_retries->Ok_0,
            dicfuse_stat_mode: dicfuse_stat_mode->Ok_0,
            dicfuse_open_buff_max_bytes: dicfuse_open_buff_max_bytes->Ok_0,
            dicfuse_open_buff_max_files: dicfuse_open_buff_max_files->Ok_0,
            antares_load_dir_depth: antares_load_dir_depth->Ok_0,
            antares_dicfuse_dir_sync_ttl_secs: antares_dicfuse_dir_sync_ttl_secs->Ok_0,
            antares_dicfuse_reply_ttl_secs: antares_dicfuse_reply_ttl_secs->Ok_0,
            antares_dicfuse_stat_mode: antares_dicfuse_stat_mode->Ok_0,
            antares_dicfuse_open_buff_max_bytes: antares_dicfuse_open_buff_max_bytes->Ok_0,
            antares_dicfuse_open_buff_max_files: antares_dicfuse_open_buff_max_files->Ok_0,
            antares_upper_root: antares_upper_root->Ok_0,
            antares_cl_root: antares_cl_root->Ok_0,
            antares_mount_root: antares_mount_root->Ok_0,
            antares_state_file: antares_state_file->Ok_0,
        };
        Ok(c)
    }
}


/// The configuration start-up builds: every field resolved and typed (the
/// first field error found), then validated.
pub open spec fn spec_build(r: ResolverView, d: ConfigView) -> Result<ConfigView, Seq<char>> {
    match build_fields(r, d) {
        Err(e) => Err(e),
        Ok(c) => match spec_validate(c) {
            Ok(_) => Ok(c),
            Err(e) => Err(e),
        },
    }
}

pub open spec fn config_result_view(r: Result<ScorpioConfig, String>) -> Result<ConfigView, Seq<char>> {
    match r {
        Ok(c) => Ok(c@),
        Err(e) => Err(e@),
    }
}

/// Resolves every field from the layered sources over the defaults `d` and
/// parses it into its concrete type; type errors name the offending field.
#[verifier::rlimit(50)]
pub fn build_config_with(r: &RawResolver, d: &ScorpioConfig) -> (res: Result<ScorpioConfig, String>)
    ensures
        config_result_view(res) == spec_build(r@, d@),
{
    let base_url = match optional_string(r, "base_url", "server", "base_url", d.base_url.clone()) {
        Ok(v) => v,
        Err(e) => {
            return Err(e);
        },
    };
    let lfs_url = match optional_string(r, "lfs_url", "server", "lfs_url", d.lfs_url.clone()) {
        Ok(v) => v,
        Err(e) => {
            return Err(e);
        },
    };
    let workspace = match optional_string(r, "workspace", "server", "workspace", d.workspace.clone()) {
        Ok(v) => v,
        Err(e) => {
            return Err(e);
        },
    };
    let store_path = match optional_string(r, "store_path", "server", "store_path", d.store_path.clone()) {
        Ok(v) => v,
        Err(e) => {
            return Err(e);
        },
    };
    let git_author = match optional_string(r, "git_author", "server", "git_author", d.git_author.clone()) {
        Ok(v) => v,
        Err(e) => {
            return Err(e);
        },
    };
    let git_email = match optional_string(r, "git_email", "server", "git_email", d.git_email.clone()) {
        Ok(v) => v,
        Err(e) => {
            return Err(e);
        },
    };
    let config_file = match optional_string(r, "config_file", "server", "config_file", d.config_file.clone()) {
        Ok(v) => v,
        Err(e) => {
            return Err(e);
        },
    };
    let log_level = match optional_string(r, "log_level", "server", "log_level", d.log_level.clone()) {
        Ok(v) => v,
        Err(e) => {
            return Err(e);
        },
    };
    let dicfuse_readable = match parse_bool(r, "dicfuse_readable", "dicfuse", "readable", d.dicfuse_readable) {
        Ok(v) => v,
        Err(e) => {
            return Err(e);
        },
    };
    let load_dir_depth = match parse_number(r, "load_dir_depth", "dicfuse", "load_dir_depth", d.load_dir_depth as u64, usize::MAX as u64, "usize") {
        Ok(v) => v as usize,
        Err(e) => {
            return Err(e);
        },
    };
    let fetch_file_thread = match parse_number(r, "fetch_file_thread", "dicfuse", "fetch_file_thread", d.fetch_file_thread as u64, usize::MAX as u64, "usize") {
        Ok(v) => v as usize,
        Err(e) => {
            return Err(e);
        },
    };
    let dicfuse_import_concurrency = match parse_number(r, "dicfuse_import_concurrency", "dicfuse", "import_concurrency", d.dicfuse_import_concurrency as u64, usize::MAX as u64, "usize") {
        Ok(v) => v as usize,
        Err(e) => {
            return Err(e);
        },
    };
    let dicfuse_dir_sync_ttl_secs = match parse_number(r, "dicfuse_dir_sync_ttl_secs", "dicfuse", "dir_sync_ttl_secs", d.dicfuse_dir_sync_ttl_secs as u64, u64::MAX, "u64") {
        Ok(v) => v,
        Err(e) => {
            return Err(e);
        },
    };
    let dicfuse_reply_ttl_secs = match parse_number(r, "dicfuse_reply_ttl_secs", "dicfuse", "reply_ttl_secs", d.dicfuse_reply_ttl_secs as u64, u64::MAX, "u64") {
        Ok(v) => v,
        Err(e) => {
            return Err(e);
        },
    };
    let dicfuse_fetch_dir_timeout_secs = match parse_number(r, "dicfuse_fetch_dir_timeout_secs", "dicfuse", "fetch_dir_timeout_secs", d.dicfuse_fetch_dir_timeout_secs as u64, u64::MAX, "u64") {
        Ok(v) => v,
        Err(e) => {
            return Err(e);
        },
    };
    let dicfuse_connect_timeout_secs = match parse_number(r, "dicfuse_connect_timeout_secs", "dicfuse", "connect_timeout_secs", d.dicfuse_connect_timeout_secs as u64, u64::MAX, "u64") {
        Ok(v) => v,
        Err(e) => {
            return Err(e);
        },
    };
    let dicfuse_fetch_dir_max_retries = match parse_number(r, "dicfuse_fetch_dir_max_retries", "dicfuse", "fetch_dir_max_retries", d.dicfuse_fetch_dir_max_retries as u64, u32::MAX as u64, "u32") {
        Ok(v) => v as u32,
        Err(e) => {
            return Err(e);
        },
    };
    let dicfuse_stat_mode = match parse_stat_mode(r, "dicfuse_stat_mode", "dicfuse", "stat_mode", d.dicfuse_stat_mode) {
        Ok(v) => v,
        Err(e) => {
            return Err(e);
        },
    };
    let dicfuse_open_buff_max_bytes = match parse_number(r, "dicfuse_open_buff_max_bytes", "dicfuse", "open_buff_max_bytes", d.dicfuse_open_buff_max_bytes as u64, u64::MAX, "u64") {
        Ok(v) => v,
        Err(e) => {
            return Err(e);
        },
    };
    let dicfuse_open_buff_max_files = match parse_number(r, "dicfuse_open_buff_max_files", "dicfuse", "open_buff_max_files", d.dicfuse_open_buff_max_files as u64, usize::MAX as u64, "usize") {
        Ok(v) => v as usize,
        Err(e) => {
            return Err(e);
        },
    };
    let antares_load_dir_depth = match parse_number(r, "antares_load_dir_depth", "antares", "load_dir_depth", d.antares_load_dir_depth as u64, usize::MAX as u64, "usize") {
        Ok(v) => v as usize,
        Err(e) => {
            return Err(e);
        },
    };
    let antares_dicfuse_dir_sync_ttl_secs = match parse_number(r, "antares_dicfuse_dir_sync_ttl_secs", "antares", "dir_sync_ttl_secs", d.antares_dicfuse_dir_sync_ttl_secs as u64, u64::MAX, "u64") {
        Ok(v) => v,
        Err(e) => {
            return Err(e);
        },
    };
    let antares_dicfuse_reply_ttl_secs = match parse_number(r, "antares_dicfuse_reply_ttl_secs", "antares", "reply_ttl_secs", d.antares_dicfuse_reply_ttl_secs as u64, u64::MAX, "u64") {
        Ok(v) => v,
        Err(e) => {
            return Err(e);
        },
    };
    let antares_dicfuse_stat_mode = match parse_stat_mode(r, "antares_dicfuse_stat_mode", "antares", "stat_mode", d.antares_dicfuse_stat_mode) {
        Ok(v) => v,
        Err(e) => {
            return Err(e);
        },
    };
    let antares_dicfuse_open_buff_max_bytes = match parse_number(r, "antares_dicfuse_open_buff_max_bytes", "antares", "open_buff_max_bytes", d.antares_dicfuse_open_buff_max_bytes as u64, u64::MAX, "u64") {
        Ok(v) => v,
        Err(e) => {
            return Err(e);
        },
    };
    let antares_dicfuse_open_buff_max_files = match parse_number(r, "antares_dicfuse_open_buff_max_files", "antares", "open_buff_max_files", d.antares_dicfuse_open_buff_max_files as u64, usize::MAX as u64, "usize") {
        Ok(v) => v as usize,
        Err(e) => {
            return Err(e);
        },
    };
    let antares_upper_root = match optional_string(r, "antares_upper_root", "antares", "upper_root", d.antares_upper_root.clone()) {
        Ok(v) => v,
        Err(e) => {
            return Err(e);
        },
    };
    let antares_cl_root = match optional_string(r, "antares_cl_root", "antares", "cl_root", d.antares_cl_root.clone()) {
        Ok(v) => v,
        Err(e) => {
            return Err(e);
        },
    };
    let antares_mount_root = match optional_string(r, "antares_mount_root", "antares", "mount_root", d.antares_mount_root.clone()) {
        Ok(v) => v,
        Err(e) => {
            return Err(e);
        },
    };
    let antares_state_file = match optional_string(r, "antares_state_file", "antares", "state_file", d.antares_state_file.clone()) {
        Ok(v) => v,
        Err(e) => {
            return Err(e);
        },
    };
    let cfg = ScorpioConfig {
        base_url,
        workspace,
        store_path,
        git_author,
        git_email,
        config_file,
        lfs_url,
        log_level,
        dicfuse_readable,
        load_dir_depth,
        fetch_file_thread,
        dicfuse_import_concurrency,
        dicfuse_dir_sync_ttl_secs,
        dicfuse_reply_ttl_secs,
        dicfuse_fetch_dir_timeout_secs,
        dicfuse_connect_timeout_secs,
        dicfuse_fetch_dir_max_retries,
        dicfuse_stat_mode,
        dicfuse_open_buff_max_bytes,
        dicfuse_open_buff_max_files,
        antares_load_dir_depth,
        antares_dicfuse_dir_sync_ttl_secs,
        antares_dicfuse_reply_ttl_secs,
        antares_dicfuse_stat_mode,
        antares_dicfuse_open_buff_max_bytes,
        antares_dicfuse_open_buff_max_files,
        antares_upper_root,
        antares_cl_root,
        antares_mount_root,
        antares_state_file,
    };
    match validate(&cfg) {
        Ok(()) => Ok(cfg),
        Err(e) => Err(e),
    }
}

/// Resolves and validates the configuration over the built-in defaults for
/// the user running the process.
pub fn build_config(r: &RawResolver) -> (res: Result<ScorpioConfig, String>)
    ensures
        exists|u: Seq<char>| config_result_view(res) == spec_build(r@, spec_defaults(u)),
{
    let d = defaults();
    build_config_with(r, &d)
}

} // verus!

verus! {

// ---------------------------------------------------------------------------
// Collect-all validation (for `scorpio config validate`): unlike start-up,
// which stops at the first error, every field is resolved and every problem
// reported.
// ---------------------------------------------------------------------------

pub open spec fn texts(v: Seq<String>) -> Seq<Seq<char>> {
    v.map_values(|s: String| s@)
}

pub open spec fn errs_of<T>(r: Result<T, Seq<char>>) -> Seq<Seq<char>> {
    match r {
        Ok(_) => Seq::empty(),
        Err(e) => seq![e],
    }
}

pub open spec fn value_or<T>(r: Result<T, Seq<char>>, default: T) -> T {
    match r {
        Ok(v) => v,
        Err(_) => default,
    }
}

/// One message per blank text, in order.
pub open spec fn missing_messages(items: Seq<(Seq<char>, Seq<char>)>) -> Seq<Seq<char>>
    decreases items.len(),
{
    if items.len() == 0 {
        Seq::empty()
    } else {
        missing_messages(items.drop_last()) + if is_blank(items.last().1) {
            seq![missing_message(items.last().0)]
        } else {
            Seq::empty()
        }
    }
}

/// One message per zero count, in order.
pub open spec fn below_one_messages(items: Seq<(Seq<char>, nat)>) -> Seq<Seq<char>>
    decreases items.len(),
{
    if items.len() == 0 {
        Seq::empty()
    } else {
        below_one_messages(items.drop_last()) + if items.last().1 < 1 {
            seq![below_one_message(items.last().0)]
        } else {
            Seq::empty()
        }
    }
}

/// The timeouts, in the order `config validate` reports them.
pub open spec fn timeout_fields_reported(c: ConfigView) -> Seq<(Seq<char>, nat)> {
    seq![
        ("dicfuse_connect_timeout_secs"@, c.dicfuse_connect_timeout_secs),
        ("dicfuse_fetch_dir_timeout_secs"@, c.dicfuse_fetch_dir_timeout_secs),
    ]
}

fn push_text(errs: &mut Vec<String>, e: String)
    ensures
        texts(final(errs)@) == texts(old(errs)@) + seq![e@],
{
    let ghost ev = e@;
    errs.push(e);
    assert(texts(errs@) =~= texts(old(errs)@) + seq![ev]);
}

fn push_missing(items: &Vec<(&str, &str)>, errs: &mut Vec<String>)
    ensures
        texts(final(errs)@) == texts(old(errs)@) + missing_messages(text_pairs(items@)),
{
    let ghost all = text_pairs(items@);
    let mut i: usize = 0;
    assert(all.subrange(0, 0) =~= Seq::<(Seq<char>, Seq<char>)>::empty());
    assert(texts(errs@) =~= texts(old(errs)@) + missing_messages(all.subrange(0, 0)));
    while i < items.len()
        invariant
            i <= items.len(),
            all == text_pairs(items@),
            texts(errs@) == texts(old(errs)@) + missing_messages(all.subrange(0, i as int)),
        decreases items.len() - i,
    {
        let (name, value) = items[i];
        assert(all.subrange(0, i + 1).drop_last() =~= all.subrange(0, i as int));
        assert(all.subrange(0, i + 1).last() == (name@, value@));
        if str_is_blank(value) {
            push_text(errs, missing_error(name));
        }
        assert(texts(errs@) =~= texts(old(errs)@) + missing_messages(all.subrange(0, i + 1)));
        i = i + 1;
    }
    assert(all.subrange(0, all.len() as int) =~= all);
}

fn push_below_one(items: &Vec<(&str, u64)>, errs: &mut Vec<String>)
    ensures
        texts(final(errs)@) == texts(old(errs)@) + below_one_messages(count_pairs(items@)),
{
    let ghost all = count_pairs(items@);
    let mut i: usize = 0;
    assert(all.subrange(0, 0) =~= Seq::<(Seq<char>, nat)>::empty());
    assert(texts(errs@) =~= texts(old(errs)@) + below_one_messages(all.subrange(0, 0)));
    while i < items.len()
        invariant
            i <= items.len(),
            all == count_pairs(items@),
            texts(errs@) == texts(old(errs)@) + below_one_messages(all.subrange(0, i as int)),
        decreases items.len() - i,
    {
        let (name, value) = items[i];
        assert(all.subrange(0, i + 1).drop_last() =~= all.subrange(0, i as int));
        assert(all.subrange(0, i + 1).last() == (name@, value as nat));
        if value < 1 {
            push_text(errs, below_one_error(name));
        }
        assert(texts(errs@) =~= texts(old(errs)@) + below_one_messages(all.subrange(0, i + 1)));
        i = i + 1;
    }
    assert(all.subrange(0, all.len() as int) =~= all);
}

/// A text setting, falling back to `default` and recording any error.
pub fn collect_str(r: &RawResolver, flat: &str, section: &str, short: &str, default: &str, errs: &mut Vec<String>) -> (v: String)
    ensures
        v@ == value_or(text_field(r@, flat@, section@, short@, default@), default@),
        texts(final(errs)@) == texts(old(errs)@) + errs_of(text_field(r@, flat@, section@, short@, default@)),
{
    match optional_string(r, flat, section, short, String::from_str(default)) {
        Ok(v) => {
            assert(texts(errs@) =~= texts(old(errs)@) + Seq::<Seq<char>>::empty());
            v
        },
        Err(e) => {
            push_text(errs, e);
            String::from_str(default)
        },
    }
}

/// A numeric setting, falling back to `default` and recording any error.
pub fn collect_num(r: &RawResolver, flat: &str, section: &str, short: &str, default: u64, max: u64, kind_name: &str, errs: &mut Vec<String>) -> (v: u64)
    requires
        default <= max,
    ensures
        v <= max,
        v as nat == value_or(number_field(r@, flat@, section@, short@, default as nat, max as nat, kind_name@), default as nat),
        texts(final(errs)@) == texts(old(errs)@) + errs_of(number_field(r@, flat@, section@, short@, default as nat, max as nat, kind_name@)),
{
    match parse_number(r, flat, section, short, default, max, kind_name) {
        Ok(v) => {
            assert(texts(errs@) =~= texts(old(errs)@) + Seq::<Seq<char>>::empty());
            v
        },
        Err(e) => {
            push_text(errs, e);
            default
        },
    }
}

/// A boolean setting, falling back to `default` and recording any error.
pub fn collect_bool(r: &RawResolver, flat: &str, section: &str, short: &str, default: bool, errs: &mut Vec<String>) -> (v: bool)
    ensures
        v == value_or(flag_field(r@, flat@, section@, short@, default), default),
        texts(final(errs)@) == texts(old(errs)@) + errs_of(flag_field(r@, flat@, section@, short@, default)),
{
    match parse_bool(r, flat, section, short, default) {
        Ok(v) => {
            assert(texts(errs@) =~= texts(old(errs)@) + Seq::<Seq<char>>::empty());
            v
        },
        Err(e) => {
            push_text(errs, e);
            default
        },
    }
}

/// A stat-mode setting, falling back to `default` and recording any error.
pub fn collect_mode(r: &RawResolver, flat: &str, section: &str, short: &str, default: DicfuseStatMode, errs: &mut Vec<String>) -> (v: DicfuseStatMode)
    ensures
        v == value_or(mode_field(r@, flat@, section@, short@, default), default),
        texts(final(errs)@) == texts(old(errs)@) + errs_of(mode_field(r@, flat@, section@, short@, default)),
{
    match parse_stat_mode(r, flat, section, short, default) {
        Ok(v) => {
            assert(texts(errs@) =~= texts(old(errs)@) + Seq::<Seq<char>>::empty());
            v
        },
        Err(e) => {
            push_text(errs, e);
            default
        },
    }
}

} // verus!

verus! {

/// Every problem `r` has over the defaults `d`, in the order `config validate`
/// reports them: each field's resolution or type error (a failed field
/// counts as its default from then on), then the URLs, the required texts,
/// the counts and the timeouts.
#[verifier::opaque]
pub open spec fn spec_problems(r: ResolverView, d: ConfigView) -> Seq<Seq<char>> {
    let base_url = text_field(r, "base_url"@, "server"@, "base_url"@, d.base_url);
    let lfs_url = text_field(r, "lfs_url"@, "server"@, "lfs_url"@, d.lfs_url);
    let workspace = text_field(r, "workspace"@, "server"@, "workspace"@, d.workspace);
    let store_path = text_field(r, "store_path"@, "server"@, "store_path"@, d.store_path);
    let git_author = text_field(r, "git_author"@, "server"@, "git_author"@, d.git_author);
    let git_email = text_field(r, "git_email"@, "server"@, "git_email"@, d.git_email);
    let config_file = text_field(r, "config_file"@, "server"@, "config_file"@, d.config_file);
    let log_level = text_field(r, "log_level"@, "server"@, "log_level"@, d.log_level);
    let dicfuse_readable = flag_field(r, "dicfuse_readable"@, "dicfuse"@, "readable"@, d.dicfuse_readable);
    let load_dir_depth = number_field(r, "load_dir_depth"@, "dicfuse"@, "load_dir_depth"@, d.load_dir_depth, usize::MAX as nat, "usize"@);
    let fetch_file_thread = number_field(r, "fetch_file_thread"@, "dicfuse"@, "fetch_file_thread"@, d.fetch_file_thread, usize::MAX as nat, "usize"@);
    let dicfuse_import_concurrency = number_field(r, "dicfuse_import_concurrency"@, "dicfuse"@, "import_concurrency"@, d.dicfuse_import_concurrency, usize::MAX as nat, "usize"@);
    let dicfuse_connect_timeout_secs = number_field(r, "dicfuse_connect_timeout_secs"@, "dicfuse"@, "connect_timeout_secs"@, d.dicfuse_connect_timeout_secs, u64::MAX as nat, "u64"@);
    let dicfuse_fetch_dir_timeout_secs = number_field(r, "dicfuse_fetch_dir_timeout_secs"@, "dicfuse"@, "fetch_dir_timeout_secs"@, d.dicfuse_fetch_dir_timeout_secs, u64::MAX as nat, "u64"@);
    let dicfuse_open_buff_max_files = number_field(r, "dicfuse_open_buff_max_files"@, "dicfuse"@, "open_buff_max_files"@, d.dicfuse_open_buff_max_files, usize::MAX as nat, "usize"@);
    let dicfuse_stat_mode = mode_field(r, "dicfuse_stat_mode"@, "dicfuse"@, "stat_mode"@, d.dicfuse_stat_mode);
    let antares_load_dir_depth = number_field(r, "antares_load_dir_depth"@, "antares"@, "load_dir_depth"@, d.antares_load_dir_depth, usize::MAX as nat, "usize"@);
    let antares_dicfuse_open_buff_max_files = number_field(r, "antares_dicfuse_open_buff_max_files"@, "antares"@, "open_buff_max_files"@, d.antares_dicfuse_open_buff_max_files, usize::MAX as nat, "usize"@);
    let antares_dicfuse_stat_mode = mode_field(r, "antares_dicfuse_stat_mode"@, "antares"@, "stat_mode"@, d.antares_dicfuse_stat_mode);
    let antares_upper_root = text_field(r, "antares_upper_root"@, "antares"@, "upper_root"@, d.antares_upper_root);
    let antares_cl_root = text_field(r, "antares_cl_root"@, "antares"@, "cl_root"@, d.antares_cl_root);
    let antares_mount_root = text_field(r, "antares_mount_root"@, "antares"@, "mount_root"@, d.antares_mount_root);
    let antares_state_file = text_field(r, "antares_state_file"@, "antares"@, "state_file"@, d.antares_state_file);
    let dicfuse_dir_sync_ttl_secs = number_field(r, "dicfuse_dir_sync_ttl_secs"@, "dicfuse"@, "dir_sync_ttl_secs"@, d.dicfuse_dir_sync_ttl_secs, u64::MAX as nat, "u64"@);
    let dicfuse_reply_ttl_secs = number_field(r, "dicfuse_reply_ttl_secs"@, "dicfuse"@, "reply_ttl_secs"@, d.dicfuse_reply_ttl_secs, u64::MAX as nat, "u64"@);
    let dicfuse_fetch_dir_max_retries = number_field(r, "dicfuse_fetch_dir_max_retries"@, "dicfuse"@, "fetch_dir_max_retries"@, d.dicfuse_fetch_dir_max_retries, u32::MAX as nat, "u32"@);
    let dicfuse_open_buff_max_bytes = number_field(r, "dicfuse_open_buff_max_bytes"@, "dicfuse"@, "open_buff_max_bytes"@, d.dicfuse_open_buff_max_bytes, u64::MAX as nat, "u64"@);
    let antares_dicfuse_dir_sync_ttl_secs = number_field(r, "antares_dicfuse_dir_sync_ttl_secs"@, "antares"@, "dir_sync_ttl_secs"@, d.antares_dicfuse_dir_sync_ttl_secs, u64::MAX as nat, "u64"@);
    let antares_dicfuse_reply_ttl_secs = number_field(r, "antares_dicfuse_reply_ttl_secs"@, "antares"@, "reply_ttl_secs"@, d.antares_dicfuse_reply_ttl_secs, u64::MAX as nat, "u64"@);
    let antares_dicfuse_open_buff_max_bytes = number_field(r, "antares_dicfuse_open_buff_max_bytes"@, "antares"@, "open_buff_max_bytes"@, d.antares_dicfuse_open_buff_max_bytes, u64::MAX as nat, "u64"@);
    let c = ConfigView {
        base_url: value_or(base_url, d.base_url),
        workspace: value_or(workspace, d.workspace),
        store_path: value_or(store_path, d.store_path),
        git_author: value_or(git_author, d.git_author),
        git_email: value_or(git_email, d.git_email),
        config_file: value_or(config_file, d.config_file),
        lfs_url: value_or(lfs_url, d.lfs_url),
        log_level: value_or(log_level, d.log_level),
        dicfuse_readable: value_or(dicfuse_readable, d.dicfuse_readable),
        load_dir_depth: value_or(load_dir_depth, d.load_dir_depth),
        fetch_file_thread: value_or(fetch_file_thread, d.fetch_file_thread),
        dicfuse_import_concurrency: value_or(dicfuse_import_concurrency, d.dicfuse_import_concurrency),
        dicfuse_dir_sync_ttl_secs: value_or(dicfuse_dir_sync_ttl_secs, d.dicfuse_dir_sync_ttl_secs),
        dicfuse_reply_ttl_secs: value_or(dicfuse_reply_ttl_secs, d.dicfuse_reply_ttl_secs),
        dicfuse_fetch_dir_timeout_secs: value_or(dicfuse_fetch_dir_timeout_secs, d.dicfuse_fetch_dir_timeout_secs),
        dicfuse_connect_timeout_secs: value_or(dicfuse_connect_timeout_secs, d.dicfuse_connect_timeout_secs),
        dicfuse_fetch_dir_max_retries: value_or(dicfuse_fetch_dir_max_retries, d.dicfuse_fetch_dir_max_retries),
        dicfuse_stat_mode: value_or(dicfuse_stat_mode, d.dicfuse_stat_mode),
        dicfuse_open_buff_max_bytes: value_or(dicfuse_open_buff_max_bytes, d.dicfuse_open_buff_max_bytes),
        dicfuse_open_buff_max_files: value_or(dicfuse_open_buff_max_files, d.dicfuse_open_buff_max_files),
        antares_load_dir_depth: value_or(antares_load_dir_depth, d.antares_load_dir_depth),
        antares_dicfuse_dir_sync_ttl_secs: value_or(antares_dicfuse_dir_sync_ttl_secs, d.antares_dicfuse_dir_sync_ttl_secs),
        antares_dicfuse_reply_ttl_secs: value_or(antares_dicfuse_reply_ttl_secs, d.antares_dicfuse_reply_ttl_secs),
        antares_dicfuse_stat_mode: value_or(antares_dicfuse_stat_mode, d.antares_dicfuse_stat_mode),
        antares_dicfuse_open_buff_max_bytes: value_or(antares_dicfuse_open_buff_max_bytes, d.antares_dicfuse_open_buff_max_bytes),
        antares_dicfuse_open_buff_max_files: value_or(antares_dicfuse_open_buff_max_files, d.antares_dicfuse_open_buff_max_files),
        antares_upper_root: value_or(antares_upper_root, d.antares_upper_root),
        antares_cl_root: value_or(antares_cl_root, d.antares_cl_root),
        antares_mount_root: value_or(antares_mount_root, d.antares_mount_root),
        antares_state_file: value_or(antares_state_file, d.antares_state_file),
    };
    Seq::<Seq<char>>::empty()
        + errs_of(base_url)
        + errs_of(lfs_url)
        + errs_of(workspace)
        + errs_of(store_path)
        + errs_of(git_author)
        + errs_of(git_email)
        + errs_of(config_file)
        + errs_of(log_level)
        + errs_of(dicfuse_readable)
        + errs_of(load_dir_depth)
        + errs_of(fetch_file_thread)
        + errs_of(dicfuse_import_concurrency)
        + errs_of(dicfuse_connect_timeout_secs)
        + errs_of(dicfuse_fetch_dir_timeout_secs)
        + errs_of(dicfuse_open_buff_max_files)
        + errs_of(dicfuse_stat_mode)
        + errs_of(antares_load_dir_depth)
        + errs_of(antares_dicfuse_open_buff_max_files)
        + errs_of(antares_dicfuse_stat_mode)
        + errs_of(antares_upper_root)
        + errs_of(antares_cl_root)
        + errs_of(antares_mount_root)
        + errs_of(antares_state_file)
        + errs_of(dicfuse_dir_sync_ttl_secs)
        + errs_of(dicfuse_reply_ttl_secs)
        + errs_of(dicfuse_fetch_dir_max_retries)
        + errs_of(dicfuse_open_buff_max_bytes)
        + errs_of(antares_dicfuse_dir_sync_ttl_secs)
        + errs_of(antares_dicfuse_reply_ttl_secs)
        + errs_of(antares_dicfuse_open_buff_max_bytes)
        + errs_of(url_check("base_url"@, c.base_url))
        + errs_of(url_check("lfs_url"@, c.lfs_url))
        + missing_messages(required_fields(c))
        + below_one_messages(positive_fields(c))
        + below_one_messages(timeout_fields_reported(c))
}

/// Resolves every field and returns all problems found.
#[verifier::rlimit(80)]
pub fn problems(r: &RawResolver, d: &ScorpioConfig) -> (errs: Vec<String>)
    ensures
        texts(errs@) == spec_problems(r@, d@),
{
    let mut errs: Vec<String> = Vec::new();
    assert(texts(errs@) =~= Seq::<Seq<char>>::empty());
    let base_url = collect_str(r, "base_url", "server", "base_url", d.base_url.as_str(), &mut errs);
    let lfs_url = collect_str(r, "lfs_url", "server", "lfs_url", d.lfs_url.as_str(), &mut errs);
    let workspace = collect_str(r, "workspace", "server", "workspace", d.workspace.as_str(), &mut errs);
    let store_path = collect_str(r, "store_path", "server", "store_path", d.store_path.as_str(), &mut errs);
    let git_author = collect_str(r, "git_author", "server", "git_author", d.git_author.as_str(), &mut errs);
    let git_email = collect_str(r, "git_email", "server", "git_email", d.git_email.as_str(), &mut errs);
    let config_file = collect_str(r, "config_file", "server", "config_file", d.config_file.as_str(), &mut errs);
    let log_level = collect_str(r, "log_level", "server", "log_level", d.log_level.as_str(), &mut errs);
    let dicfuse_readable = collect_bool(r, "dicfuse_readable", "dicfuse", "readable", d.dicfuse_readable, &mut errs);
    let load_dir_depth = collect_num(r, "load_dir_depth", "dicfuse", "load_dir_depth", d.load_dir_depth as u64, usize::MAX as u64, "usize", &mut errs) as usize;
    let fetch_file_thread = collect_num(r, "fetch_file_thread", "dicfuse", "fetch_file_thread", d.fetch_file_thread as u64, usize::MAX as u64, "usize", &mut errs) as usize;
    let dicfuse_import_concurrency = collect_num(r, "dicfuse_import_concurrency", "dicfuse", "import_concurrency", d.dicfuse_import_concurrency as u64, usize::MAX as u64, "usize", &mut errs) as usize;
    let dicfuse_connect_timeout_secs = collect_num(r, "dicfuse_connect_timeout_secs", "dicfuse", "connect_timeout_secs", d.dicfuse_connect_timeout_secs as u64, u64::MAX, "u64", &mut errs);
    let dicfuse_fetch_dir_timeout_secs = collect_num(r, "dicfuse_fetch_dir_timeout_secs", "dicfuse", "fetch_dir_timeout_secs", d.dicfuse_fetch_dir_timeout_secs as u64, u64::MAX, "u64", &mut errs);
    let dicfuse_open_buff_max_files = collect_num(r, "dicfuse_open_buff_max_files", "dicfuse", "open_buff_max_files", d.dicfuse_open_buff_max_files as u64, usize::MAX as u64, "usize", &mut errs) as usize;
    let dicfuse_stat_mode = collect_mode(r, "dicfuse_stat_mode", "dicfuse", "stat_mode", d.dicfuse_stat_mode, &mut errs);
    let antares_load_dir_depth = collect_num(r, "antares_load_dir_depth", "antares", "load_dir_depth", d.antares_load_dir_depth as u64, usize::MAX as u64, "usize", &mut errs) as usize;
    let antares_dicfuse_open_buff_max_files = collect_num(r, "antares_dicfuse_open_buff_max_files", "antares", "open_buff_max_files", d.antares_dicfuse_open_buff_max_files as u64, usize::MAX as u64, "usize", &mut errs) as usize;
    let antares_dicfuse_stat_mode = collect_mode(r, "antares_dicfuse_stat_mode", "antares", "stat_mode", d.antares_dicfuse_stat_mode, &mut errs);
    let antares_upper_root = collect_str(r, "antares_upper_root", "antares", "upper_root", d.antares_upper_root.as_str(), &mut errs);
    let antares_cl_root = collect_str(r, "antares_cl_root", "antares", "cl_root", d.antares_cl_root.as_str(), &mut errs);
    let antares_mount_root = collect_str(r, "antares_mount_root", "antares", "mount_root", d.antares_mount_root.as_str(), &mut errs);
    let antares_state_file = collect_str(r, "antares_state_file", "antares", "state_file", d.antares_state_file.as_str(), &mut errs);
    let dicfuse_dir_sync_ttl_secs = collect_num(r, "dicfuse_dir_sync_ttl_secs", "dicfuse", "dir_sync_ttl_secs", d.dicfuse_dir_sync_ttl_secs as u64, u64::MAX, "u64", &mut errs);
    let dicfuse_reply_ttl_secs = collect_num(r, "dicfuse_reply_ttl_secs", "dicfuse", "reply_ttl_secs", d.dicfuse_reply_ttl_secs as u64, u64::MAX, "u64", &mut errs);
    let dicfuse_fetch_dir_max_retries = collect_num(r, "dicfuse_fetch_dir_max_retries", "dicfuse", "fetch_dir_max_retries", d.dicfuse_fetch_dir_max_retries as u64, u32::MAX as u64, "u32", &mut errs) as u32;
    let dicfuse_open_buff_max_bytes = collect_num(r, "dicfuse_open_buff_max_bytes", "dicfuse", "open_buff_max_bytes", d.dicfuse_open_buff_max_bytes as u64, u64::MAX, "u64", &mut errs);
    let antares_dicfuse_dir_sync_ttl_secs = collect_num(r, "antares_dicfuse_dir_sync_ttl_secs", "antares", "dir_sync_ttl_secs", d.antares_dicfuse_dir_sync_ttl_secs as u64, u64::MAX, "u64", &mut errs);
    let antares_dicfuse_reply_ttl_secs = collect_num(r, "antares_dicfuse_reply_ttl_secs", "antares", "reply_ttl_secs", d.antares_dicfuse_reply_ttl_secs as u64, u64::MAX, "u64", &mut errs);
    let antares_dicfuse_open_buff_max_bytes = collect_num(r, "antares_dicfuse_open_buff_max_bytes", "antares", "open_buff_max_bytes", d.antares_dicfuse_open_buff_max_bytes as u64, u64::MAX, "u64", &mut errs);
    let c = ScorpioConfig {
        base_url,
        workspace,
        store_path,
        git_author,
        git_email,
        config_file,
        lfs_url,
        log_level,
        dicfuse_readable,
        load_dir_depth,
        fetch_file_thread,
        dicfuse_import_concurrency,
        dicfuse_dir_sync_ttl_secs,
        dicfuse_reply_ttl_secs,
        dicfuse_fetch_dir_timeout_secs,
        dicfuse_connect_timeout_secs,
        dicfuse_fetch_dir_max_retries,
        dicfuse_stat_mode,
        dicfuse_open_buff_max_bytes,
        dicfuse_open_buff_max_files,
        antares_load_dir_depth,
        antares_dicfuse_dir_sync_ttl_secs,
        antares_dicfuse_reply_ttl_secs,
        antares_dicfuse_stat_mode,
        antares_dicfuse_open_buff_max_bytes,
        antares_dicfuse_open_buff_max_files,
        antares_upper_root,
        antares_cl_root,
        antares_mount_root,
        antares_state_file,
    };
    match validate_url("base_url", c.base_url.as_str()) {
        Ok(()) => {},
        Err(e) => push_text(&mut errs, e),
    }
    match validate_url("lfs_url", c.lfs_url.as_str()) {
        Ok(()) => {},
        Err(e) => push_text(&mut errs, e),
    }
    let required = required_list(&c);
    push_missing(&required, &mut errs);
    let positive = positive_list(&c);
    push_below_one(&positive, &mut errs);
    let timeouts = vec![
        ("dicfuse_connect_timeout_secs", c.dicfuse_connect_timeout_secs),
        ("dicfuse_fetch_dir_timeout_secs", c.dicfuse_fetch_dir_timeout_secs),
    ];
    assert(count_pairs(timeouts@) =~= timeout_fields_reported(c@));
    push_below_one(&timeouts, &mut errs);
    proof {
        reveal(spec_problems);
    }
    errs
}

} // verus!

verus! {

// ---------------------------------------------------------------------------
// Reading the configuration.
// ---------------------------------------------------------------------------

pub fn base_url(cfg: &ScorpioConfig) -> (r: &str)
    ensures
        r@ == cfg.base_url@,
{
    cfg.base_url.as_str()
}

pub fn workspace(cfg: &ScorpioConfig) -> (r: &str)
    ensures
        r@ == cfg.workspace@,
{
    cfg.workspace.as_str()
}

pub fn store_path(cfg: &ScorpioConfig) -> (r: &str)
    ensures
        r@ == cfg.store_path@,
{
    cfg.store_path.as_str()
}

pub fn git_author(cfg: &ScorpioConfig) -> (r: &str)
    ensures
        r@ == cfg.git_author@,
{
    cfg.git_author.as_str()
}

pub fn git_email(cfg: &ScorpioConfig) -> (r: &str)
    ensures
        r@ == cfg.git_email@,
{
    cfg.git_email.as_str()
}

pub fn config_file(cfg: &ScorpioConfig) -> (r: &str)
    ensures
        r@ == cfg.config_file@,
{
    cfg.config_file.as_str()
}

pub fn lfs_url(cfg: &ScorpioConfig) -> (r: &str)
    ensures
        r@ == cfg.lfs_url@,
{
    cfg.lfs_url.as_str()
}

pub fn log_level(cfg: &ScorpioConfig) -> (r: &str)
    ensures
        r@ == cfg.log_level@,
{
    cfg.log_level.as_str()
}

pub fn dicfuse_readable(cfg: &ScorpioConfig) -> (r: bool)
    ensures
        r == cfg.dicfuse_readable,
{
    cfg.dicfuse_readable
}

pub fn load_dir_depth(cfg: &ScorpioConfig) -> (r: usize)
    ensures
        r == cfg.load_dir_depth,
{
    cfg.load_dir_depth
}

pub fn fetch_file_thread(cfg: &ScorpioConfig) -> (r: usize)
    ensures
        r == cfg.fetch_file_thread,
{
    cfg.fetch_file_thread
}

pub fn dicfuse_import_concurrency(cfg: &ScorpioConfig) -> (r: usize)
    ensures
        r == cfg.dicfuse_import_concurrency,
{
    cfg.dicfuse_import_concurrency
}

pub fn dicfuse_dir_sync_ttl_secs(cfg: &ScorpioConfig) -> (r: u64)
    ensures
        r == cfg.dicfuse_dir_sync_ttl_secs,
{
    cfg.dicfuse_dir_sync_ttl_secs
}

pub fn dicfuse_reply_ttl_secs(cfg: &ScorpioConfig) -> (r: u64)
    ensures
        r == cfg.dicfuse_reply_ttl_secs,
{
    cfg.dicfuse_reply_ttl_secs
}

pub fn dicfuse_fetch_dir_timeout_secs(cfg: &ScorpioConfig) -> (r: u64)
    ensures
        r == cfg.dicfuse_fetch_dir_timeout_secs,
{
    cfg.dicfuse_fetch_dir_timeout_secs
}

pub fn dicfuse_connect_timeout_secs(cfg: &ScorpioConfig) -> (r: u64)
    ensures
        r == cfg.dicfuse_connect_timeout_secs,
{
    cfg.dicfuse_connect_timeout_secs
}

pub fn dicfuse_fetch_dir_max_retries(cfg: &ScorpioConfig) -> (r: u32)
    ensures
        r == cfg.dicfuse_fetch_dir_max_retries,
{
    cfg.dicfuse_fetch_dir_max_retries
}

pub fn dicfuse_stat_mode(cfg: &ScorpioConfig) -> (r: DicfuseStatMode)
    ensures
        r == cfg.dicfuse_stat_mode,
{
    cfg.dicfuse_stat_mode
}

pub fn dicfuse_open_buff_max_bytes(cfg: &ScorpioConfig) -> (r: u64)
    ensures
        r == cfg.dicfuse_open_buff_max_bytes,
{
    cfg.dicfuse_open_buff_max_bytes
}

pub fn dicfuse_open_buff_max_files(cfg: &ScorpioConfig) -> (r: usize)
    ensures
        r == cfg.dicfuse_open_buff_max_files,
{
    cfg.dicfuse_open_buff_max_files
}

pub fn antares_load_dir_depth(cfg: &ScorpioConfig) -> (r: usize)
    ensures
        r == cfg.antares_load_dir_depth,
{
    cfg.antares_load_dir_depth
}

pub fn antares_dicfuse_dir_sync_ttl_secs(cfg: &ScorpioConfig) -> (r: u64)
    ensures
        r == cfg.antares_dicfuse_dir_sync_ttl_secs,
{
    cfg.antares_dicfuse_dir_sync_ttl_secs
}

pub fn antares_dicfuse_reply_ttl_secs(cfg: &ScorpioConfig) -> (r: u64)
    ensures
        r == cfg.antares_dicfuse_reply_ttl_secs,
{
    cfg.antares_dicfuse_reply_ttl_secs
}

pub fn antares_dicfuse_stat_mode(cfg: &ScorpioConfig) -> (r: DicfuseStatMode)
    ensures
        r == cfg.antares_dicfuse_stat_mode,
{
    cfg.antares_dicfuse_stat_mode
}

pub fn antares_dicfuse_open_buff_max_bytes(cfg: &ScorpioConfig) -> (r: u64)
    ensures
        r == cfg.antares_dicfuse_open_buff_max_bytes,
{
    cfg.antares_dicfuse_open_buff_max_bytes
}

pub fn antares_dicfuse_open_buff_max_files(cfg: &ScorpioConfig) -> (r: usize)
    ensures
        r == cfg.antares_dicfuse_open_buff_max_files,
{
    cfg.antares_dicfuse_open_buff_max_files
}

pub fn antares_upper_root(cfg: &ScorpioConfig) -> (r: &str)
    ensures
        r@ == cfg.antares_upper_root@,
{
    cfg.antares_upper_root.as_str()
}

pub fn antares_cl_root(cfg: &ScorpioConfig) -> (r: &str)
    ensures
        r@ == cfg.antares_cl_root@,
{
    cfg.antares_cl_root.as_str()
}

pub fn antares_mount_root(cfg: &ScorpioConfig) -> (r: &str)
    ensures
        r@ == cfg.antares_mount_root@,
{
    cfg.antares_mount_root.as_str()
}

pub fn antares_state_file(cfg: &ScorpioConfig) -> (r: &str)
    ensures
        r@ == cfg.antares_state_file@,
{
    cfg.antares_state_file.as_str()
}

pub open spec fn dump_line(name: Seq<char>, value: Seq<char>) -> Seq<char> {
    "    "@ + name + ": "@ + value + ",\n"@
}

pub open spec fn mode_name(m: DicfuseStatMode) -> Seq<char> {
    match m {
        DicfuseStatMode::Fast => "Fast"@,
        DicfuseStatMode::Accurate => "Accurate"@,
    }
}

pub open spec fn flag_name(b: bool) -> Seq<char> {
    if b {
        "true"@
    } else {
        "false"@
    }
}

/// The configuration as `{:#?}` renders it: one `name: value,` line per
/// field, texts quoted and escaped.
pub open spec fn dump_text(c: ConfigView) -> Seq<char> {
    "ScorpioConfig {\n"@
        + dump_line("base_url"@, debug_text(c.base_url))
        + dump_line("workspace"@, debug_text(c.workspace))
        + dump_line("store_path"@, debug_text(c.store_path))
        + dump_line("git_author"@, debug_text(c.git_author))
        + dump_line("git_email"@, debug_text(c.git_email))
        + dump_line("config_file"@, debug_text(c.config_file))
        + dump_line("lfs_url"@, debug_text(c.lfs_url))
        + dump_line("log_level"@, debug_text(c.log_level))
        + dump_line("dicfuse_readable"@, flag_name(c.dicfuse_readable))
        + dump_line("load_dir_depth"@, decimal(c.load_dir_depth))
        + dump_line("fetch_file_thread"@, decimal(c.fetch_file_thread))
        + dump_line("dicfuse_import_concurrency"@, decimal(c.dicfuse_import_concurrency))
        + dump_line("dicfuse_dir_sync_ttl_secs"@, decimal(c.dicfuse_dir_sync_ttl_secs))
        + dump_line("dicfuse_reply_ttl_secs"@, decimal(c.dicfuse_reply_ttl_secs))
        + dump_line("dicfuse_fetch_dir_timeout_secs"@, decimal(c.dicfuse_fetch_dir_timeout_secs))
        + dump_line("dicfuse_connect_timeout_secs"@, decimal(c.dicfuse_connect_timeout_secs))
        + dump_line("dicfuse_fetch_dir_max_retries"@, decimal(c.dicfuse_fetch_dir_max_retries))
        + dump_line("dicfuse_stat_mode"@, mode_name(c.dicfuse_stat_mode))
        + dump_line("dicfuse_open_buff_max_bytes"@, decimal(c.dicfuse_open_buff_max_bytes))
        + dump_line("dicfuse_open_buff_max_files"@, decimal(c.dicfuse_open_buff_max_files))
        + dump_line("antares_load_dir_depth"@, decimal(c.antares_load_dir_depth))
        + dump_line("antares_dicfuse_dir_sync_ttl_secs"@, decimal(c.antares_dicfuse_dir_sync_ttl_secs))
        + dump_line("antares_dicfuse_reply_ttl_secs"@, decimal(c.antares_dicfuse_reply_ttl_secs))
        + dump_line("antares_dicfuse_stat_mode"@, mode_name(c.antares_dicfuse_stat_mode))
        + dump_line("antares_dicfuse_open_buff_max_bytes"@, decimal(c.antares_dicfuse_open_buff_max_bytes))
        + dump_line("antares_dicfuse_open_buff_max_files"@, decimal(c.antares_dicfuse_open_buff_max_files))
        + dump_line("antares_upper_root"@, debug_text(c.antares_upper_root))
        + dump_line("antares_cl_root"@, debug_text(c.antares_cl_root))
        + dump_line("antares_mount_root"@, debug_text(c.antares_mount_root))
        + dump_line("antares_state_file"@, debug_text(c.antares_state_file))
        + "}"@
}

fn push_line(out: String, name: &str, value: &str) -> (r: String)
    ensures
        r@ == out@ + dump_line(name@, value@),
{
    let ghost before = out@;
    let r = cat(cat(cat(cat(cat(out, "    "), name), ": "), value), ",\n");
    assert(r@ =~= before + dump_line(name@, value@));
    r
}

fn mode_text(m: DicfuseStatMode) -> (r: &'static str)
    ensures
        r@ == mode_name(m),
{
    match m {
        DicfuseStatMode::Fast => "Fast",
        DicfuseStatMode::Accurate => "Accurate",
    }
}

fn flag_text(b: bool) -> (r: &'static str)
    ensures
        r@ == flag_name(b),
{
    if b {
        "true"
    } else {
        "false"
    }
}

/// Renders the effective configuration for `scorpio config show`. No field is
/// secret; paths are shown in full.
#[verifier::rlimit(50)]
pub fn effective_config_dump(cfg: &ScorpioConfig) -> (r: String)
    ensures
        r@ == dump_text(cfg@),
{
    let mut out = String::from_str("ScorpioConfig {\n");
    let v = debug_quote(cfg.base_url.as_str());
    out = push_line(out, "base_url", v.as_str());
    let v = debug_quote(cfg.workspace.as_str());
    out = push_line(out, "workspace", v.as_str());
    let v = debug_quote(cfg.store_path.as_str());
    out = push_line(out, "store_path", v.as_str());
    let v = debug_quote(cfg.git_author.as_str());
    out = push_line(out, "git_author", v.as_str());
    let v = debug_quote(cfg.git_email.as_str());
    out = push_line(out, "git_email", v.as_str());
    let v = debug_quote(cfg.config_file.as_str());
    out = push_line(out, "config_file", v.as_str());
    let v = debug_quote(cfg.lfs_url.as_str());
    out = push_line(out, "lfs_url", v.as_str());
    let v = debug_quote(cfg.log_level.as_str());
    out = push_line(out, "log_level", v.as_str());
    out = push_line(out, "dicfuse_readable", flag_text(cfg.dicfuse_readable));
    let v = u64_text(cfg.load_dir_depth as u64);
    out = push_line(out, "load_dir_depth", v.as_str());
    let v = u64_text(cfg.fetch_file_thread as u64);
    out = push_line(out, "fetch_file_thread", v.as_str());
    let v = u64_text(cfg.dicfuse_import_concurrency as u64);
    out = push_line(out, "dicfuse_import_concurrency", v.as_str());
    let v = u64_text(cfg.dicfuse_dir_sync_ttl_secs as u64);
    out = push_line(out, "dicfuse_dir_sync_ttl_secs", v.as_str());
    let v = u64_text(cfg.dicfuse_reply_ttl_secs as u64);
    out = push_line(out, "dicfuse_reply_ttl_secs", v.as_str());
    let v = u64_text(cfg.dicfuse_fetch_dir_timeout_secs as u64);
    out = push_line(out, "dicfuse_fetch_dir_timeout_secs", v.as_str());
    let v = u64_text(cfg.dicfuse_connect_timeout_secs as u64);
    out = push_line(out, "dicfuse_connect_timeout_secs", v.as_str());
    let v = u64_text(cfg.dicfuse_fetch_dir_max_retries as u64);
    out = push_line(out, "dicfuse_fetch_dir_max_retries", v.as_str());
    out = push_line(out, "dicfuse_stat_mode", mode_text(cfg.dicfuse_stat_mode));
    let v = u64_text(cfg.dicfuse_open_buff_max_bytes as u64);
    out = push_line(out, "dicfuse_open_buff_max_bytes", v.as_str());
    let v = u64_text(cfg.dicfuse_open_buff_max_files as u64);
    out = push_line(out, "dicfuse_open_buff_max_files", v.as_str());
    let v = u64_text(cfg.antares_load_dir_depth as u64);
    out = push_line(out, "antares_load_dir_depth", v.as_str());
    let v = u64_text(cfg.antares_dicfuse_dir_sync_ttl_secs as u64);
    out = push_line(out, "antares_dicfuse_dir_sync_ttl_secs", v.as_str());
    let v = u64_text(cfg.antares_dicfuse_reply_ttl_secs as u64);
    out = push_line(out, "antares_dicfuse_reply_ttl_secs", v.as_str());
    out = push_line(out, "antares_dicfuse_stat_mode", mode_text(cfg.antares_dicfuse_stat_mode));
    let v = u64_text(cfg.antares_dicfuse_open_buff_max_bytes as u64);
    out = push_line(out, "antares_dicfuse_open_buff_max_bytes", v.as_str());
    let v = u64_text(cfg.antares_dicfuse_open_buff_max_files as u64);
    out = push_line(out, "antares_dicfuse_open_buff_max_files", v.as_str());
    let v = debug_quote(cfg.antares_upper_root.as_str());
    out = push_line(out, "antares_upper_root", v.as_str());
    let v = debug_quote(cfg.antares_cl_root.as_str());
    out = push_line(out, "antares_cl_root", v.as_str());
    let v = debug_quote(cfg.antares_mount_root.as_str());
    out = push_line(out, "antares_mount_root", v.as_str());
    let v = debug_quote(cfg.antares_state_file.as_str());
    out = push_line(out, "antares_state_file", v.as_str());
    cat(out, "}")
}

} // verus!

verus! {

pub fn file_blob_endpoint(cfg: &ScorpioConfig) -> (r: String)
    ensures
        r@ == cfg.base_url@ + "/api/v1/file/blob"@,
{
    cat(cfg.base_url.clone(), "/api/v1/file/blob")
}

pub fn tree_file_endpoint(cfg: &ScorpioConfig) -> (r: String)
    ensures
        r@ == cfg.base_url@ + "/api/v1/file/tree?path=/"@,
{
    cat(cfg.base_url.clone(), "/api/v1/file/tree?path=/")
}

// ---------------------------------------------------------------------------
// Loading a config file.
// ---------------------------------------------------------------------------

pub open spec fn format_message(path: Seq<char>, e: Seq<char>) -> Seq<char> {
    "Invalid config format in '"@ + path + "': "@ + e
}

/// The configuration a config file's text yields, over the defaults `d`.
pub open spec fn spec_load(path: Seq<char>, content: Seq<char>, cli: Entries, env: Entries, d: ConfigView) -> Result<ConfigView, Seq<char>> {
    match toml_document(content) {
        Err(e) => Err(format_message(path, e)),
        Ok(file) => spec_build(ResolverView { file, cli, env }, d),
    }
}

/// Parses the text of the config file at `path` and resolves the
/// configuration from it, the overrides and the defaults `d`.
pub fn load_config_with(path: &str, content: &str, cli: Overrides, env: Overrides, d: &ScorpioConfig) -> (r: Result<ScorpioConfig, String>)
    ensures
        config_result_view(r) == spec_load(path@, content@, cli@, env@, d@),
{
    let file = match parse_toml_table(content) {
        Ok(t) => t,
        Err(e) => {
            return Err(cat(cat(cat(String::from_str("Invalid config format in '"), path), "': "), e.as_str()));
        },
    };
    let r = RawResolver::new(file, cli, env);
    build_config_with(&r, d)
}

/// Like [`load_config_with`], over the built-in defaults of the user running
/// the process.
pub fn load_config(path: &str, content: &str, cli: Overrides, env: Overrides) -> (r: Result<ScorpioConfig, String>)
    ensures
        exists|u: Seq<char>| config_result_view(r) == spec_load(path@, content@, cli@, env@, spec_defaults(u)),
{
    let d = defaults();
    load_config_with(path, content, cli, env, &d)
}

/// A configuration that loads has passed start-up validation.
pub proof fn lemma_loaded_is_valid(path: Seq<char>, content: Seq<char>, cli: Entries, env: Entries, d: ConfigView)
    ensures
        spec_load(path, content, cli, env, d) matches Ok(c) ==> spec_validate(c) is Ok,
{
}

/// A configuration loaded from a config file, which has therefore passed
/// start-up validation.
pub struct LoadedConfig {
    cfg: ScorpioConfig,
}

impl View for LoadedConfig {
    type V = ConfigView;

    closed spec fn view(&self) -> ConfigView {
        self.cfg@
    }
}

impl LoadedConfig {
    #[verifier::type_invariant]
    spec fn passed_validation(self) -> bool {
        spec_validate(self.cfg@) is Ok
    }

    /// The loaded configuration.
    pub fn config(&self) -> (c: &ScorpioConfig)
        ensures
            c@ == self@,
            spec_validate(c@) is Ok,
    {
        proof {
            use_type_invariant(self);
        }
        &self.cfg
    }
}

/// Every problem of a config file's text, as `config validate` reports it.
pub open spec fn spec_check_file(path: Seq<char>, content: Seq<char>, cli: Entries, env: Entries, d: ConfigView) -> Seq<Seq<char>> {
    match toml_document(content) {
        Err(e) => seq![format_message(path, e)],
        Ok(file) => spec_problems(ResolverView { file, cli, env }, d),
    }
}

pub open spec fn report_view(r: Result<(), Vec<String>>) -> Seq<Seq<char>> {
    match r {
        Ok(()) => Seq::empty(),
        Err(v) => texts(v@),
    }
}

/// Every problem of a config file as `config validate` reports it, given its
/// text or why it could not be read.
pub open spec fn spec_check_read(path: Seq<char>, content: Result<Seq<char>, Seq<char>>, cli: Entries, env: Entries, d: ConfigView) -> Seq<Seq<char>> {
    match content {
        Err(e) => seq![read_message(path, e)],
        Ok(text) => spec_check_file(path, text, cli, env, d),
    }
}

/// Validates a config file offline, over the defaults `d`, returning all
/// problems found; `Ok` exactly when there are none. `content` is the
/// file's text, or why it could not be read, which is then the one problem.
pub fn validate_file_with(path: &str, content: Result<String, String>, cli: Overrides, env: Overrides, d: &ScorpioConfig) -> (r: Result<(), Vec<String>>)
    ensures
        report_view(r) == spec_check_read(path@, text_result_view(content), cli@, env@, d@),
        r is Err ==> report_view(r).len() > 0,
{
    let text = match content {
        Ok(t) => t,
        Err(e) => {
            let mut v = Vec::new();
            push_text(&mut v, cat(cat(cat(String::from_str("Config file not found at '"), path), "': "), e.as_str()));
            assert(texts(v@) =~= seq![read_message(path@, e@)]);
            return Err(v);
        },
    };
    let file = match parse_toml_table(text.as_str()) {
        Ok(t) => t,
        Err(e) => {
            let mut v = Vec::new();
            push_text(&mut v, cat(cat(cat(String::from_str("Invalid config format in '"), path), "': "), e.as_str()));
            assert(texts(v@) =~= seq![format_message(path@, e@)]);
            return Err(v);
        },
    };
    let r = RawResolver::new(file, cli, env);
    let errs = problems(&r, d);
    if errs.len() == 0 {
        assert(texts(errs@) =~= Seq::<Seq<char>>::empty());
        Ok(())
    } else {
        Err(errs)
    }
}

/// Like [`validate_file_with`], over the built-in defaults of the user
/// running the process.
pub fn validate_file(path: &str, content: Result<String, String>, cli: Overrides, env: Overrides) -> (r: Result<(), Vec<String>>)
    ensures
        exists|u: Seq<char>| report_view(r) == #[trigger] spec_check_read(path@, text_result_view(content), cli@, env@, spec_defaults(u)),
        r is Err ==> report_view(r).len() > 0,
{
    let d = defaults();
    validate_file_with(path, content, cli, env, &d)
}

// ---------------------------------------------------------------------------
// The process-wide configuration.
// ---------------------------------------------------------------------------

/// The process-wide configuration: the explicit one installed by
/// `init_config`, and the built-in defaults used by reads that come before
/// it. The two are kept apart so that an early read never blocks a later
/// `init_config`, and a read after it always sees the explicit values.
pub struct ConfigStore {
    explicit: Option<ScorpioConfig>,
    fallback: Option<ScorpioConfig>,
}

pub struct StoreView {
    pub explicit: Option<ConfigView>,
    pub fallback: Option<ConfigView>,
}

pub open spec fn opt_config_view(c: Option<ScorpioConfig>) -> Option<ConfigView> {
    match c {
        Some(c) => Some(c@),
        None => None,
    }
}

/// The configuration reads see: the explicit one when installed, else the
/// fallback defaults, if they have been built.
pub open spec fn visible(s: StoreView) -> Option<ConfigView> {
    if s.explicit is Some {
        s.explicit
    } else {
        s.fallback
    }
}

pub open spec fn already_initialized_message() -> Seq<char> {
    "Configuration already initialized"@
}

/// Installing `c`: refused, with the store unchanged, when a configuration
/// is already installed.
pub open spec fn install_outcome(s: StoreView, c: ConfigView) -> (StoreView, Result<(), Seq<char>>) {
    if s.explicit is Some {
        (s, Err(already_initialized_message()))
    } else {
        (StoreView { explicit: Some(c), fallback: s.fallback }, Ok(()))
    }
}

/// Building the fallback from `d`: only when nothing is installed and no
/// fallback exists yet.
pub open spec fn fallback_outcome(s: StoreView, d: ConfigView) -> StoreView {
    if s.explicit is None && s.fallback is None {
        StoreView { explicit: None, fallback: Some(d) }
    } else {
        s
    }
}

impl View for ConfigStore {
    type V = StoreView;

    closed spec fn view(&self) -> StoreView {
        StoreView { explicit: opt_config_view(self.explicit), fallback: opt_config_view(self.fallback) }
    }
}

/// The explicit configuration, when installed, passed start-up validation.
pub open spec fn installed_valid(s: StoreView) -> bool {
    s.explicit matches Some(c) ==> spec_validate(c) is Ok
}

impl ConfigStore {
    #[verifier::type_invariant]
    spec fn explicit_passed_validation(self) -> bool {
        match self.explicit {
            Some(c) => spec_validate(c@) is Ok,
            None => true,
        }
    }

    /// Nothing installed, no defaults built.
    pub fn new() -> (s: Self)
        ensures
            s@ == (StoreView { explicit: None, fallback: None }),
    {
        ConfigStore { explicit: None, fallback: None }
    }

    /// Whether `init_config` has succeeded.
    pub fn is_initialized(&self) -> (b: bool)
        ensures
            b == (self@.explicit is Some),
            installed_valid(self@),
    {
        proof {
            use_type_invariant(self);
        }
        self.explicit.is_some()
    }

    /// Installs a loaded configuration as the explicit one; refused when
    /// one is installed.
    pub fn install(&mut self, loaded: LoadedConfig) -> (r: Result<(), String>)
        ensures
            (final(self)@, unit_result_view(r)) == install_outcome(old(self)@, loaded@),
            installed_valid(final(self)@),
    {
        proof {
            use_type_invariant(&*self);
            use_type_invariant(&loaded);
        }
        if self.explicit.is_some() {
            return Err(String::from_str("Configuration already initialized"));
        }
        let LoadedConfig { cfg } = loaded;
        self.explicit = Some(cfg);
        Ok(())
    }

    /// Keeps `defaults` as the fallback, unless a configuration is installed
    /// or the fallback was already built.
    pub fn ensure_fallback(&mut self, defaults: ScorpioConfig)
        ensures
            final(self)@ == fallback_outcome(old(self)@, defaults@),
            visible(final(self)@) is Some,
            installed_valid(final(self)@),
    {
        proof {
            use_type_invariant(&*self);
        }
        if self.explicit.is_none() && self.fallback.is_none() {
            self.fallback = Some(defaults);
        }
    }

    /// The configuration reads see.
    pub fn current(&self) -> (c: Option<&ScorpioConfig>)
        ensures
            match (c, visible(self@)) {
                (Some(c), Some(v)) => c@ == v,
                (None, None) => true,
                _ => false,
            },
            installed_valid(self@),
    {
        proof {
            use_type_invariant(self);
        }
        match &self.explicit {
            Some(c) => Some(c),
            None => match &self.fallback {
                Some(c) => Some(c),
                None => None,
            },
        }
    }
}

/// Initializing from a load outcome: refused when already initialized (before
/// the file is even looked at), a load error is reported with the store
/// unchanged, and a loaded configuration is installed.
pub open spec fn init_outcome(s: StoreView, loaded: Result<ConfigView, Seq<char>>) -> (StoreView, Result<(), Seq<char>>) {
    if s.explicit is Some {
        (s, Err(already_initialized_message()))
    } else {
        match loaded {
            Ok(c) => install_outcome(s, c),
            Err(e) => (s, Err(e)),
        }
    }
}

/// The first step of initialization: refused, before the config file is
/// read, when a configuration is already installed.
pub fn start_init(store: &ConfigStore) -> (r: Result<(), String>)
    ensures
        r is Ok <==> store@.explicit is None,
        r matches Err(e) ==> e@ == already_initialized_message(),
{
    if store.is_initialized() {
        Err(String::from_str("Configuration already initialized"))
    } else {
        Ok(())
    }
}

pub open spec fn read_message(path: Seq<char>, e: Seq<char>) -> Seq<char> {
    "Config file not found at '"@ + path + "': "@ + e
}

/// What loading gives once the config file has been read (`content` is its
/// text, or why it could not be read): refused when already initialized,
/// else the loaded configuration or the first problem.
pub open spec fn begin_outcome(
    s: StoreView,
    path: Seq<char>,
    content: Result<Seq<char>, Seq<char>>,
    cli: Entries,
    env: Entries,
    d: ConfigView,
) -> Result<ConfigView, Seq<char>> {
    if s.explicit is Some {
        Err(already_initialized_message())
    } else {
        match content {
            Err(e) => Err(read_message(path, e)),
            Ok(text) => spec_load(path, text, cli, env, d),
        }
    }
}

pub open spec fn loaded_view(r: Result<LoadedConfig, String>) -> Result<ConfigView, Seq<char>> {
    match r {
        Ok(l) => Ok(l@),
        Err(e) => Err(e@),
    }
}

/// The second step of initialization, over the defaults `d`: loads the
/// configuration from the config file's text. Nothing is installed yet: the
/// runtime directories are prepared from the result first.
pub fn begin_init_with_defaults(
    store: &ConfigStore,
    path: &str,
    content: Result<String, String>,
    cli: Overrides,
    env: Overrides,
    d: &ScorpioConfig,
) -> (r: Result<LoadedConfig, String>)
    ensures
        loaded_view(r) == begin_outcome(store@, path@, text_result_view(content), cli@, env@, d@),
{
    if store.is_initialized() {
        return Err(String::from_str("Configuration already initialized"));
    }
    let text = match content {
        Ok(t) => t,
        Err(e) => {
            return Err(cat(cat(cat(String::from_str("Config file not found at '"), path), "': "), e.as_str()));
        },
    };
    match load_config_with(path, text.as_str(), cli, env, d) {
        Ok(cfg) => {
            proof {
                lemma_loaded_is_valid(path@, text@, cli@, env@, d@);
            }
            Ok(LoadedConfig { cfg })
        },
        Err(e) => Err(e),
    }
}

/// Like [`begin_init_with_defaults`], over the built-in defaults of the
/// user running the process.
pub fn begin_init(store: &ConfigStore, path: &str, content: Result<String, String>, cli: Overrides, env: Overrides) -> (r: Result<LoadedConfig, String>)
    ensures
        exists|u: Seq<char>| loaded_view(r) == #[trigger] begin_outcome(store@, path@, text_result_view(content), cli@, env@, spec_defaults(u)),
{
    let d = defaults();
    begin_init_with_defaults(store, path, content, cli, env, &d)
}

/// The last step of initialization, given how preparing the runtime
/// directories went: a failure is reported with the store unchanged,
/// otherwise the loaded configuration is installed.
pub open spec fn finish_outcome(s: StoreView, c: ConfigView, dirs: Result<(), Seq<char>>) -> (StoreView, Result<(), Seq<char>>) {
    match dirs {
        Err(e) => (s, Err(e)),
        Ok(()) => install_outcome(s, c),
    }
}

pub fn finish_init(store: &mut ConfigStore, loaded: LoadedConfig, dirs: Result<(), String>) -> (r: Result<(), String>)
    ensures
        (final(store)@, unit_result_view(r)) == finish_outcome(old(store)@, loaded@, unit_result_view(dirs)),
        installed_valid(final(store)@),
{
    proof {
        use_type_invariant(&*store);
    }
    match dirs {
        Err(e) => Err(e),
        Ok(()) => store.install(loaded),
    }
}

/// Initializes the process-wide configuration from a config file's text,
/// applying the overrides, over the defaults `d`: refused when already
/// initialized, otherwise the loaded configuration is installed.
pub fn init_config_with_defaults(store: &mut ConfigStore, path: &str, content: &str, cli: Overrides, env: Overrides, d: &ScorpioConfig) -> (r: Result<(), String>)
    ensures
        (final(store)@, unit_result_view(r)) == init_outcome(old(store)@, spec_load(path@, content@, cli@, env@, d@)),
        installed_valid(final(store)@),
{
    let loaded = match begin_init_with_defaults(store, path, Ok(String::from_str(content)), cli, env, d) {
        Ok(l) => l,
        Err(e) => {
            proof {
                use_type_invariant(&*store);
            }
            return Err(e);
        },
    };
    finish_init(store, loaded, Ok(()))
}

/// What initializing does, whichever defaults the configuration was loaded
/// over: it is refused when a configuration is installed; on success the
/// loaded configuration is installed, the fallback defaults are kept, and
/// reads see the loaded configuration; on failure nothing changes.
pub open spec fn init_effect(s: StoreView, t: StoreView, r: Result<(), Seq<char>>) -> bool {
    &&& s.explicit is Some ==> r == Err::<(), Seq<char>>(already_initialized_message())
    &&& r is Ok ==> s.explicit is None && t.explicit is Some && t.fallback == s.fallback && visible(t) == t.explicit
    &&& r is Err ==> t == s
}

/// Initializes the process-wide configuration, applying command-line
/// overrides; precedence is `CLI > SCORPIO_* env > config file > defaults`.
pub fn init_config_with(store: &mut ConfigStore, path: &str, content: &str, cli: Overrides, env: Overrides) -> (r: Result<(), String>)
    ensures
        exists|u: Seq<char>|
            (final(store)@, unit_result_view(r)) == init_outcome(old(store)@, #[trigger] spec_load(path@, content@, cli@, env@, spec_defaults(u))),
        init_effect(old(store)@, final(store)@, unit_result_view(r)),
        installed_valid(final(store)@),
{
    let d = defaults();
    init_config_with_defaults(store, path, content, cli, env, &d)
}

/// Initializes the process-wide configuration with no command-line
/// overrides; `SCORPIO_*` environment variables still apply.
pub fn init_config(store: &mut ConfigStore, path: &str, content: &str, env: Overrides) -> (r: Result<(), String>)
    ensures
        exists|u: Seq<char>|
            (final(store)@, unit_result_view(r)) == init_outcome(old(store)@, #[trigger] spec_load(path@, content@, Seq::empty(), env@, spec_defaults(u))),
        init_effect(old(store)@, final(store)@, unit_result_view(r)),
        installed_valid(final(store)@),
{
    init_config_with(store, path, content, Overrides::new(), env)
}

} // verus!
