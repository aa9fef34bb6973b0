//! Configuration loading: the settings codec boundary and the rules that turn
//! a preset document into an effect configuration.
//!
//! The preset file is a JSON object. The member `use_field`, when present,
//! holds an integer code selecting the field mode; when absent, the field
//! mode defaults to alternating. Anything else is a configuration error.

use vstd::prelude::*;

use crate::error::ConfigError;
use crate::field::FieldMode;

verus! {

/// Whether the settings codec accepts `text` as a well-formed JSON document.
pub uninterp spec fn json_parses(text: Seq<char>) -> bool;

/// Whether the codec accepts `text` and the document's top level is a JSON
/// object; false on rejected text.
pub uninterp spec fn preset_top_object(text: Seq<char>) -> bool;

/// What the codec reads for the `use_field` member of `text`: None when the
/// member is absent (or the text is rejected), Some(None) when it is present
/// but not an unsigned integer, Some(Some(c)) for the integer code `c`.
pub uninterp spec fn preset_use_field(text: Seq<char>) -> Option<Option<u64>>;

/// Relies on serde_json::from_str::<Value>, Value::is_object, Value::get and
/// Value::as_u64: whether the text parses, whether its top level is an
/// object, and what its `use_field` member holds, all functions of the text
/// alone.
#[verifier::external_body]
fn probe_preset(text: &str) -> (r: (bool, bool, Option<Option<u64>>))
    ensures
        r.0 == json_parses(text@),
        r.1 == preset_top_object(text@),
        r.2 == preset_use_field(text@),
{
    match serde_json::from_str::<serde_json::Value>(text) {
        Err(_) => (false, false, None),
        Ok(v) => {
            let member = match v.get("use_field") {
                None => None,
                Some(m) => Some(m.as_u64()),
            };
            (true, v.is_object(), member)
        },
    }
}

/// The loaded effect configuration: the plain settings the frame pipeline
/// reads. It is immutable once loaded and owned by one plugin instance.
#[derive(Clone, Copy, PartialEq, Eq, Structural, Debug)]
pub struct EffectConfig {
    /// Which scan-line parity the effect samples, per frame.
    pub field_mode: FieldMode,
}

/// The field mode named by an integer code in the preset document.
pub open spec fn spec_field_mode_of(code: u64) -> Option<FieldMode> {
    if code == 0 {
        Some(FieldMode::Alternating)
    } else if code == 1 {
        Some(FieldMode::Upper)
    } else if code == 2 {
        Some(FieldMode::Lower)
    } else if code == 3 {
        Some(FieldMode::Both)
    } else if code == 4 {
        Some(FieldMode::InterleavedUpper)
    } else if code == 5 {
        Some(FieldMode::InterleavedLower)
    } else {
        None
    }
}

/// Decodes the `use_field` integer code of a preset document.
pub fn field_mode_of(code: u64) -> (r: Option<FieldMode>)
    ensures
        r == spec_field_mode_of(code),
{
    if code == 0 {
        Some(FieldMode::Alternating)
    } else if code == 1 {
        Some(FieldMode::Upper)
    } else if code == 2 {
        Some(FieldMode::Lower)
    } else if code == 3 {
        Some(FieldMode::Both)
    } else if code == 4 {
        Some(FieldMode::InterleavedUpper)
    } else if code == 5 {
        Some(FieldMode::InterleavedLower)
    } else {
        None
    }
}

/// What `load_config` returns for each shape the codec can report: whether
/// the text parsed, whether the top level is an object, and what the
/// `use_field` member holds (`None` for an absent member, `Some(None)` for a
/// member that is not an unsigned integer).
pub open spec fn spec_config_decision(
    parsed: bool,
    object: bool,
    member: Option<Option<u64>>,
) -> Result<EffectConfig, ConfigError> {
    if !parsed || !object {
        Err(ConfigError::ConfigParseError)
    } else {
        match member {
            None => Ok(EffectConfig { field_mode: FieldMode::Alternating }),
            Some(code) => match code {
                None => Err(ConfigError::ConfigParseError),
                Some(c) => match spec_field_mode_of(c) {
                    Some(m) => Ok(EffectConfig { field_mode: m }),
                    None => Err(ConfigError::ConfigParseError),
                },
            },
        }
    }
}

/// Turns what the codec reported into a configuration or a parse error.
/// This is the whole of the loading rule on plain values, so it is exact for
/// every input, whatever the codec did.
pub fn config_decision(parsed: bool, object: bool, member: Option<Option<u64>>) -> (r: Result<
    EffectConfig,
    ConfigError,
>)
    ensures
        r == spec_config_decision(parsed, object, member),
{
    if !parsed || !object {
        Err(ConfigError::ConfigParseError)
    } else {
        match member {
            None => Ok(EffectConfig { field_mode: FieldMode::Alternating }),
            Some(code) => match code {
                None => Err(ConfigError::ConfigParseError),
                Some(c) => match field_mode_of(c) {
                    Some(m) => Ok(EffectConfig { field_mode: m }),
                    None => Err(ConfigError::ConfigParseError),
                },
            },
        }
    }
}

/// Loads an effect configuration from the text of a preset file: exactly
/// the loading rule of `config_decision`, applied to the codec's outcome on
/// this text. Text the codec accepts as an object with a well-formed (or
/// absent) `use_field` member is owed a configuration; everything else is a
/// parse error.
pub fn load_config(text: &str) -> (r: Result<EffectConfig, ConfigError>)
    ensures
        r == spec_config_decision(
            json_parses(text@),
            preset_top_object(text@),
            preset_use_field(text@),
        ),
{
    let (parsed, object, member) = probe_preset(text);
    config_decision(parsed, object, member)
}

} // verus!
