//! Settings: the record that is kept between runs, its on-disk form, and the
//! state of the settings subview.
use vstd::prelude::*;

use crate::progress::OverHelperApp;
use crate::seasons::{
    target_kind, BattlePassTargets, MYTHIC_BATTLE_PASS_END, PRESTIGE_BATTLE_PASS_END,
};

verus! {

/// Most wins that a role counter holds.
pub const MAX_ROLE_WINS: u8 = 3;

/// The colour schemes the interface offers.
#[derive(Debug, Clone, Copy, PartialEq, Eq, Structural)]
pub enum SupportedThemes {
    Dark,
    Light,
}

impl SupportedThemes {
    /// The name shown for the theme.
    pub fn label(self) -> (r: &'static str)
        ensures
            self == SupportedThemes::Dark ==> r@ == "Dark"@,
            self == SupportedThemes::Light ==> r@ == "Light"@,
    {
        match self {
            SupportedThemes::Dark => "Dark",
            SupportedThemes::Light => "Light",
        }
    }
}

/// Everything that the tracker keeps between runs.
#[derive(Debug, Clone, Copy, PartialEq, Eq, Structural)]
pub struct OverHelperSettings {
    pub battle_pass_level: u8,
    pub battle_pass_target: u8,
    pub tank_wins: u8,
    pub damage_wins: u8,
    pub support_wins: u8,
    pub theme: SupportedThemes,
}

/// Level 0, the prestige target, no wins, dark theme.
pub open spec fn default_settings() -> OverHelperSettings {
    OverHelperSettings {
        battle_pass_level: 0,
        battle_pass_target: PRESTIGE_BATTLE_PASS_END,
        tank_wins: 0,
        damage_wins: 0,
        support_wins: 0,
        theme: SupportedThemes::Dark,
    }
}

impl Default for OverHelperSettings {
    fn default() -> (r: OverHelperSettings)
        ensures
            r == default_settings(),
    {
        OverHelperSettings {
            battle_pass_level: 0,
            battle_pass_target: PRESTIGE_BATTLE_PASS_END,
            tank_wins: 0,
            damage_wins: 0,
            support_wins: 0,
            theme: SupportedThemes::Dark,
        }
    }
}

/// The running state that stored settings start, with no subview open.
pub fn settings_to_appstate(settings: &OverHelperSettings) -> (r: OverHelperApp)
    ensures
        r == (OverHelperApp {
            battle_pass_level: settings.battle_pass_level,
            battle_pass_target: settings.battle_pass_target,
            tank_wins: settings.tank_wins,
            damage_wins: settings.damage_wins,
            support_wins: settings.support_wins,
            theme: settings.theme,
            settings_page: None,
        }),
{
    OverHelperApp {
        battle_pass_level: settings.battle_pass_level,
        battle_pass_target: settings.battle_pass_target,
        tank_wins: settings.tank_wins,
        damage_wins: settings.damage_wins,
        support_wins: settings.support_wins,
        theme: settings.theme,
        settings_page: None,
    }
}

/// The settings that a running state stores.
pub open spec fn settings_of_appstate(appstate: OverHelperApp) -> OverHelperSettings {
    OverHelperSettings {
        battle_pass_level: appstate.battle_pass_level,
        battle_pass_target: appstate.battle_pass_target,
        tank_wins: appstate.tank_wins,
        damage_wins: appstate.damage_wins,
        support_wins: appstate.support_wins,
        theme: appstate.theme,
    }
}

/// The settings to store for a running state.
pub fn appstate_to_settings(appstate: &OverHelperApp) -> (r: OverHelperSettings)
    ensures
        r == settings_of_appstate(*appstate),
{
    OverHelperSettings {
        battle_pass_level: appstate.battle_pass_level,
        battle_pass_target: appstate.battle_pass_target,
        tank_wins: appstate.tank_wins,
        damage_wins: appstate.damage_wins,
        support_wins: appstate.support_wins,
        theme: appstate.theme,
    }
}

/// How the settings file writes a target: the tag of a preset, or a level.
#[derive(Debug, Clone, Copy, PartialEq, Eq, Structural)]
pub enum TargetField {
    Prestige,
    Mythic,
    Level(u8),
}

/// A preset end level is written as its tag, any other target as a level.
pub open spec fn target_field_of(target: u8) -> TargetField {
    if target == PRESTIGE_BATTLE_PASS_END {
        TargetField::Prestige
    } else if target == MYTHIC_BATTLE_PASS_END {
        TargetField::Mythic
    } else {
        TargetField::Level(target)
    }
}

/// The target level that a written target stands for.
pub open spec fn target_of_field(field: TargetField) -> u8 {
    match field {
        TargetField::Prestige => PRESTIGE_BATTLE_PASS_END,
        TargetField::Mythic => MYTHIC_BATTLE_PASS_END,
        TargetField::Level(n) => n,
    }
}

/// How a target level is written to the settings file.
pub fn encode_target(target: u8) -> (r: TargetField)
    ensures
        r == target_field_of(target),
{
    if target == PRESTIGE_BATTLE_PASS_END {
        TargetField::Prestige
    } else if target == MYTHIC_BATTLE_PASS_END {
        TargetField::Mythic
    } else {
        TargetField::Level(target)
    }
}

/// The target level that a written target stands for.
pub fn decode_target(field: TargetField) -> (r: u8)
    ensures
        r == target_of_field(field),
{
    match field {
        TargetField::Prestige => PRESTIGE_BATTLE_PASS_END,
        TargetField::Mythic => MYTHIC_BATTLE_PASS_END,
        TargetField::Level(n) => n,
    }
}

/// Every target level comes back unchanged from its written form.
pub proof fn lemma_target_round_trip(target: u8)
    ensures
        target_of_field(target_field_of(target)) == target,
{
}

/// The settings as the file holds them. The theme is not part of the file.
#[derive(Debug, Clone, Copy, PartialEq, Eq, Structural)]
pub struct SettingsDocument {
    pub level: u8,
    pub target: TargetField,
    pub tank: u8,
    pub damage: u8,
    pub support: u8,
}

/// The file form of a settings record: everything but the theme.
pub open spec fn document_of_settings(settings: OverHelperSettings) -> SettingsDocument {
    SettingsDocument {
        level: settings.battle_pass_level,
        target: target_field_of(settings.battle_pass_target),
        tank: settings.tank_wins,
        damage: settings.damage_wins,
        support: settings.support_wins,
    }
}

/// The settings that a file stands for; the theme is the default one.
pub open spec fn settings_of_document(document: SettingsDocument) -> OverHelperSettings {
    OverHelperSettings {
        battle_pass_level: document.level,
        battle_pass_target: target_of_field(document.target),
        tank_wins: document.tank,
        damage_wins: document.damage,
        support_wins: document.support,
        theme: SupportedThemes::Dark,
    }
}

/// The file form of a settings record.
pub fn settings_to_document(settings: &OverHelperSettings) -> (r: SettingsDocument)
    ensures
        r == document_of_settings(*settings),
{
    SettingsDocument {
        level: settings.battle_pass_level,
        target: encode_target(settings.battle_pass_target),
        tank: settings.tank_wins,
        damage: settings.damage_wins,
        support: settings.support_wins,
    }
}

/// The settings record that a file stands for, with the default theme.
pub fn document_to_settings(document: &SettingsDocument) -> (r: OverHelperSettings)
    ensures
        r == settings_of_document(*document),
{
    OverHelperSettings {
        battle_pass_level: document.level,
        battle_pass_target: decode_target(document.target),
        tank_wins: document.tank,
        damage_wins: document.damage,
        support_wins: document.support,
        theme: SupportedThemes::Dark,
    }
}

/// Writing settings and reading them back gives the same settings, for
/// every target, preset or custom. The theme is not written, so this holds
/// of settings that use the default theme.
pub proof fn lemma_settings_round_trip(settings: OverHelperSettings)
    requires
        settings.theme == SupportedThemes::Dark,
    ensures
        settings_of_document(document_of_settings(settings)) == settings,
{
    lemma_target_round_trip(settings.battle_pass_target);
}

/// Why a settings file could not be used.
#[derive(Debug, Clone, Copy, PartialEq, Eq, Structural)]
pub enum SettingsError {
    /// The file is not JSON, or lacks a field, or holds one of the wrong
    /// type or out of range.
    ConfigParse,
    /// The file or its directory could not be created, read or written.
    ConfigIo,
}

#[verifier::external_type_specification]
#[verifier::external_body]
pub struct ExJsonValue(serde_json::Value);

/// The unsigned integer found at a JSON pointer of a JSON document, if the
/// document parses and holds one there.
pub uninterp spec fn json_u64_at(document: Seq<char>, pointer: Seq<char>) -> Option<u64>;

/// The string found at a JSON pointer of a JSON document, if the document
/// parses and holds one there.
pub uninterp spec fn json_str_at(document: Seq<char>, pointer: Seq<char>) -> Option<Seq<char>>;

/// Relies on serde_json::from_str, Value::pointer and Value::as_u64: parses
/// the document and reads the unsigned integer at `pointer`, if any.
#[verifier::external_body]
fn lookup_u64(document: &str, pointer: &str) -> (r: Option<u64>)
    ensures
        r == json_u64_at(document@, pointer@),
{
    let value: serde_json::Value = serde_json::from_str(document).ok()?;
    value.pointer(pointer)?.as_u64()
}

/// Relies on serde_json::from_str, Value::pointer and Value::as_str: parses
/// the document and reads the string at `pointer`, if any.
#[verifier::external_body]
fn lookup_str(document: &str, pointer: &str) -> (r: Option<String>)
    ensures
        r matches Some(t) ==> json_str_at(document@, pointer@) == Some(t@),
        r is None ==> json_str_at(document@, pointer@) is None,
{
    let value: serde_json::Value = serde_json::from_str(document).ok()?;
    value.pointer(pointer)?.as_str().map(|t| t.to_string())
}

/// A counter read from the file, if present and at most `max`.
pub open spec fn bounded_field(value: Option<u64>, max: u64) -> Option<u8> {
    match value {
        Some(n) => if n <= max && max <= 255 { Some(n as u8) } else { None },
        None => None,
    }
}

/// The target read from the file: a string must be one of the two preset
/// tags; otherwise a level of at most 255 is expected. A custom target is
/// always a number, so a string such as `"120"` is refused.
pub open spec fn target_of_json(text: Option<Seq<char>>, number: Option<u64>) -> Option<TargetField> {
    match text {
        Some(t) => if t == "prestige"@ {
            Some(TargetField::Prestige)
        } else if t == "mythic"@ {
            Some(TargetField::Mythic)
        } else {
            None
        },
        None => match bounded_field(number, 255) {
            Some(n) => Some(TargetField::Level(n)),
            None => None,
        },
    }
}

/// The file contents that the fields read from it make up, if all of them
/// are present and in range.
pub open spec fn document_of_fields(
    level: Option<u64>,
    target_text: Option<Seq<char>>,
    target_number: Option<u64>,
    tank: Option<u64>,
    damage: Option<u64>,
    support: Option<u64>,
) -> Option<SettingsDocument> {
    let max = MAX_ROLE_WINS as u64;
    if bounded_field(level, 255) is Some && target_of_json(target_text, target_number) is Some
        && bounded_field(tank, max) is Some && bounded_field(damage, max) is Some
        && bounded_field(support, max) is Some {
        Some(
            SettingsDocument {
                level: bounded_field(level, 255).unwrap(),
                target: target_of_json(target_text, target_number).unwrap(),
                tank: bounded_field(tank, max).unwrap(),
                damage: bounded_field(damage, max).unwrap(),
                support: bounded_field(support, max).unwrap(),
            },
        )
    } else {
        None
    }
}

/// What loading gives for the fields read from a file.
pub open spec fn settings_of_fields(
    level: Option<u64>,
    target_text: Option<Seq<char>>,
    target_number: Option<u64>,
    tank: Option<u64>,
    damage: Option<u64>,
    support: Option<u64>,
) -> Result<OverHelperSettings, SettingsError> {
    match document_of_fields(level, target_text, target_number, tank, damage, support) {
        Some(d) => Ok(settings_of_document(d)),
        None => Err(SettingsError::ConfigParse),
    }
}

fn bounded(value: Option<u64>, max: u64) -> (r: Option<u8>)
    requires
        max <= 255,
    ensures
        r == bounded_field(value, max),
{
    match value {
        Some(n) => if n <= max {
            Some(n as u8)
        } else {
            None
        },
        None => None,
    }
}

/// The target read from the file: `"prestige"` or `"mythic"`, or a level.
pub fn target_from_json(text: Option<String>, number: Option<u64>) -> (r: Option<TargetField>)
    ensures
        r == target_of_json(
            match text {
                Some(t) => Some(t@),
                None => None,
            },
            number,
        ),
{
    match text {
        Some(t) => {
            let prestige = "prestige".to_owned();
            let mythic = "mythic".to_owned();
            if t == prestige {
                Some(TargetField::Prestige)
            } else if t == mythic {
                Some(TargetField::Mythic)
            } else {
                None
            }
        },
        None => match bounded(number, 255) {
            Some(n) => Some(TargetField::Level(n)),
            None => None,
        },
    }
}

/// Builds the settings from the fields read from a file: the level and the
/// target, and the three role counters, each of at most `MAX_ROLE_WINS`. A
/// missing or out-of-range field is a parse error.
pub fn settings_from_fields(
    level: Option<u64>,
    target_text: Option<String>,
    target_number: Option<u64>,
    tank: Option<u64>,
    damage: Option<u64>,
    support: Option<u64>,
) -> (r: Result<OverHelperSettings, SettingsError>)
    ensures
        r == settings_of_fields(
            level,
            match target_text {
                Some(t) => Some(t@),
                None => None,
            },
            target_number,
            tank,
            damage,
            support,
        ),
{
    let level = bounded(level, 255);
    let target = target_from_json(target_text, target_number);
    let tank = bounded(tank, MAX_ROLE_WINS as u64);
    let damage = bounded(damage, MAX_ROLE_WINS as u64);
    let support = bounded(support, MAX_ROLE_WINS as u64);
    match (level, target, tank, damage, support) {
        (Some(level), Some(target), Some(tank), Some(damage), Some(support)) => {
            let document = SettingsDocument { level, target, tank, damage, support };
            Ok(document_to_settings(&document))
        },
        _ => Err(SettingsError::ConfigParse),
    }
}

/// What loading gives for the text of a settings file.
pub open spec fn settings_of_json(document: Seq<char>) -> Result<OverHelperSettings, SettingsError> {
    settings_of_fields(
        json_u64_at(document, "/battle_pass/level"@),
        json_str_at(document, "/battle_pass/target"@),
        json_u64_at(document, "/battle_pass/target"@),
        json_u64_at(document, "/roll_mastery/tank"@),
        json_u64_at(document, "/roll_mastery/damage"@),
        json_u64_at(document, "/roll_mastery/support"@),
    )
}

/// Reads the settings from the text of a settings file:
/// `{"battle_pass": {"level", "target"}, "roll_mastery": {"tank", "damage", "support"}}`.
/// Other fields are ignored; the theme is the default one.
pub fn load_settings_from_json(document: &str) -> (r: Result<OverHelperSettings, SettingsError>)
    ensures
        r == settings_of_json(document@),
{
    let level = lookup_u64(document, "/battle_pass/level");
    let target_text = lookup_str(document, "/battle_pass/target");
    let target_number = lookup_u64(document, "/battle_pass/target");
    let tank = lookup_u64(document, "/roll_mastery/tank");
    let damage = lookup_u64(document, "/roll_mastery/damage");
    let support = lookup_u64(document, "/roll_mastery/support");
    settings_from_fields(level, target_text, target_number, tank, damage, support)
}

/// The tag that the file uses for a preset target; none for a level.
pub fn target_tag(field: TargetField) -> (r: Option<&'static str>)
    ensures
        field == TargetField::Prestige ==> (r matches Some(t) && t@ == "prestige"@),
        field == TargetField::Mythic ==> (r matches Some(t) && t@ == "mythic"@),
        field is Level ==> r is None,
{
    match field {
        TargetField::Prestige => Some("prestige"),
        TargetField::Mythic => Some("mythic"),
        TargetField::Level(_) => None,
    }
}

/// The unsigned integers that `Value::pointer` followed by `Value::as_u64`
/// finds in a JSON value, by JSON pointer.
pub uninterp spec fn json_number_leaves(value: serde_json::Value) -> Map<Seq<char>, u64>;

/// The strings that `Value::pointer` followed by `Value::as_str` finds in a
/// JSON value, by JSON pointer.
pub uninterp spec fn json_string_leaves(value: serde_json::Value) -> Map<Seq<char>, Seq<char>>;

/// How deeply objects and arrays nest in a JSON value: 0 for a number or a
/// string, one more than its deepest member for an object.
pub uninterp spec fn json_depth(value: serde_json::Value) -> nat;

/// What a map of leaves holds at a pointer.
pub open spec fn leaf<V>(leaves: Map<Seq<char>, V>, pointer: Seq<char>) -> Option<V> {
    if leaves.contains_key(pointer) {
        Some(leaves[pointer])
    } else {
        None
    }
}

/// An object key that a JSON pointer writes as it is: no `/` and no `~`.
pub open spec fn plain_key(key: Seq<char>) -> bool {
    forall|i: int| 0 <= i < key.len() ==> #[trigger] key[i] != '/' && key[i] != '~'
}

/// The pointer to `rest` inside the member `key` of an object.
pub open spec fn member_pointer(key: Seq<char>, rest: Seq<char>) -> Seq<char> {
    seq!['/'] + key + rest
}

/// A pointer that `Value::pointer` can follow: empty, or starting with `/`.
pub open spec fn is_pointer(p: Seq<char>) -> bool {
    p.len() == 0 || p[0] == '/'
}

/// No member of the list nests deeper than `depth`.
pub open spec fn members_within(members: Seq<(String, serde_json::Value)>, depth: nat) -> bool {
    forall|i: int| 0 <= i < members.len() ==> json_depth(#[trigger] members[i].1) <= depth
}

/// Relies on serde_json's `From<u64> for Value`: a JSON number, which the
/// empty pointer finds.
#[verifier::external_body]
fn json_number(n: u64) -> (r: serde_json::Value)
    ensures
        leaf(json_number_leaves(r), Seq::<char>::empty()) == Some(n),
        leaf(json_string_leaves(r), Seq::<char>::empty()) is None,
        json_depth(r) == 0,
{
    serde_json::Value::from(n)
}

/// Relies on serde_json's `From<&str> for Value`: a JSON string, which the
/// empty pointer finds.
#[verifier::external_body]
fn json_string(text: &str) -> (r: serde_json::Value)
    ensures
        leaf(json_string_leaves(r), Seq::<char>::empty()) == Some(text@),
        leaf(json_number_leaves(r), Seq::<char>::empty()) is None,
        json_depth(r) == 0,
{
    serde_json::Value::from(text)
}

/// Relies on serde_json's `FromIterator<(String, Value)> for Map`: a JSON
/// object with the given members. With distinct plain keys, a pointer into
/// a member finds what the rest of the pointer finds in that member.
#[verifier::external_body]
fn json_object(members: Vec<(String, serde_json::Value)>) -> (r: serde_json::Value)
    requires
        forall|i: int| 0 <= i < members@.len() ==> plain_key(#[trigger] members@[i].0@),
        forall|i: int, j: int| 0 <= i < j < members@.len() ==> members@[i].0@ != members@[j].0@,
    ensures
        forall|i: int, rest: Seq<char>|
            0 <= i < members@.len() && is_pointer(rest) ==> #[trigger] leaf(
                json_number_leaves(r),
                member_pointer(members@[i].0@, rest),
            ) == leaf(json_number_leaves(members@[i].1), rest),
        forall|i: int, rest: Seq<char>|
            0 <= i < members@.len() && is_pointer(rest) ==> #[trigger] leaf(
                json_string_leaves(r),
                member_pointer(members@[i].0@, rest),
            ) == leaf(json_string_leaves(members@[i].1), rest),
        forall|depth: nat| #[trigger] members_within(members@, depth) ==> json_depth(r) <= depth + 1,
{
    serde_json::Value::Object(members.into_iter().collect())
}

/// Relies on serde_json::to_string_pretty: the value as indented JSON text.
/// A `Value` always serialises (its map keys are strings and the output is
/// a `Vec`), and parsing the text back, within the parser's nesting limit
/// of 128, finds the same numbers and strings at every pointer.
#[verifier::external_body]
fn json_pretty(value: &serde_json::Value) -> (r: Option<String>)
    ensures
        r is Some,
        json_depth(*value) < 128 ==> (r matches Some(text) ==> forall|p: Seq<char>|
            #[trigger] json_u64_at(text@, p) == leaf(json_number_leaves(*value), p)),
        json_depth(*value) < 128 ==> (r matches Some(text) ==> forall|p: Seq<char>|
            #[trigger] json_str_at(text@, p) == leaf(json_string_leaves(*value), p)),
{
    serde_json::to_string_pretty(value).ok()
}

/// What the text of a settings file holds for a document: the level, the
/// target (a preset as its tag and no number, any other target as a number
/// and no string) and the three role counters, at their pointers.
pub open spec fn written_document(text: Seq<char>, document: SettingsDocument) -> bool {
    &&& json_u64_at(text, "/battle_pass/level"@) == Some(document.level as u64)
    &&& json_u64_at(text, "/roll_mastery/tank"@) == Some(document.tank as u64)
    &&& json_u64_at(text, "/roll_mastery/damage"@) == Some(document.damage as u64)
    &&& json_u64_at(text, "/roll_mastery/support"@) == Some(document.support as u64)
    &&& match document.target {
        TargetField::Prestige => {
            &&& json_str_at(text, "/battle_pass/target"@) == Some("prestige"@)
            &&& json_u64_at(text, "/battle_pass/target"@) is None
        },
        TargetField::Mythic => {
            &&& json_str_at(text, "/battle_pass/target"@) == Some("mythic"@)
            &&& json_u64_at(text, "/battle_pass/target"@) is None
        },
        TargetField::Level(n) => {
            &&& json_str_at(text, "/battle_pass/target"@) is None
            &&& json_u64_at(text, "/battle_pass/target"@) == Some(n as u64)
        },
    }
}

proof fn lemma_file_keys()
    ensures
        plain_key("battle_pass"@),
        plain_key("roll_mastery"@),
        plain_key("level"@),
        plain_key("target"@),
        plain_key("tank"@),
        plain_key("damage"@),
        plain_key("support"@),
        "battle_pass"@ != "roll_mastery"@,
        "level"@ != "target"@,
        "tank"@ != "damage"@,
        "tank"@ != "support"@,
        "damage"@ != "support"@,
        "/battle_pass/level"@ == member_pointer("battle_pass"@, member_pointer("level"@, Seq::empty())),
        "/battle_pass/target"@ == member_pointer("battle_pass"@, member_pointer("target"@, Seq::empty())),
        "/roll_mastery/tank"@ == member_pointer("roll_mastery"@, member_pointer("tank"@, Seq::empty())),
        "/roll_mastery/damage"@ == member_pointer("roll_mastery"@, member_pointer("damage"@, Seq::empty())),
        "/roll_mastery/support"@ == member_pointer("roll_mastery"@, member_pointer("support"@, Seq::empty())),
{
    reveal_strlit("battle_pass");
    reveal_strlit("roll_mastery");
    reveal_strlit("level");
    reveal_strlit("target");
    reveal_strlit("tank");
    reveal_strlit("damage");
    reveal_strlit("support");
    reveal_strlit("/battle_pass/level");
    reveal_strlit("/battle_pass/target");
    reveal_strlit("/roll_mastery/tank");
    reveal_strlit("/roll_mastery/damage");
    reveal_strlit("/roll_mastery/support");
    assert("battle_pass"@.len() != "roll_mastery"@.len());
    assert("level"@[0] != "target"@[0]);
    assert("tank"@.len() != "damage"@.len());
    assert("tank"@.len() != "support"@.len());
    assert("damage"@.len() != "support"@.len());
    assert("/battle_pass/level"@ =~= member_pointer("battle_pass"@, member_pointer("level"@, Seq::empty())));
    assert("/battle_pass/target"@ =~= member_pointer("battle_pass"@, member_pointer("target"@, Seq::empty())));
    assert("/roll_mastery/tank"@ =~= member_pointer("roll_mastery"@, member_pointer("tank"@, Seq::empty())));
    assert("/roll_mastery/damage"@ =~= member_pointer("roll_mastery"@, member_pointer("damage"@, Seq::empty())));
    assert("/roll_mastery/support"@ =~= member_pointer("roll_mastery"@, member_pointer("support"@, Seq::empty())));
}

/// Writes the file form of the settings as JSON text: the level and the
/// target (a preset as its tag, any other target as a number) under
/// `"battle_pass"`, the three role counters under `"roll_mastery"`.
pub fn document_to_json(document: &SettingsDocument) -> (r: Option<String>)
    ensures
        r is Some,
        r matches Some(text) ==> written_document(text@, *document),
{
    proof {
        lemma_file_keys();
    }
    let target = match target_tag(document.target) {
        Some(tag) => json_string(tag),
        None => json_number(decode_target(document.target) as u64),
    };
    let level = json_number(document.level as u64);
    let mut battle_pass_members: Vec<(String, serde_json::Value)> = Vec::new();
    battle_pass_members.push(("level".to_owned(), level));
    battle_pass_members.push(("target".to_owned(), target));
    let ghost bp = battle_pass_members@;
    assert(bp[0].0@ == "level"@ && bp[0].1 == level);
    assert(bp[1].0@ == "target"@ && bp[1].1 == target);
    assert(members_within(bp, 0));
    let battle_pass = json_object(battle_pass_members);
    let tank = json_number(document.tank as u64);
    let damage = json_number(document.damage as u64);
    let support = json_number(document.support as u64);
    let mut roll_mastery_members: Vec<(String, serde_json::Value)> = Vec::new();
    roll_mastery_members.push(("tank".to_owned(), tank));
    roll_mastery_members.push(("damage".to_owned(), damage));
    roll_mastery_members.push(("support".to_owned(), support));
    let ghost rm = roll_mastery_members@;
    assert(rm[0].0@ == "tank"@ && rm[0].1 == tank);
    assert(rm[1].0@ == "damage"@ && rm[1].1 == damage);
    assert(rm[2].0@ == "support"@ && rm[2].1 == support);
    assert(members_within(rm, 0));
    let roll_mastery = json_object(roll_mastery_members);
    let mut root_members: Vec<(String, serde_json::Value)> = Vec::new();
    root_members.push(("battle_pass".to_owned(), battle_pass));
    root_members.push(("roll_mastery".to_owned(), roll_mastery));
    let ghost rt = root_members@;
    assert(rt[0].0@ == "battle_pass"@ && rt[0].1 == battle_pass);
    assert(rt[1].0@ == "roll_mastery"@ && rt[1].1 == roll_mastery);
    assert(members_within(rt, 1));
    let root = json_object(root_members);
    let r = json_pretty(&root);
    proof {
        let e = Seq::<char>::empty();
        let text = r->Some_0@;
        assert(is_pointer(e));
        assert forall|key: Seq<char>, rest: Seq<char>| #[trigger] is_pointer(member_pointer(key, rest)) by {
            assert(member_pointer(key, rest)[0] == '/');
        }
        // Through the root member, then the inner member, down to the leaf.
        assert(leaf(json_number_leaves(root), member_pointer(rt[0].0@, member_pointer(bp[0].0@, e)))
            == leaf(json_number_leaves(bp[0].1), e));
        assert(leaf(json_number_leaves(root), member_pointer(rt[0].0@, member_pointer(bp[1].0@, e)))
            == leaf(json_number_leaves(bp[1].1), e));
        assert(leaf(json_string_leaves(root), member_pointer(rt[0].0@, member_pointer(bp[1].0@, e)))
            == leaf(json_string_leaves(bp[1].1), e));
        assert(leaf(json_number_leaves(root), member_pointer(rt[1].0@, member_pointer(rm[0].0@, e)))
            == leaf(json_number_leaves(rm[0].1), e));
        assert(leaf(json_number_leaves(root), member_pointer(rt[1].0@, member_pointer(rm[1].0@, e)))
            == leaf(json_number_leaves(rm[1].1), e));
        assert(leaf(json_number_leaves(root), member_pointer(rt[1].0@, member_pointer(rm[2].0@, e)))
            == leaf(json_number_leaves(rm[2].1), e));
        assert(json_u64_at(text, "/battle_pass/level"@) == leaf(json_number_leaves(root), "/battle_pass/level"@));
        assert(json_u64_at(text, "/battle_pass/target"@) == leaf(json_number_leaves(root), "/battle_pass/target"@));
        assert(json_str_at(text, "/battle_pass/target"@) == leaf(json_string_leaves(root), "/battle_pass/target"@));
        assert(json_u64_at(text, "/roll_mastery/tank"@) == leaf(json_number_leaves(root), "/roll_mastery/tank"@));
        assert(json_u64_at(text, "/roll_mastery/damage"@) == leaf(json_number_leaves(root), "/roll_mastery/damage"@));
        assert(json_u64_at(text, "/roll_mastery/support"@) == leaf(json_number_leaves(root), "/roll_mastery/support"@));
    }
    r
}

/// Every role counter of the settings lies within `0..=MAX_ROLE_WINS`, as
/// the settings file requires.
pub open spec fn wins_in_range(settings: OverHelperSettings) -> bool {
    &&& settings.tank_wins <= MAX_ROLE_WINS
    &&& settings.damage_wins <= MAX_ROLE_WINS
    &&& settings.support_wins <= MAX_ROLE_WINS
}

/// The text of the settings file for `settings`: it always comes, and
/// reading it back gives the settings with the default theme, which the
/// file does not hold, provided the role counters are in range (the file
/// refuses larger ones).
pub fn settings_to_json(settings: &OverHelperSettings) -> (r: Option<String>)
    ensures
        r is Some,
        r matches Some(text) ==> written_document(text@, document_of_settings(*settings)),
        r matches Some(text) ==> settings_of_json(text@) == if wins_in_range(*settings) {
            Ok::<OverHelperSettings, SettingsError>(settings_of_document(document_of_settings(*settings)))
        } else {
            Err::<OverHelperSettings, SettingsError>(SettingsError::ConfigParse)
        },
        settings.theme == SupportedThemes::Dark && wins_in_range(*settings) ==> (r matches Some(text)
            ==> settings_of_json(text@) == Ok::<OverHelperSettings, SettingsError>(*settings)),
        settings.battle_pass_target == PRESTIGE_BATTLE_PASS_END ==> (r matches Some(text) ==> json_str_at(
            text@,
            "/battle_pass/target"@,
        ) == Some("prestige"@)),
        settings.battle_pass_target == MYTHIC_BATTLE_PASS_END ==> (r matches Some(text) ==> json_str_at(
            text@,
            "/battle_pass/target"@,
        ) == Some("mythic"@)),
        settings.battle_pass_target != PRESTIGE_BATTLE_PASS_END && settings.battle_pass_target
            != MYTHIC_BATTLE_PASS_END ==> (r matches Some(text) ==> {
            &&& json_str_at(text@, "/battle_pass/target"@) is None
            &&& json_u64_at(text@, "/battle_pass/target"@) == Some(settings.battle_pass_target as u64)
        }),
{
    proof {
        lemma_target_round_trip(settings.battle_pass_target);
        reveal_strlit("mythic");
        reveal_strlit("prestige");
        assert("mythic"@.len() != "prestige"@.len());
    }
    let document = settings_to_document(settings);
    document_to_json(&document)
}

/// A file whose target is the tag `"mythic"` loads with the mythic end
/// level, and settings whose target is the prestige end level are written
/// with the tag `"prestige"`.
pub proof fn lemma_preset_tags(document: Seq<char>, settings: OverHelperSettings)
    ensures
        json_str_at(document, "/battle_pass/target"@) == Some("mythic"@) ==> match settings_of_json(document) {
            Ok(loaded) => loaded.battle_pass_target == MYTHIC_BATTLE_PASS_END,
            Err(_) => true,
        },
        settings.battle_pass_target == PRESTIGE_BATTLE_PASS_END ==> document_of_settings(settings).target
            == TargetField::Prestige,
{
    reveal_strlit("mythic");
    reveal_strlit("prestige");
    assert("mythic"@.len() != "prestige"@.len());
}

/// Whether every character is an ASCII digit, and there is at least one.
pub open spec fn all_digits(text: Seq<char>) -> bool {
    text.len() > 0 && forall|i: int| 0 <= i < text.len() ==> '0' <= #[trigger] text[i] <= '9'
}

/// The number that a string of decimal digits writes.
pub open spec fn digits_value(text: Seq<char>) -> nat
    decreases text.len(),
{
    if text.len() == 0 {
        0
    } else {
        digits_value(text.drop_last()) * 10 + ((text.last() as u32 - '0' as u32) as nat)
    }
}

/// A `u8` written in decimal, with an optional leading `+`: what `str::parse`
/// accepts for `u8`.
pub open spec fn decimal_u8(text: Seq<char>) -> Option<u8> {
    let digits = if text.len() > 0 && text[0] == '+' {
        text.drop_first()
    } else {
        text
    };
    if all_digits(digits) && digits_value(digits) <= 255 {
        Some(digits_value(digits) as u8)
    } else {
        None
    }
}

/// Relies on `u8::from_str`: an optional `+` and one or more decimal digits
/// whose value fits in a `u8`; anything else is refused.
#[verifier::external_body]
fn parse_u8(text: &str) -> (r: Option<u8>)
    ensures
        r == decimal_u8(text@),
{
    text.parse::<u8>().ok()
}

/// The state of the settings subview: the chosen target, the custom level
/// that goes with it, and the theme.
#[derive(Debug, Clone, Copy, PartialEq, Eq, Structural)]
pub struct SettingsPage {
    pub battle_pass_custom_target: u8,
    pub battle_pass_target: BattlePassTargets,
    pub theme: SupportedThemes,
}

/// What the settings subview can be told.
#[derive(Debug, Clone)]
pub enum Message {
    BattlePassTargetChanged(BattlePassTargets),
    BattlePassCustomLevelChanged(String),
    ThemeChanged(SupportedThemes),
}

/// The subview after one message: a preset sets the level to its end and
/// custom keeps it; custom level text sets the level it writes, or 0 if it
/// writes none; a theme is taken as it is.
pub open spec fn page_after(page: SettingsPage, message: Message) -> SettingsPage {
    match message {
        Message::BattlePassTargetChanged(t) => SettingsPage {
            battle_pass_custom_target: t.end_level_spec(page.battle_pass_custom_target),
            battle_pass_target: t,
            ..page
        },
        Message::BattlePassCustomLevelChanged(text) => SettingsPage {
            battle_pass_custom_target: match decimal_u8(text@) {
                Some(n) => n,
                None => 0u8,
            },
            ..page
        },
        Message::ThemeChanged(theme) => SettingsPage { theme, ..page },
    }
}

/// Whether a message is taken as it is: only custom level text that writes
/// no `u8` is not.
pub open spec fn message_accepted(message: Message) -> bool {
    match message {
        Message::BattlePassCustomLevelChanged(text) => decimal_u8(text@) is Some,
        _ => true,
    }
}

impl SettingsPage {
    /// Opens the subview on stored settings: their target, classified as a
    /// preset or custom, and their theme.
    pub fn new(settings: &OverHelperSettings) -> (r: SettingsPage)
        ensures
            r.battle_pass_custom_target == settings.battle_pass_target,
            r.battle_pass_target == target_kind(settings.battle_pass_target),
            r.theme == settings.theme,
    {
        SettingsPage {
            battle_pass_custom_target: settings.battle_pass_target,
            battle_pass_target: BattlePassTargets::of_target(settings.battle_pass_target),
            theme: settings.theme,
        }
    }

    /// Applies one message. Choosing a preset sets the level to its end;
    /// choosing custom keeps the level. Custom level text that is not a
    /// `u8` in decimal gives level 0; the result is then `false`, and `true`
    /// for every other message.
    pub fn update(&mut self, message: Message) -> (accepted: bool)
        ensures
            *final(self) == page_after(*old(self), message),
            accepted == message_accepted(message),
    {
        match message {
            Message::BattlePassTargetChanged(target) => {
                self.battle_pass_custom_target = target.end_level(self.battle_pass_custom_target);
                self.battle_pass_target = target;
                true
            },
            Message::BattlePassCustomLevelChanged(text) => {
                match parse_u8(text.as_str()) {
                    Some(n) => {
                        self.battle_pass_custom_target = n;
                        true
                    },
                    None => {
                        self.battle_pass_custom_target = 0;
                        false
                    },
                }
            },
            Message::ThemeChanged(theme) => {
                self.theme = theme;
                true
            },
        }
    }
}

} // verus!
