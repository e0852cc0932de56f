//! The configuration record of the engine, read from a JSON document.
//!
//! The document is parsed by the `json` crate. Of each member that the engine
//! reads, the crate's accessors are asked once; what they answer is kept in a
//! [`KbJsonReading`], and everything after that is decided here.

use vstd::prelude::*;
use vstd::string::*;

use crate::kb_resource::KbPostProcessMode;
use crate::kb_utils::{cg_vec4_zero, cg_vec4_zero_value, CgVec4, KbFloat, ONE_BITS, ZERO_BITS};

verus! {

/// A JSON value, `json::JsonValue`: a parsed document or a part of one.
#[verifier::external_type_specification]
#[verifier::external_body]
pub struct ExJsonValue(json::JsonValue);

/// The document that `json::parse` makes of a text, or `None` where it
/// rejects the text.
pub uninterp spec fn json_document(text: Seq<char>) -> Option<json::JsonValue>;

/// The member that indexing a JSON value by `key` gives.
pub uninterp spec fn json_member(doc: json::JsonValue, key: Seq<char>) -> json::JsonValue;

/// What `as_bool` answers for a JSON value.
pub uninterp spec fn json_bool(value: json::JsonValue) -> Option<bool>;

/// What `as_u32` answers for a JSON value.
pub uninterp spec fn json_u32(value: json::JsonValue) -> Option<u32>;

/// Whether `as_f32` answers for a JSON value with a number.
pub uninterp spec fn json_is_number(value: json::JsonValue) -> bool;

/// What `as_str` answers for a JSON value, as characters.
pub uninterp spec fn json_text(value: json::JsonValue) -> Option<Seq<char>>;

/// What `is_array` answers for a JSON value.
pub uninterp spec fn json_is_array(value: json::JsonValue) -> bool;

/// The values that `members` walks through for a JSON value.
pub uninterp spec fn json_elements(value: json::JsonValue) -> Seq<json::JsonValue>;

/// The number of characters that a text handed to the parser stays below.
pub const MAX_CONFIG_TEXT: usize = 32768;

/// Parses a text with `json::parse`. The result is the document that the
/// parser makes of the text; an error of the parser becomes `None`.
///
/// The text has fewer than 32768 characters. The parser keeps the decimal
/// exponent of a number in 16 bits and lowers it by one for each digit of a
/// fraction without a check, so a fraction of 32768 digits would exhaust it.
/// A digit is one character, so a text below the bound has no such fraction.
#[verifier::external_body]
fn parse_document(text: &str) -> (r: Option<json::JsonValue>)
    requires
        text@.len() < MAX_CONFIG_TEXT,
    ensures
        r == json_document(text@),
{
    json::parse(text).ok()
}

/// Indexes a JSON value by `key`. The crate gives the member of that name,
/// and null where the value is no object or has no such member.
#[verifier::external_body]
fn member<'a>(doc: &'a json::JsonValue, key: &str) -> (r: &'a json::JsonValue)
    ensures
        *r == json_member(*doc, key@),
{
    &doc[key]
}

/// Asks `as_bool` of a JSON value.
#[verifier::external_body]
fn read_bool(value: &json::JsonValue) -> (r: Option<bool>)
    ensures
        r == json_bool(*value),
{
    value.as_bool()
}

/// Asks `as_u32` of a JSON value.
#[verifier::external_body]
fn read_u32(value: &json::JsonValue) -> (r: Option<u32>)
    ensures
        r == json_u32(*value),
{
    value.as_u32()
}

/// Asks `as_f32` of a JSON value and takes the bit pattern of the answer.
/// Whether there is an answer depends on the value alone. Which number it is
/// does not: a number with a far exponent is converted through `powf`, whose
/// last digit may differ from one machine to the next.
#[verifier::external_body]
fn read_number(value: &json::JsonValue) -> (r: Option<KbFloat>)
    ensures
        r is Some <==> json_is_number(*value),
{
    value.as_f32().map(|v| KbFloat::from_bits(v.to_bits()))
}

/// Asks `as_str` of a JSON value and copies the answer.
#[verifier::external_body]
fn read_text(value: &json::JsonValue) -> (r: Option<String>)
    ensures
        match r {
            Some(s) => json_text(*value) == Some(s@),
            None => json_text(*value) is None,
        },
{
    value.as_str().map(str::to_string)
}

/// Asks `is_array` of a JSON value.
#[verifier::external_body]
fn read_is_array(value: &json::JsonValue) -> (r: bool)
    ensures
        r == json_is_array(*value),
{
    value.is_array()
}

/// Collects what `members` walks through for a JSON value.
#[verifier::external_body]
fn read_elements<'a>(value: &'a json::JsonValue) -> (r: Vec<&'a json::JsonValue>)
    ensures
        r@.len() == json_elements(*value).len(),
        forall|i: int| 0 <= i < r@.len() ==> *(#[trigger] r@[i]) == json_elements(*value)[i],
{
    value.members().collect()
}

/// What the accessors of `json::JsonValue` answer for one member of a
/// document.
pub struct KbJsonReading {
    /// The member as a boolean.
    pub boolean: Option<bool>,
    /// The member as an unsigned 32-bit integer.
    pub unsigned: Option<u32>,
    /// The member as a binary32 number.
    pub number: Option<KbFloat>,
    /// The member as a string.
    pub text: Option<String>,
    /// Whether the member is an array.
    pub is_array: bool,
    /// Each element of the member as a binary32 number.
    pub elements: Vec<Option<KbFloat>>,
}

/// A reading as plain values.
pub struct KbJsonReadingView {
    pub boolean: Option<bool>,
    pub unsigned: Option<u32>,
    pub number: Option<KbFloat>,
    pub text: Option<Seq<char>>,
    pub is_array: bool,
    pub elements: Seq<Option<KbFloat>>,
}

impl View for KbJsonReading {
    type V = KbJsonReadingView;

    open spec fn view(&self) -> KbJsonReadingView {
        KbJsonReadingView {
            boolean: self.boolean,
            unsigned: self.unsigned,
            number: self.number,
            text: match self.text {
                Some(s) => Some(s@),
                None => None,
            },
            is_array: self.is_array,
            elements: self.elements@,
        }
    }
}

/// True when `reading` is what the accessors answer for `value`. The
/// answers that are numbers are left open; that they are numbers is not.
pub open spec fn is_reading_of(reading: KbJsonReadingView, value: json::JsonValue) -> bool {
    &&& reading.boolean == json_bool(value)
    &&& reading.unsigned == json_u32(value)
    &&& reading.number is Some <==> json_is_number(value)
    &&& reading.text == json_text(value)
    &&& reading.is_array == json_is_array(value)
    &&& reading.elements.len() == json_elements(value).len()
    &&& forall|i: int|
        0 <= i < reading.elements.len() ==> (#[trigger] reading.elements[i] is Some
            <==> json_is_number(json_elements(value)[i]))
}

/// Reads the member `key` of a document.
fn read_member(doc: &json::JsonValue, key: &str) -> (r: KbJsonReading)
    ensures
        is_reading_of(r@, json_member(*doc, key@)),
{
    let value = member(doc, key);
    let values = read_elements(value);
    let mut elements: Vec<Option<KbFloat>> = Vec::new();
    let mut i: usize = 0;
    while i < values.len()
        invariant
            i <= values@.len(),
            elements@.len() == i,
            values@.len() == json_elements(*value).len(),
            forall|k: int|
                0 <= k < values@.len() ==> *(#[trigger] values@[k]) == json_elements(*value)[k],
            forall|k: int|
                0 <= k < i ==> (#[trigger] elements@[k] is Some <==> json_is_number(
                    json_elements(*value)[k],
                )),
        decreases values@.len() - i,
    {
        elements.push(read_number(values[i]));
        i = i + 1;
    }
    KbJsonReading {
        boolean: read_bool(value),
        unsigned: read_u32(value),
        number: read_number(value),
        text: read_text(value),
        is_array: read_is_array(value),
        elements,
    }
}

/// The graphics interfaces that the engine may ask for.
#[derive(Clone, Copy, Debug, PartialEq, Eq, Structural)]
pub enum KbGraphicsBackend {
    Dx12,
    BrowserWebGpu,
    Vulkan,
    Gl,
    All,
}

/// Which adapter the engine prefers.
#[derive(Clone, Copy, Debug, PartialEq, Eq, Structural)]
pub enum KbPowerPreference {
    HighPerformance,
    LowPower,
    NoPreference,
}

/// Bit pattern of 0.01.
pub const HUNDREDTH_BITS: u32 = 0x3c23_d70a;

/// Bit pattern of 75.
pub const FOV_BITS: u32 = 0x4296_0000;

/// Bit pattern of 50.
pub const FOREGROUND_FOV_BITS: u32 = 0x4248_0000;

/// Bit pattern of 500.
pub const SUN_500_BITS: u32 = 0x43fa_0000;

/// Bit pattern of 550.
pub const SUN_550_BITS: u32 = 0x4409_8000;

/// Bit pattern of 1550.
pub const SUN_1550_BITS: u32 = 0x44c1_c000;

/// The settings of the engine: what the configuration file says, and what
/// changes while the engine runs.
#[derive(Clone, Copy, Debug)]
pub struct KbConfig {
    pub enemy_spawn_delay: KbFloat,
    pub enemy_move_speed: KbFloat,
    pub max_render_instances: u32,
    pub window_width: u32,
    pub window_height: u32,
    pub fov: KbFloat,
    pub foreground_fov: KbFloat,
    pub graphics_backend: KbGraphicsBackend,
    pub graphics_power_pref: KbPowerPreference,
    pub vsync: bool,
    pub start_time: instant::Instant,
    pub delta_time: KbFloat,
    pub last_frame_time: KbFloat,
    pub postprocess_mode: KbPostProcessMode,
    pub sunbeams_enabled: bool,
    pub clear_color: CgVec4,
    pub sun_color: CgVec4,
    pub sun_beam_pos_scale: CgVec4,
    pub bullet_holes: bool,
}

/// The readings of the ten members that the engine looks at.
pub struct KbConfigReadings {
    pub enemy_spawn_delay: KbJsonReading,
    pub enemy_move_speed: KbJsonReading,
    pub max_instances: KbJsonReading,
    pub window_width: KbJsonReading,
    pub window_height: KbJsonReading,
    pub graphics_power_pref: KbJsonReading,
    pub vsync: KbJsonReading,
    pub sunbeams: KbJsonReading,
    pub sun_beam_pos_scale: KbJsonReading,
    pub bullet_holes: KbJsonReading,
}

/// The readings as plain values.
pub struct KbConfigReadingsView {
    pub enemy_spawn_delay: KbJsonReadingView,
    pub enemy_move_speed: KbJsonReadingView,
    pub max_instances: KbJsonReadingView,
    pub window_width: KbJsonReadingView,
    pub window_height: KbJsonReadingView,
    pub graphics_power_pref: KbJsonReadingView,
    pub vsync: KbJsonReadingView,
    pub sunbeams: KbJsonReadingView,
    pub sun_beam_pos_scale: KbJsonReadingView,
    pub bullet_holes: KbJsonReadingView,
}

impl View for KbConfigReadings {
    type V = KbConfigReadingsView;

    open spec fn view(&self) -> KbConfigReadingsView {
        KbConfigReadingsView {
            enemy_spawn_delay: self.enemy_spawn_delay@,
            enemy_move_speed: self.enemy_move_speed@,
            max_instances: self.max_instances@,
            window_width: self.window_width@,
            window_height: self.window_height@,
            graphics_power_pref: self.graphics_power_pref@,
            vsync: self.vsync@,
            sunbeams: self.sunbeams@,
            sun_beam_pos_scale: self.sun_beam_pos_scale@,
            bullet_holes: self.bullet_holes@,
        }
    }
}

/// True when `readings` are what the accessors answer for the members of
/// `doc` that the engine looks at.
pub open spec fn are_readings_of(readings: KbConfigReadingsView, doc: json::JsonValue) -> bool {
    &&& is_reading_of(readings.enemy_spawn_delay, json_member(doc, "enemy_spawn_delay"@))
    &&& is_reading_of(readings.enemy_move_speed, json_member(doc, "enemy_move_speed"@))
    &&& is_reading_of(readings.max_instances, json_member(doc, "max_instances"@))
    &&& is_reading_of(readings.window_width, json_member(doc, "window_width"@))
    &&& is_reading_of(readings.window_height, json_member(doc, "window_height"@))
    &&& is_reading_of(readings.graphics_power_pref, json_member(doc, "graphics_power_pref"@))
    &&& is_reading_of(readings.vsync, json_member(doc, "vsync"@))
    &&& is_reading_of(readings.sunbeams, json_member(doc, "sunbeams"@))
    &&& is_reading_of(readings.sun_beam_pos_scale, json_member(doc, "sun_beam_pos_scale"@))
    &&& is_reading_of(readings.bullet_holes, json_member(doc, "bullet_holes"@))
}

/// The backend that the member `graphics_power_pref` selects: the one it
/// names, all of them when it names none that is known, and the browser's when
/// it is no string.
pub open spec fn backend_of(text: Option<Seq<char>>) -> KbGraphicsBackend {
    match text {
        Some(name) => if name == "dx12"@ {
            KbGraphicsBackend::Dx12
        } else if name == "webgpu"@ {
            KbGraphicsBackend::BrowserWebGpu
        } else if name == "vulkan"@ {
            KbGraphicsBackend::Vulkan
        } else if name == "gl"@ {
            KbGraphicsBackend::Gl
        } else {
            KbGraphicsBackend::All
        },
        None => KbGraphicsBackend::BrowserWebGpu,
    }
}

/// The preference that the member `graphics_power_pref` selects.
pub open spec fn power_pref_of(text: Option<Seq<char>>) -> KbPowerPreference {
    match text {
        Some(name) => if name == "high"@ {
            KbPowerPreference::HighPerformance
        } else if name == "low"@ {
            KbPowerPreference::LowPower
        } else {
            KbPowerPreference::NoPreference
        },
        None => KbPowerPreference::NoPreference,
    }
}

/// True when the member `sun_beam_pos_scale` can be used: it is no array, or
/// an array whose last four elements are numbers.
pub open spec fn sun_beam_usable(reading: KbJsonReadingView) -> bool {
    let n = reading.elements.len() as int;
    reading.is_array ==> {
        &&& n >= 4
        &&& reading.elements[n - 1] is Some
        &&& reading.elements[n - 2] is Some
        &&& reading.elements[n - 3] is Some
        &&& reading.elements[n - 4] is Some
    }
}

/// The position and scale of the sun beams. An array gives them from its end:
/// its last element is `x`, the one before is `y`, then `z`, then `w`.
/// Without an array they are (500, 550, 500, 1550).
pub open spec fn sun_beam_of(reading: KbJsonReadingView) -> CgVec4 {
    let n = reading.elements.len() as int;
    if reading.is_array {
        CgVec4 {
            x: reading.elements[n - 1]->Some_0,
            y: reading.elements[n - 2]->Some_0,
            z: reading.elements[n - 3]->Some_0,
            w: reading.elements[n - 4]->Some_0,
        }
    } else {
        CgVec4::from_bits_value(SUN_500_BITS, SUN_550_BITS, SUN_500_BITS, SUN_1550_BITS)
    }
}

/// The configuration that a set of readings gives, for an engine started at
/// `start_time`. A member that is missing or of the wrong kind gives its
/// default: a spawn delay of 1, a speed of 0.01, 10000 instances, a window of
/// 1280 by 720, vertical sync on, sun beams and bullet holes off.
pub open spec fn config_of(
    readings: KbConfigReadingsView,
    start_time: instant::Instant,
) -> KbConfig {
    KbConfig {
        enemy_spawn_delay: match readings.enemy_spawn_delay.number {
            Some(v) => v,
            None => KbFloat { bits: ONE_BITS },
        },
        enemy_move_speed: match readings.enemy_move_speed.number {
            Some(v) => v,
            None => KbFloat { bits: HUNDREDTH_BITS },
        },
        max_render_instances: match readings.max_instances.unsigned {
            Some(v) => v,
            None => 10000,
        },
        window_width: match readings.window_width.unsigned {
            Some(v) => v,
            None => 1280,
        },
        window_height: match readings.window_height.unsigned {
            Some(v) => v,
            None => 720,
        },
        fov: KbFloat { bits: FOV_BITS },
        foreground_fov: KbFloat { bits: FOREGROUND_FOV_BITS },
        graphics_backend: backend_of(readings.graphics_power_pref.text),
        graphics_power_pref: power_pref_of(readings.graphics_power_pref.text),
        vsync: match readings.vsync.boolean {
            Some(v) => v,
            None => true,
        },
        start_time,
        delta_time: KbFloat { bits: ZERO_BITS },
        last_frame_time: KbFloat { bits: ZERO_BITS },
        postprocess_mode: KbPostProcessMode::Passthrough,
        sunbeams_enabled: match readings.sunbeams.boolean {
            Some(v) => v,
            None => false,
        },
        clear_color: cg_vec4_zero_value(),
        sun_color: CgVec4::from_bits_value(ONE_BITS, ONE_BITS, ONE_BITS, ONE_BITS),
        sun_beam_pos_scale: sun_beam_of(readings.sun_beam_pos_scale),
        bullet_holes: match readings.bullet_holes.boolean {
            Some(v) => v,
            None => false,
        },
    }
}

/// True when `text` is a configuration: it has fewer than 32768 characters,
/// it parses, and its sun beams are usable.
pub open spec fn is_config_text(text: Seq<char>) -> bool {
    &&& text.len() < MAX_CONFIG_TEXT
    &&& json_document(text) matches Some(doc) && sun_beam_member_usable(
        json_member(doc, "sun_beam_pos_scale"@),
    )
}

/// True when a member can be used as `sun_beam_pos_scale`: it is no array,
/// or an array whose last four elements are numbers.
pub open spec fn sun_beam_member_usable(value: json::JsonValue) -> bool {
    let n = json_elements(value).len() as int;
    json_is_array(value) ==> {
        &&& n >= 4
        &&& json_is_number(json_elements(value)[n - 1])
        &&& json_is_number(json_elements(value)[n - 2])
        &&& json_is_number(json_elements(value)[n - 3])
        &&& json_is_number(json_elements(value)[n - 4])
    }
}

/// A reading of a member is usable exactly when the member is.
pub proof fn lemma_usable_reading(reading: KbJsonReadingView, value: json::JsonValue)
    requires
        is_reading_of(reading, value),
    ensures
        sun_beam_usable(reading) == sun_beam_member_usable(value),
{
    let n = reading.elements.len() as int;
    if reading.is_array && n >= 4 {
        assert(reading.elements[n - 1] is Some <==> json_is_number(json_elements(value)[n - 1]));
        assert(reading.elements[n - 2] is Some <==> json_is_number(json_elements(value)[n - 2]));
        assert(reading.elements[n - 3] is Some <==> json_is_number(json_elements(value)[n - 3]));
        assert(reading.elements[n - 4] is Some <==> json_is_number(json_elements(value)[n - 4]));
    }
}

/// True when the two strings are the same.
fn same_text(a: &String, b: &str) -> (r: bool)
    ensures
        r == (a@ == b@),
{
    let other = String::from_str(b);
    *a == other
}

/// Computes [`backend_of`].
pub fn select_backend(text: &Option<String>) -> (r: KbGraphicsBackend)
    ensures
        r == backend_of(
            match *text {
                Some(s) => Some(s@),
                None => None,
            },
        ),
{
    match text {
        Some(name) => {
            if same_text(name, "dx12") {
                KbGraphicsBackend::Dx12
            } else if same_text(name, "webgpu") {
                KbGraphicsBackend::BrowserWebGpu
            } else if same_text(name, "vulkan") {
                KbGraphicsBackend::Vulkan
            } else if same_text(name, "gl") {
                KbGraphicsBackend::Gl
            } else {
                KbGraphicsBackend::All
            }
        },
        None => KbGraphicsBackend::BrowserWebGpu,
    }
}

/// Computes [`power_pref_of`].
pub fn select_power_pref(text: &Option<String>) -> (r: KbPowerPreference)
    ensures
        r == power_pref_of(
            match *text {
                Some(s) => Some(s@),
                None => None,
            },
        ),
{
    match text {
        Some(name) => {
            if same_text(name, "high") {
                KbPowerPreference::HighPerformance
            } else if same_text(name, "low") {
                KbPowerPreference::LowPower
            } else {
                KbPowerPreference::NoPreference
            }
        },
        None => KbPowerPreference::NoPreference,
    }
}

/// Decides [`sun_beam_usable`].
pub fn check_sun_beam(reading: &KbJsonReading) -> (r: bool)
    ensures
        r == sun_beam_usable(reading@),
{
    if !reading.is_array {
        return true;
    }
    let n = reading.elements.len();
    if n < 4 {
        return false;
    }
    reading.elements[n - 1].is_some() && reading.elements[n - 2].is_some() && reading.elements[n
        - 3].is_some() && reading.elements[n - 4].is_some()
}

/// Computes [`sun_beam_of`].
pub fn select_sun_beam(reading: &KbJsonReading) -> (r: CgVec4)
    requires
        sun_beam_usable(reading@),
    ensures
        r == sun_beam_of(reading@),
{
    if reading.is_array {
        let n = reading.elements.len();
        CgVec4 {
            x: reading.elements[n - 1].unwrap(),
            y: reading.elements[n - 2].unwrap(),
            z: reading.elements[n - 3].unwrap(),
            w: reading.elements[n - 4].unwrap(),
        }
    } else {
        CgVec4 {
            x: KbFloat { bits: SUN_500_BITS },
            y: KbFloat { bits: SUN_550_BITS },
            z: KbFloat { bits: SUN_500_BITS },
            w: KbFloat { bits: SUN_1550_BITS },
        }
    }
}

/// Asks a document for the ten members that the engine looks at.
fn read_config(doc: &json::JsonValue) -> (r: KbConfigReadings)
    ensures
        are_readings_of(r@, *doc),
{
    KbConfigReadings {
        enemy_spawn_delay: read_member(doc, "enemy_spawn_delay"),
        enemy_move_speed: read_member(doc, "enemy_move_speed"),
        max_instances: read_member(doc, "max_instances"),
        window_width: read_member(doc, "window_width"),
        window_height: read_member(doc, "window_height"),
        graphics_power_pref: read_member(doc, "graphics_power_pref"),
        vsync: read_member(doc, "vsync"),
        sunbeams: read_member(doc, "sunbeams"),
        sun_beam_pos_scale: read_member(doc, "sun_beam_pos_scale"),
        bullet_holes: read_member(doc, "bullet_holes"),
    }
}

impl KbConfig {
    /// The configuration that `readings` give; see [`config_of`].
    pub fn from_readings(readings: &KbConfigReadings, start_time: instant::Instant) -> (r: Self)
        requires
            sun_beam_usable(readings.sun_beam_pos_scale@),
        ensures
            r == config_of(readings@, start_time),
    {
        KbConfig {
            enemy_spawn_delay: match readings.enemy_spawn_delay.number {
                Some(v) => v,
                None => KbFloat { bits: ONE_BITS },
            },
            enemy_move_speed: match readings.enemy_move_speed.number {
                Some(v) => v,
                None => KbFloat { bits: HUNDREDTH_BITS },
            },
            max_render_instances: match readings.max_instances.unsigned {
                Some(v) => v,
                None => 10000,
            },
            window_width: match readings.window_width.unsigned {
                Some(v) => v,
                None => 1280,
            },
            window_height: match readings.window_height.unsigned {
                Some(v) => v,
                None => 720,
            },
            fov: KbFloat { bits: FOV_BITS },
            foreground_fov: KbFloat { bits: FOREGROUND_FOV_BITS },
            graphics_backend: select_backend(&readings.graphics_power_pref.text),
            graphics_power_pref: select_power_pref(&readings.graphics_power_pref.text),
            vsync: match readings.vsync.boolean {
                Some(v) => v,
                None => true,
            },
            start_time,
            delta_time: KbFloat::zero(),
            last_frame_time: KbFloat::zero(),
            postprocess_mode: KbPostProcessMode::Passthrough,
            sunbeams_enabled: match readings.sunbeams.boolean {
                Some(v) => v,
                None => false,
            },
            clear_color: cg_vec4_zero(),
            sun_color: CgVec4 {
                x: KbFloat::one(),
                y: KbFloat::one(),
                z: KbFloat::one(),
                w: KbFloat::one(),
            },
            sun_beam_pos_scale: select_sun_beam(&readings.sun_beam_pos_scale),
            bullet_holes: match readings.bullet_holes.boolean {
                Some(v) => v,
                None => false,
            },
        }
    }

    /// Reads the configuration from the text of the configuration file, for
    /// an engine started at `start_time`. The text is a configuration. The
    /// result is the configuration of the readings of its document.
    pub fn new(config_file_text: &str, start_time: instant::Instant) -> (r: Self)
        requires
            is_config_text(config_file_text@),
        ensures
            exists|readings: KbConfigReadingsView|
                #[trigger] are_readings_of(readings, json_document(config_file_text@)->Some_0)
                    && r == config_of(readings, start_time),
    {
        let doc = parse_document(config_file_text).unwrap();
        let readings = read_config(&doc);
        proof {
            lemma_usable_reading(
                readings@.sun_beam_pos_scale,
                json_member(doc, "sun_beam_pos_scale"@),
            );
        }
        KbConfig::from_readings(&readings, start_time)
    }

    /// Reads the configuration from the text of the configuration file, or
    /// gives `None` where the text is no configuration: where it is too long,
    /// does not parse, or has sun beams that cannot be used.
    pub fn try_new(config_file_text: &str, start_time: instant::Instant) -> (r: Option<Self>)
        ensures
            r is Some <==> is_config_text(config_file_text@),
            r matches Some(config) ==> exists|readings: KbConfigReadingsView|
                #[trigger] are_readings_of(readings, json_document(config_file_text@)->Some_0)
                    && config == config_of(readings, start_time),
    {
        if config_file_text.unicode_len() >= MAX_CONFIG_TEXT {
            return None;
        }
        match parse_document(config_file_text) {
            Some(doc) => {
                let sun_beam = read_member(&doc, "sun_beam_pos_scale");
                proof {
                    lemma_usable_reading(sun_beam@, json_member(doc, "sun_beam_pos_scale"@));
                }
                if check_sun_beam(&sun_beam) {
                    Some(KbConfig::new(config_file_text, start_time))
                } else {
                    None
                }
            },
            None => None,
        }
    }

    /// Records a frame: `elapsed_time` seconds have passed since the start,
    /// `delta_time` of them since the frame before.
    pub fn update_frame_times(&mut self, elapsed_time: KbFloat, delta_time: KbFloat)
        ensures
            *final(self) == (KbConfig {
                delta_time,
                last_frame_time: elapsed_time,
                ..*old(self)
            }),
    {
        self.delta_time = delta_time;
        self.last_frame_time = elapsed_time;
    }
}

} // verus!
