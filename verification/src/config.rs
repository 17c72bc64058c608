//! The configuration register: one write-only byte that holds the power
//! state, the operating mode, the dynamic setting and the integration time.
//!
//! | Bit(s) | Field            | Values                                 |
//! |--------|------------------|----------------------------------------|
//! | 0      | shutdown         | 0 = active, 1 = shut down              |
//! | 1      | trigger          | 1 = take one reading; clears itself    |
//! | 2      | active force     | 0 = continuous, 1 = one-shot           |
//! | 3      | dynamic setting  | 0 = normal, 1 = high                   |
//! | 4-6    | integration time | 0 = 50 ms, 1 = 100 ms, ... 4 = 800 ms  |
//! | 7      | reserved         | 0                                      |
//!
//! A change of one setting is a function from the byte the driver holds to
//! the byte it writes next. [`Settings`] is what a byte means; the functions
//! here say what each change does to the byte and to its meaning.
use vstd::prelude::*;
use crate::types::{DynamicSetting, IntegrationTime, Mode};

verus! {

/// Bit 0: set while the sensor is shut down.
pub const SHUTDOWN: u8 = 0b0000_0001;

/// Bit 1: written as 1 to trigger one reading in active force mode. The
/// sensor clears it by itself.
pub const TRIGGER: u8 = 0b0000_0010;

/// Bit 2: set in active force (one-shot) mode, clear in continuous mode.
pub const ACTIVE_FORCE: u8 = 0b0000_0100;

/// Bit 3: set for the high dynamic setting, clear for the normal one.
pub const HIGH_DYNAMIC: u8 = 0b0000_1000;

/// Bits 4 to 6: the code of the integration time.
pub const INTEGRATION_TIME: u8 = 0b0111_0000;

/// Bit 7: reserved, always written as 0.
pub const RESERVED: u8 = 0b1000_0000;

/// The configuration a new driver starts from: shut down, everything else 0.
pub const INITIAL: u8 = 0b0000_0001;

/// What a configuration byte means.
pub struct Settings {
    /// Whether the sensor is shut down.
    pub shutdown: bool,
    /// The operating mode.
    pub mode: Mode,
    /// The dynamic setting.
    pub dynamic_setting: DynamicSetting,
    /// The integration time.
    pub integration_time: IntegrationTime,
}

/// The integration time that a three-bit code stands for. The codes above 4
/// are not used by the sensor; they are read as the longest time.
pub open spec fn integration_time_of(code: u8) -> IntegrationTime {
    if code == 0 {
        IntegrationTime::Ms50
    } else if code == 1 {
        IntegrationTime::Ms100
    } else if code == 2 {
        IntegrationTime::Ms200
    } else if code == 3 {
        IntegrationTime::Ms400
    } else {
        IntegrationTime::Ms800
    }
}

/// The settings that a configuration byte holds.
pub open spec fn settings_of(config: u8) -> Settings {
    Settings {
        shutdown: config & SHUTDOWN != 0,
        mode: if config & ACTIVE_FORCE != 0 {
            Mode::ActiveForce
        } else {
            Mode::Continuous
        },
        dynamic_setting: if config & HIGH_DYNAMIC != 0 {
            DynamicSetting::High
        } else {
            DynamicSetting::Normal
        },
        integration_time: integration_time_of((config & INTEGRATION_TIME) >> 4),
    }
}

/// The configuration byte that holds the given settings.
pub open spec fn encoding(settings: Settings) -> u8 {
    (if settings.shutdown { SHUTDOWN } else { 0 })
        | (if settings.mode == Mode::ActiveForce { ACTIVE_FORCE } else { 0 })
        | (if settings.dynamic_setting == DynamicSetting::High { HIGH_DYNAMIC } else { 0 })
        | (settings.integration_time.code() << 4)
}

/// A byte the driver may hold as its shadow of the register: the trigger bit
/// and the reserved bit are clear, and the integration time code is one of
/// the five the sensor knows.
pub open spec fn is_valid(config: u8) -> bool {
    &&& config & (TRIGGER | RESERVED) == 0
    &&& (config & INTEGRATION_TIME) >> 4 <= 4
}

/// `next` and `config` agree on every bit outside `mask`.
pub open spec fn differs_only_in(next: u8, config: u8, mask: u8) -> bool {
    next & !mask == config & !mask
}

/// What the register holds once the sensor has taken in a written byte: the
/// byte with the trigger bit cleared.
pub open spec fn settled(written: u8) -> u8 {
    written & !TRIGGER
}

/// `config` with the shutdown bit cleared.
pub open spec fn spec_enabled(config: u8) -> u8 {
    config & !SHUTDOWN
}

/// `config` with the shutdown bit set.
pub open spec fn spec_disabled(config: u8) -> u8 {
    config | SHUTDOWN
}

/// `config` with the active force bit as `mode` asks.
pub open spec fn spec_with_mode(config: u8, mode: Mode) -> u8 {
    match mode {
        Mode::Continuous => config & !ACTIVE_FORCE,
        Mode::ActiveForce => config | ACTIVE_FORCE,
    }
}

/// `config` with bits 4 to 6 replaced by the code of `it`.
pub open spec fn spec_with_integration_time(config: u8, it: IntegrationTime) -> u8 {
    (config & 0b1000_1111) | (it.code() << 4)
}

/// `config` with the high dynamic bit as `ds` asks.
pub open spec fn spec_with_dynamic_setting(config: u8, ds: DynamicSetting) -> u8 {
    match ds {
        DynamicSetting::Normal => config & !HIGH_DYNAMIC,
        DynamicSetting::High => config | HIGH_DYNAMIC,
    }
}

/// `config` with the trigger bit set.
pub open spec fn spec_triggered(config: u8) -> u8 {
    config | TRIGGER
}

/// The byte to write to wake the sensor: `config` with the shutdown bit
/// cleared. No other bit changes.
#[verifier::when_used_as_spec(spec_enabled)]
pub fn enabled(config: u8) -> (next: u8)
    ensures
        next == config & !SHUTDOWN,
        differs_only_in(next, config, SHUTDOWN),
        settings_of(next) == (Settings { shutdown: false, ..settings_of(config) }),
        is_valid(config) ==> is_valid(next),
{
    let next: u8 = config & !SHUTDOWN;
    assert(next & !SHUTDOWN == config & !SHUTDOWN && next & SHUTDOWN == 0 && next & ACTIVE_FORCE
        == config & ACTIVE_FORCE && next & HIGH_DYNAMIC == config & HIGH_DYNAMIC && next
        & INTEGRATION_TIME == config & INTEGRATION_TIME && next & (TRIGGER | RESERVED) == config
        & (TRIGGER | RESERVED)) by (bit_vector)
        requires
            next == config & !SHUTDOWN,
    ;
    next
}

/// The byte to write to shut the sensor down: `config` with the shutdown bit
/// set. No other bit changes.
#[verifier::when_used_as_spec(spec_disabled)]
pub fn disabled(config: u8) -> (next: u8)
    ensures
        next == config | SHUTDOWN,
        differs_only_in(next, config, SHUTDOWN),
        settings_of(next) == (Settings { shutdown: true, ..settings_of(config) }),
        is_valid(config) ==> is_valid(next),
{
    let next: u8 = config | SHUTDOWN;
    assert(next & !SHUTDOWN == config & !SHUTDOWN && next & SHUTDOWN != 0 && next & ACTIVE_FORCE
        == config & ACTIVE_FORCE && next & HIGH_DYNAMIC == config & HIGH_DYNAMIC && next
        & INTEGRATION_TIME == config & INTEGRATION_TIME && next & (TRIGGER | RESERVED) == config
        & (TRIGGER | RESERVED)) by (bit_vector)
        requires
            next == config | SHUTDOWN,
    ;
    next
}

/// The byte to write to select `mode`: `config` with the active force bit
/// cleared for continuous mode, set for active force mode. No other bit
/// changes.
#[verifier::when_used_as_spec(spec_with_mode)]
pub fn with_mode(config: u8, mode: Mode) -> (next: u8)
    ensures
        next == match mode {
            Mode::Continuous => config & !ACTIVE_FORCE,
            Mode::ActiveForce => config | ACTIVE_FORCE,
        },
        differs_only_in(next, config, ACTIVE_FORCE),
        settings_of(next) == (Settings { mode, ..settings_of(config) }),
        is_valid(config) ==> is_valid(next),
{
    let next: u8 = match mode {
        Mode::Continuous => config & !ACTIVE_FORCE,
        Mode::ActiveForce => config | ACTIVE_FORCE,
    };
    assert(next & !ACTIVE_FORCE == config & !ACTIVE_FORCE && next & SHUTDOWN == config & SHUTDOWN
        && next & HIGH_DYNAMIC == config & HIGH_DYNAMIC && next & INTEGRATION_TIME == config
        & INTEGRATION_TIME && next & (TRIGGER | RESERVED) == config & (TRIGGER | RESERVED) && (
    next == config & !ACTIVE_FORCE ==> next & ACTIVE_FORCE == 0) && (next == config | ACTIVE_FORCE
        ==> next & ACTIVE_FORCE != 0)) by (bit_vector)
        requires
            next == config & !ACTIVE_FORCE || next == config | ACTIVE_FORCE,
    ;
    next
}

/// The byte to write to select the integration time `it`: `config` with bits
/// 4 to 6 replaced by the code of `it`. No other bit changes.
#[verifier::when_used_as_spec(spec_with_integration_time)]
pub fn with_integration_time(config: u8, it: IntegrationTime) -> (next: u8)
    ensures
        next == (config & 0b1000_1111) | (it.code() << 4),
        differs_only_in(next, config, INTEGRATION_TIME),
        settings_of(next) == (Settings { integration_time: it, ..settings_of(config) }),
        is_valid(config) ==> is_valid(next),
{
    let code: u8 = it.code();
    let next: u8 = (config & 0b1000_1111) | (code << 4);
    assert(next & !INTEGRATION_TIME == config & !INTEGRATION_TIME && (next & INTEGRATION_TIME) >> 4
        == code && next & SHUTDOWN == config & SHUTDOWN && next & ACTIVE_FORCE == config
        & ACTIVE_FORCE && next & HIGH_DYNAMIC == config & HIGH_DYNAMIC && next & (TRIGGER
        | RESERVED) == config & (TRIGGER | RESERVED)) by (bit_vector)
        requires
            next == (config & 0b1000_1111) | (code << 4),
            code <= 4,
    ;
    next
}

/// The byte to write to select the dynamic setting `ds`: `config` with the
/// high dynamic bit cleared for the normal setting, set for the high one. No
/// other bit changes.
#[verifier::when_used_as_spec(spec_with_dynamic_setting)]
pub fn with_dynamic_setting(config: u8, ds: DynamicSetting) -> (next: u8)
    ensures
        next == match ds {
            DynamicSetting::Normal => config & !HIGH_DYNAMIC,
            DynamicSetting::High => config | HIGH_DYNAMIC,
        },
        differs_only_in(next, config, HIGH_DYNAMIC),
        settings_of(next) == (Settings { dynamic_setting: ds, ..settings_of(config) }),
        is_valid(config) ==> is_valid(next),
{
    let next: u8 = match ds {
        DynamicSetting::Normal => config & !HIGH_DYNAMIC,
        DynamicSetting::High => config | HIGH_DYNAMIC,
    };
    assert(next & !HIGH_DYNAMIC == config & !HIGH_DYNAMIC && next & SHUTDOWN == config & SHUTDOWN
        && next & ACTIVE_FORCE == config & ACTIVE_FORCE && next & INTEGRATION_TIME == config
        & INTEGRATION_TIME && next & (TRIGGER | RESERVED) == config & (TRIGGER | RESERVED) && (
    next == config & !HIGH_DYNAMIC ==> next & HIGH_DYNAMIC == 0) && (next == config | HIGH_DYNAMIC
        ==> next & HIGH_DYNAMIC != 0)) by (bit_vector)
        requires
            next == config & !HIGH_DYNAMIC || next == config | HIGH_DYNAMIC,
    ;
    next
}

/// The byte to write to trigger one reading: `config` with the trigger bit
/// set. The settings it holds are those of `config`, and once the sensor has
/// cleared the trigger bit the register holds a valid `config` again.
#[verifier::when_used_as_spec(spec_triggered)]
pub fn triggered(config: u8) -> (written: u8)
    ensures
        written == config | TRIGGER,
        differs_only_in(written, config, TRIGGER),
        settings_of(written) == settings_of(config),
        is_valid(config) ==> settled(written) == config,
{
    let written: u8 = config | TRIGGER;
    assert(written & !TRIGGER == config & !TRIGGER && written & SHUTDOWN == config & SHUTDOWN
        && written & ACTIVE_FORCE == config & ACTIVE_FORCE && written & HIGH_DYNAMIC == config
        & HIGH_DYNAMIC && written & INTEGRATION_TIME == config & INTEGRATION_TIME && (config & (
    TRIGGER | RESERVED) == 0 ==> written & !TRIGGER == config)) by (bit_vector)
        requires
            written == config | TRIGGER,
    ;
    written
}

/// The initial configuration is valid and holds: shut down, continuous mode,
/// normal dynamic setting, 50 ms.
pub proof fn lemma_initial()
    ensures
        is_valid(INITIAL),
        settings_of(INITIAL) == (Settings {
            shutdown: true,
            mode: Mode::Continuous,
            dynamic_setting: DynamicSetting::Normal,
            integration_time: IntegrationTime::Ms50,
        }),
{
    assert(INITIAL & SHUTDOWN != 0 && INITIAL & ACTIVE_FORCE == 0 && INITIAL & HIGH_DYNAMIC == 0
        && (INITIAL & INTEGRATION_TIME) >> 4 == 0 && INITIAL & (TRIGGER | RESERVED) == 0)
        by (bit_vector);
}

/// Waking the sensor from the initial configuration writes `0x00`, and
/// shutting it down after that writes `0x01`, the initial configuration again.
/// In general, shutting down after waking gives back any configuration that
/// was shut down to begin with.
pub proof fn lemma_power_cycle(config: u8)
    ensures
        enabled(INITIAL) == 0x00,
        disabled(enabled(INITIAL)) == 0x01,
        config & SHUTDOWN != 0 ==> disabled(enabled(config)) == config,
        config & SHUTDOWN == 0 ==> enabled(disabled(config)) == config,
{
    assert(INITIAL & !SHUTDOWN == 0x00 && (INITIAL & !SHUTDOWN) | SHUTDOWN == 0x01) by (bit_vector);
    assert((config & SHUTDOWN != 0 ==> (config & !SHUTDOWN) | SHUTDOWN == config) && (config
        & SHUTDOWN == 0 ==> (config | SHUTDOWN) & !SHUTDOWN == config)) by (bit_vector);
}

/// Encoding and decoding are inverse to each other: every choice of settings
/// has a valid byte that holds exactly these settings, and a valid byte is the
/// encoding of the settings it holds.
pub proof fn lemma_settings_round_trip(settings: Settings, config: u8)
    ensures
        is_valid(encoding(settings)),
        settings_of(encoding(settings)) == settings,
        is_valid(config) ==> encoding(settings_of(config)) == config,
{
    let s: u8 = if settings.shutdown { SHUTDOWN } else { 0 };
    let m: u8 = if settings.mode == Mode::ActiveForce { ACTIVE_FORCE } else { 0 };
    let d: u8 = if settings.dynamic_setting == DynamicSetting::High { HIGH_DYNAMIC } else { 0 };
    let c: u8 = settings.integration_time.code();
    let e: u8 = s | m | d | (c << 4);
    assert(e & SHUTDOWN == s && e & ACTIVE_FORCE == m && e & HIGH_DYNAMIC == d && (e
        & INTEGRATION_TIME) >> 4 == c && e & (TRIGGER | RESERVED) == 0 && SHUTDOWN != 0
        && ACTIVE_FORCE != 0 && HIGH_DYNAMIC != 0) by (bit_vector)
        requires
            e == s | m | d | (c << 4),
            s == 0 || s == SHUTDOWN,
            m == 0 || m == ACTIVE_FORCE,
            d == 0 || d == HIGH_DYNAMIC,
            c <= 4,
    ;
    if is_valid(config) {
        let k: u8 = (config & INTEGRATION_TIME) >> 4;
        let s2: u8 = if config & SHUTDOWN != 0 { SHUTDOWN } else { 0 };
        let m2: u8 = if config & ACTIVE_FORCE != 0 { ACTIVE_FORCE } else { 0 };
        let d2: u8 = if config & HIGH_DYNAMIC != 0 { HIGH_DYNAMIC } else { 0 };
        assert(integration_time_of(k).code() == k);
        assert((config & SHUTDOWN == 0 || config & SHUTDOWN == SHUTDOWN) && (config & ACTIVE_FORCE
            == 0 || config & ACTIVE_FORCE == ACTIVE_FORCE) && (config & HIGH_DYNAMIC == 0 || config
            & HIGH_DYNAMIC == HIGH_DYNAMIC)) by (bit_vector);
        assert(s2 | m2 | d2 | (k << 4) == config) by (bit_vector)
            requires
                config & (TRIGGER | RESERVED) == 0,
                k == (config & INTEGRATION_TIME) >> 4,
                s2 == config & SHUTDOWN,
                m2 == config & ACTIVE_FORCE,
                d2 == config & HIGH_DYNAMIC,
        ;
    }
}

} // verus!
