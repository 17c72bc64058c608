//! The driver: a handle that owns the bus and a shadow of the configuration
//! register.
//!
//! The register cannot be read back, so the shadow is the only account of what
//! the sensor is set to. Every change of a setting is computed from the shadow
//! and sent as one configuration write; the shadow takes the new value only if
//! the bus reports success. A trigger is sent but never kept.
//!
//! The contracts speak of the bus's own record of calls,
//! [`Transport::traffic`], and of [`Veml6075::issued`], the part of that
//! record that this driver has added since it was made. What they say of the
//! driver's traffic is therefore said of the calls that the bus got, for every
//! bus that keeps its record as [`Transport`] asks.
use vstd::prelude::*;
use crate::config::{
    disabled, enabled, is_valid, settings_of, settled, triggered, with_dynamic_setting,
    with_integration_time, with_mode, lemma_initial, Settings, INITIAL, RESERVED, TRIGGER,
};
use crate::transport::{
    config_write, is_register_read, reading, transport_result, Transaction, Transport,
};
use crate::types::{DynamicSetting, Error, IntegrationTime, Mode, RawMeasurement};
use crate::wire::{
    config_frame, register_value, CONFIG, DEVICE_ADDRESS, DEVICE_ID, UVA, UVB, UVCOMP1, UVCOMP2,
};

verus! {

/// Veml6075 device driver.
pub struct Veml6075<I2C: Transport> {
    /// The concrete I²C device implementation.
    i2c: I2C,
    /// Shadow of the configuration register.
    config: u8,
    /// How many calls the bus had on record when the driver took it.
    taken_at: Ghost<nat>,
}

/// `t` is a configuration write that the bus reported as done.
pub open spec fn is_completed_config_write<E>(t: Transaction<E>) -> bool {
    &&& t matches Transaction::Write { address, bytes, result }
    &&& address == DEVICE_ADDRESS
    &&& bytes.len() == 3
    &&& bytes[0] == CONFIG
    &&& result is Ok
}

/// The configuration that the sensor is known to hold after the given
/// traffic: what the last completed configuration write left in the register,
/// or the initial configuration if there has been none. A write that failed
/// counts for nothing.
pub open spec fn shadow_after<E>(issued: Seq<Transaction<E>>) -> u8
    decreases issued.len(),
{
    if issued.len() == 0 {
        INITIAL
    } else if is_completed_config_write(issued.last()) {
        settled(issued.last()->bytes[1])
    } else {
        shadow_after(issued.drop_last())
    }
}

/// `register` is one of the sensor's five 16-bit data registers.
pub open spec fn is_data_register(register: u8) -> bool {
    register == UVA || register == UVB || register == UVCOMP1 || register == UVCOMP2 || register
        == DEVICE_ID
}

/// `t` is a call that the sensor's protocol allows: addressed to the sensor,
/// and either a configuration frame with the reserved bit clear or a read of
/// one of the data registers.
pub open spec fn is_protocol_call<E>(t: Transaction<E>) -> bool {
    match t {
        Transaction::Write { address, bytes, .. } => {
            &&& address == DEVICE_ADDRESS
            &&& bytes.len() == 3
            &&& bytes[0] == CONFIG
            &&& bytes[1] & RESERVED == 0
            &&& bytes[2] == 0
        },
        Transaction::WriteRead { address, request, response, .. } => {
            &&& address == DEVICE_ADDRESS
            &&& request.len() == 1
            &&& is_data_register(request[0])
            &&& response.len() == 2
        },
    }
}

/// The shadow `config` and the traffic `issued` belong together: the shadow
/// is a valid configuration, it is the configuration that the sensor is known
/// to hold after the traffic, and every call of the traffic is one that the
/// sensor's protocol allows.
pub open spec fn is_consistent<E>(config: u8, issued: Seq<Transaction<E>>) -> bool {
    &&& is_valid(config)
    &&& config == shadow_after(issued)
    &&& forall|i: int| 0 <= i < issued.len() ==> is_protocol_call(#[trigger] issued[i])
}

/// The register that the `i`-th read of a sweep over the channels goes to.
pub open spec fn channel(i: int) -> u8 {
    if i == 0 {
        UVA
    } else if i == 1 {
        UVB
    } else if i == 2 {
        UVCOMP1
    } else {
        UVCOMP2
    }
}

/// `reads` is the traffic of one sweep over the four channels that returned
/// `r`: the channels are read in the order UVA, UVB, UVCOMP1, UVCOMP2, the
/// sweep stops at the first read that fails, and it returns that read's error
/// or, if all four succeed, the four values.
pub open spec fn is_sweep<E>(
    reads: Seq<Transaction<E>>,
    r: Result<RawMeasurement, Error<E>>,
) -> bool {
    &&& 1 <= reads.len() <= 4
    &&& forall|i: int| 0 <= i < reads.len() ==> is_register_read(#[trigger] reads[i], channel(i))
    &&& forall|i: int| 0 <= i < reads.len() - 1 ==> (#[trigger] reads[i]).result() is Ok
    &&& match r {
        Ok(m) => {
            &&& reads.len() == 4
            &&& reading(reads[0]) == Ok::<u16, Error<E>>(m.uva)
            &&& reading(reads[1]) == Ok::<u16, Error<E>>(m.uvb)
            &&& reading(reads[2]) == Ok::<u16, Error<E>>(m.uvcomp1)
            &&& reading(reads[3]) == Ok::<u16, Error<E>>(m.uvcomp2)
        },
        Err(e) => reading(reads.last()) == Err::<u16, Error<E>>(e),
    }
}

impl<I2C: Transport> Veml6075<I2C> {
    /// The bus that the driver owns.
    pub closed spec fn bus(&self) -> I2C {
        self.i2c
    }

    /// The shadow of the configuration register.
    pub closed spec fn config(&self) -> u8 {
        self.config
    }

    /// How many calls the bus had on record when the driver took it.
    pub closed spec fn taken_at(&self) -> nat {
        self.taken_at@
    }

    /// Every call that the driver has made on the bus, oldest first: what the
    /// bus has on record since the driver took it.
    pub open spec fn issued(&self) -> Seq<Transaction<I2C::Error>> {
        self.bus().traffic().skip(self.taken_at() as int)
    }

    /// The settings that the shadow holds.
    pub open spec fn settings(&self) -> Settings {
        settings_of(self.config())
    }

    /// The record of the bus reaches back to where the driver took the bus,
    /// and the shadow and the driver's traffic so far belong together.
    pub open spec fn inv(&self) -> bool {
        &&& self.taken_at() <= self.bus().traffic().len()
        &&& is_consistent(self.config(), self.issued())
    }

    /// Create new instance of the Veml6075 device. Nothing is sent: the
    /// driver takes the sensor to be shut down until it is enabled.
    pub fn new(i2c: I2C) -> (dev: Self)
        ensures
            dev.bus() == i2c,
            dev.config() == INITIAL,
            dev.settings() == (Settings {
                shutdown: true,
                mode: Mode::Continuous,
                dynamic_setting: DynamicSetting::Normal,
                integration_time: IntegrationTime::Ms50,
            }),
            dev.taken_at() == i2c.traffic().len(),
            dev.issued() == Seq::<Transaction<I2C::Error>>::empty(),
            dev.inv(),
    {
        proof {
            lemma_initial();
        }
        let ghost taken_at = i2c.traffic().len();
        assert(i2c.traffic().skip(taken_at as int) =~= Seq::empty());
        Veml6075 { i2c, config: INITIAL, taken_at: Ghost(taken_at) }
    }

    /// Destroy driver instance, return I²C bus instance. Nothing is sent.
    pub fn destroy(self) -> (i2c: I2C)
        ensures
            i2c == self.bus(),
    {
        self.i2c
    }

    /// Enable the sensor.
    pub fn enable(&mut self) -> (r: Result<(), Error<I2C::Error>>)
        ensures
            final(self).bus().traffic() == old(self).bus().traffic().push(
                config_write(enabled(old(self).config()), transport_result(r)),
            ),
            final(self).taken_at() == old(self).taken_at(),
            final(self).config() == (if r is Ok {
                enabled(old(self).config())
            } else {
                old(self).config()
            }),
            final(self).settings() == (if r is Ok {
                Settings { shutdown: false, ..old(self).settings() }
            } else {
                old(self).settings()
            }),
            old(self).inv() ==> final(self).issued() == old(self).issued().push(
                config_write(enabled(old(self).config()), transport_result(r)),
            ),
            old(self).inv() ==> final(self).inv(),
    {
        let config = enabled(self.config);
        self.write_config(config)
    }

    /// Disable the sensor (shutdown).
    pub fn disable(&mut self) -> (r: Result<(), Error<I2C::Error>>)
        ensures
            final(self).bus().traffic() == old(self).bus().traffic().push(
                config_write(disabled(old(self).config()), transport_result(r)),
            ),
            final(self).taken_at() == old(self).taken_at(),
            final(self).config() == (if r is Ok {
                disabled(old(self).config())
            } else {
                old(self).config()
            }),
            final(self).settings() == (if r is Ok {
                Settings { shutdown: true, ..old(self).settings() }
            } else {
                old(self).settings()
            }),
            old(self).inv() ==> final(self).issued() == old(self).issued().push(
                config_write(disabled(old(self).config()), transport_result(r)),
            ),
            old(self).inv() ==> final(self).inv(),
    {
        let config = disabled(self.config);
        self.write_config(config)
    }

    /// Set operating mode.
    ///
    /// The sensor does not report when a measurement is finished: after a
    /// trigger in active force mode the caller waits out the integration time
    /// before reading.
    pub fn set_mode(&mut self, mode: Mode) -> (r: Result<(), Error<I2C::Error>>)
        ensures
            final(self).bus().traffic() == old(self).bus().traffic().push(
                config_write(with_mode(old(self).config(), mode), transport_result(r)),
            ),
            final(self).taken_at() == old(self).taken_at(),
            final(self).config() == (if r is Ok {
                with_mode(old(self).config(), mode)
            } else {
                old(self).config()
            }),
            final(self).settings() == (if r is Ok {
                Settings { mode, ..old(self).settings() }
            } else {
                old(self).settings()
            }),
            old(self).inv() ==> final(self).issued() == old(self).issued().push(
                config_write(with_mode(old(self).config(), mode), transport_result(r)),
            ),
            old(self).inv() ==> final(self).inv(),
    {
        let config = with_mode(self.config, mode);
        self.write_config(config)
    }

    /// Trigger a measurement when on active force (one-shot) mode.
    ///
    /// The trigger bit is sent but not kept: the sensor clears it by itself,
    /// so the shadow stays as it was whether or not the write succeeds.
    pub fn trigger_measurement(&mut self) -> (r: Result<(), Error<I2C::Error>>)
        ensures
            final(self).bus().traffic() == old(self).bus().traffic().push(
                config_write(triggered(old(self).config()), transport_result(r)),
            ),
            final(self).taken_at() == old(self).taken_at(),
            final(self).config() == old(self).config(),
            old(self).inv() ==> final(self).issued() == old(self).issued().push(
                config_write(triggered(old(self).config()), transport_result(r)),
            ),
            old(self).inv() ==> final(self).inv(),
    {
        let written = triggered(self.config);
        let result = self.send_config(written);
        proof {
            if old(self).inv() {
                lemma_skip_push(
                    old(self).bus().traffic(),
                    old(self).taken_at(),
                    config_write(written, result),
                );
                lemma_trigger_keeps_consistent(old(self).config(), old(self).issued(), result);
            }
        }
        match result {
            Ok(()) => {
                proof {
                    assert(result->Ok_0 == ());
                }
                Ok(())
            },
            Err(e) => Err(Error::I2C(e)),
        }
    }

    /// Set the integration time.
    pub fn set_integration_time(&mut self, it: IntegrationTime) -> (r: Result<
        (),
        Error<I2C::Error>,
    >)
        ensures
            final(self).bus().traffic() == old(self).bus().traffic().push(
                config_write(with_integration_time(old(self).config(), it), transport_result(r)),
            ),
            final(self).taken_at() == old(self).taken_at(),
            final(self).config() == (if r is Ok {
                with_integration_time(old(self).config(), it)
            } else {
                old(self).config()
            }),
            final(self).settings() == (if r is Ok {
                Settings { integration_time: it, ..old(self).settings() }
            } else {
                old(self).settings()
            }),
            old(self).inv() ==> final(self).issued() == old(self).issued().push(
                config_write(with_integration_time(old(self).config(), it), transport_result(r)),
            ),
            old(self).inv() ==> final(self).inv(),
    {
        let config = with_integration_time(self.config, it);
        self.write_config(config)
    }

    /// Set the dynamic setting.
    pub fn set_dynamic_setting(&mut self, ds: DynamicSetting) -> (r: Result<
        (),
        Error<I2C::Error>,
    >)
        ensures
            final(self).bus().traffic() == old(self).bus().traffic().push(
                config_write(with_dynamic_setting(old(self).config(), ds), transport_result(r)),
            ),
            final(self).taken_at() == old(self).taken_at(),
            final(self).config() == (if r is Ok {
                with_dynamic_setting(old(self).config(), ds)
            } else {
                old(self).config()
            }),
            final(self).settings() == (if r is Ok {
                Settings { dynamic_setting: ds, ..old(self).settings() }
            } else {
                old(self).settings()
            }),
            old(self).inv() ==> final(self).issued() == old(self).issued().push(
                config_write(with_dynamic_setting(old(self).config(), ds), transport_result(r)),
            ),
            old(self).inv() ==> final(self).inv(),
    {
        let config = with_dynamic_setting(self.config, ds);
        self.write_config(config)
    }

    /// Read the sensor data of all channels at once.
    ///
    /// The channels are read in the order UVA, UVB, UVCOMP1, UVCOMP2. The
    /// first read that fails ends the sweep with its error; the values read
    /// before it are dropped.
    pub fn read_all(&mut self) -> (r: Result<RawMeasurement, Error<I2C::Error>>)
        ensures
            old(self).bus().traffic().is_prefix_of(final(self).bus().traffic()),
            is_sweep(
                final(self).bus().traffic().skip(old(self).bus().traffic().len() as int),
                r,
            ),
            final(self).taken_at() == old(self).taken_at(),
            final(self).config() == old(self).config(),
            old(self).inv() ==> final(self).issued() == old(self).issued()
                + final(self).bus().traffic().skip(old(self).bus().traffic().len() as int),
            old(self).inv() ==> final(self).inv(),
    {
        let ghost before = self.i2c.traffic();
        let uva = match self.read_register(UVA) {
            Ok(value) => value,
            Err(e) => {
                proof {
                    let reads = self.i2c.traffic().skip(before.len() as int);
                    assert(reads =~= seq![self.i2c.traffic().last()]);
                    assert(old(self).inv() ==> self.issued() =~= old(self).issued() + reads);
                }
                return Err(e);
            },
        };
        let ghost after_uva = self.i2c.traffic();
        let uvb = match self.read_register(UVB) {
            Ok(value) => value,
            Err(e) => {
                proof {
                    let reads = self.i2c.traffic().skip(before.len() as int);
                    assert(reads =~= seq![after_uva.last(), self.i2c.traffic().last()]);
                    assert(old(self).inv() ==> self.issued() =~= old(self).issued() + reads);
                }
                return Err(e);
            },
        };
        let ghost after_uvb = self.i2c.traffic();
        let uvcomp1 = match self.read_register(UVCOMP1) {
            Ok(value) => value,
            Err(e) => {
                proof {
                    let reads = self.i2c.traffic().skip(before.len() as int);
                    assert(reads =~= seq![
                        after_uva.last(),
                        after_uvb.last(),
                        self.i2c.traffic().last(),
                    ]);
                    assert(old(self).inv() ==> self.issued() =~= old(self).issued() + reads);
                }
                return Err(e);
            },
        };
        let ghost after_uvcomp1 = self.i2c.traffic();
        let r = match self.read_register(UVCOMP2) {
            Ok(uvcomp2) => Ok(RawMeasurement { uva, uvb, uvcomp1, uvcomp2 }),
            Err(e) => Err(e),
        };
        proof {
            let reads = self.i2c.traffic().skip(before.len() as int);
            assert(reads =~= seq![
                after_uva.last(),
                after_uvb.last(),
                after_uvcomp1.last(),
                self.i2c.traffic().last(),
            ]);
            assert(old(self).inv() ==> self.issued() =~= old(self).issued() + reads);
        }
        r
    }

    /// Read the UVA sensor data.
    pub fn read_uva(&mut self) -> (r: Result<u16, Error<I2C::Error>>)
        ensures
            final(self).bus().traffic() == old(self).bus().traffic().push(
                final(self).bus().traffic().last(),
            ),
            is_register_read(final(self).bus().traffic().last(), UVA),
            r == reading(final(self).bus().traffic().last()),
            final(self).taken_at() == old(self).taken_at(),
            final(self).config() == old(self).config(),
            old(self).inv() ==> final(self).issued() == old(self).issued().push(
                final(self).bus().traffic().last(),
            ),
            old(self).inv() ==> final(self).inv(),
    {
        self.read_register(UVA)
    }

    /// Read the UVB sensor data.
    pub fn read_uvb(&mut self) -> (r: Result<u16, Error<I2C::Error>>)
        ensures
            final(self).bus().traffic() == old(self).bus().traffic().push(
                final(self).bus().traffic().last(),
            ),
            is_register_read(final(self).bus().traffic().last(), UVB),
            r == reading(final(self).bus().traffic().last()),
            final(self).taken_at() == old(self).taken_at(),
            final(self).config() == old(self).config(),
            old(self).inv() ==> final(self).issued() == old(self).issued().push(
                final(self).bus().traffic().last(),
            ),
            old(self).inv() ==> final(self).inv(),
    {
        self.read_register(UVB)
    }

    /// Read the UVcomp1 sensor data.
    pub fn read_uvcomp1(&mut self) -> (r: Result<u16, Error<I2C::Error>>)
        ensures
            final(self).bus().traffic() == old(self).bus().traffic().push(
                final(self).bus().traffic().last(),
            ),
            is_register_read(final(self).bus().traffic().last(), UVCOMP1),
            r == reading(final(self).bus().traffic().last()),
            final(self).taken_at() == old(self).taken_at(),
            final(self).config() == old(self).config(),
            old(self).inv() ==> final(self).issued() == old(self).issued().push(
                final(self).bus().traffic().last(),
            ),
            old(self).inv() ==> final(self).inv(),
    {
        self.read_register(UVCOMP1)
    }

    /// Read the UVcomp2 sensor data.
    pub fn read_uvcomp2(&mut self) -> (r: Result<u16, Error<I2C::Error>>)
        ensures
            final(self).bus().traffic() == old(self).bus().traffic().push(
                final(self).bus().traffic().last(),
            ),
            is_register_read(final(self).bus().traffic().last(), UVCOMP2),
            r == reading(final(self).bus().traffic().last()),
            final(self).taken_at() == old(self).taken_at(),
            final(self).config() == old(self).config(),
            old(self).inv() ==> final(self).issued() == old(self).issued().push(
                final(self).bus().traffic().last(),
            ),
            old(self).inv() ==> final(self).inv(),
    {
        self.read_register(UVCOMP2)
    }

    /// Read the device ID.
    pub fn read_device_id(&mut self) -> (r: Result<u16, Error<I2C::Error>>)
        ensures
            final(self).bus().traffic() == old(self).bus().traffic().push(
                final(self).bus().traffic().last(),
            ),
            is_register_read(final(self).bus().traffic().last(), DEVICE_ID),
            r == reading(final(self).bus().traffic().last()),
            final(self).taken_at() == old(self).taken_at(),
            final(self).config() == old(self).config(),
            old(self).inv() ==> final(self).issued() == old(self).issued().push(
                final(self).bus().traffic().last(),
            ),
            old(self).inv() ==> final(self).inv(),
    {
        self.read_register(DEVICE_ID)
    }

    /// Reads the 16-bit register at `register` in one write-then-read
    /// transaction.
    fn read_register(&mut self, register: u8) -> (r: Result<u16, Error<I2C::Error>>)
        requires
            is_data_register(register),
        ensures
            final(self).bus().traffic() == old(self).bus().traffic().push(
                final(self).bus().traffic().last(),
            ),
            is_register_read(final(self).bus().traffic().last(), register),
            r == reading(final(self).bus().traffic().last()),
            final(self).taken_at() == old(self).taken_at(),
            final(self).config() == old(self).config(),
            old(self).inv() ==> final(self).issued() == old(self).issued().push(
                final(self).bus().traffic().last(),
            ),
            old(self).inv() ==> final(self).inv(),
    {
        let request: [u8; 1] = [register];
        let mut response: [u8; 2] = [0, 0];
        let result = self.i2c.write_read(DEVICE_ADDRESS, &request, &mut response);
        proof {
            let before = old(self).bus().traffic();
            let t = self.i2c.traffic().last();
            assert(request@ =~= seq![register]);
            if old(self).inv() {
                lemma_skip_push(before, old(self).taken_at(), t);
                lemma_read_keeps_consistent(old(self).config(), old(self).issued(), t);
            }
        }
        match result {
            Ok(()) => Ok(register_value(&response)),
            Err(e) => Err(Error::I2C(e)),
        }
    }

    /// Writes `value` to the configuration register and, if the bus reports
    /// success, takes it as the new shadow.
    fn write_config(&mut self, value: u8) -> (r: Result<(), Error<I2C::Error>>)
        ensures
            final(self).bus().traffic() == old(self).bus().traffic().push(
                config_write(value, transport_result(r)),
            ),
            final(self).taken_at() == old(self).taken_at(),
            final(self).config() == (if r is Ok {
                value
            } else {
                old(self).config()
            }),
            old(self).inv() ==> final(self).issued() == old(self).issued().push(
                config_write(value, transport_result(r)),
            ),
            old(self).inv() && is_valid(value) ==> final(self).inv(),
    {
        let result = self.send_config(value);
        proof {
            if old(self).inv() {
                lemma_skip_push(
                    old(self).bus().traffic(),
                    old(self).taken_at(),
                    config_write(value, result),
                );
                if is_valid(value) {
                    lemma_config_write_keeps_consistent(
                        old(self).config(),
                        old(self).issued(),
                        value,
                        result,
                    );
                }
            }
        }
        match result {
            Ok(()) => {
                proof {
                    assert(result->Ok_0 == ());
                }
                self.config = value;
                Ok(())
            },
            Err(e) => Err(Error::I2C(e)),
        }
    }

    /// Sends the configuration frame for `value` to the sensor.
    fn send_config(&mut self, value: u8) -> (result: Result<(), I2C::Error>)
        ensures
            final(self).bus().traffic() == old(self).bus().traffic().push(
                config_write(value, result),
            ),
            final(self).taken_at() == old(self).taken_at(),
            final(self).config() == old(self).config(),
    {
        let frame = config_frame(value);
        self.i2c.write(DEVICE_ADDRESS, &frame)
    }
}

/// Taking the part of a record from a fixed place on, and adding a call to
/// the record, can be done in either order.
pub proof fn lemma_skip_push<E>(traffic: Seq<Transaction<E>>, from: nat, t: Transaction<E>)
    requires
        from <= traffic.len(),
    ensures
        traffic.push(t).skip(from as int) == traffic.skip(from as int).push(t),
{
    assert(traffic.push(t).skip(from as int) =~= traffic.skip(from as int).push(t));
}

/// A completed configuration write leaves its value, with the trigger bit
/// cleared, as the known configuration; a failed one leaves the known
/// configuration as it was.
pub proof fn lemma_shadow_after_config_write<E>(
    issued: Seq<Transaction<E>>,
    value: u8,
    result: Result<(), E>,
)
    ensures
        shadow_after(issued.push(config_write(value, result))) == (if result is Ok {
            settled(value)
        } else {
            shadow_after(issued)
        }),
{
    let t = config_write(value, result);
    assert(issued.push(t).drop_last() =~= issued);
    assert(issued.push(t).last() == t);
}

/// A register read leaves the known configuration as it was.
pub proof fn lemma_shadow_after_read<E>(issued: Seq<Transaction<E>>, t: Transaction<E>)
    requires
        t is WriteRead,
    ensures
        shadow_after(issued.push(t)) == shadow_after(issued),
{
    assert(issued.push(t).drop_last() =~= issued);
    assert(issued.push(t).last() == t);
}

/// Writing a valid configuration keeps shadow and traffic together, whatever
/// the bus returns: on success the written value is the new shadow, on
/// failure the shadow stays.
pub proof fn lemma_config_write_keeps_consistent<E>(
    config: u8,
    issued: Seq<Transaction<E>>,
    value: u8,
    result: Result<(), E>,
)
    requires
        is_consistent(config, issued),
        is_valid(value),
    ensures
        is_consistent(
            if result is Ok {
                value
            } else {
                config
            },
            issued.push(config_write(value, result)),
        ),
{
    lemma_shadow_after_config_write(issued, value, result);
    assert(value & RESERVED == 0 && value & !TRIGGER == value) by (bit_vector)
        requires
            value & (TRIGGER | RESERVED) == 0,
    ;
    assert(is_protocol_call(config_write(value, result)));
}

/// Triggering a measurement keeps shadow and traffic together, whatever the
/// bus returns, with the shadow unchanged: the trigger bit that was written
/// does not stay in the register.
pub proof fn lemma_trigger_keeps_consistent<E>(
    config: u8,
    issued: Seq<Transaction<E>>,
    result: Result<(), E>,
)
    requires
        is_consistent(config, issued),
    ensures
        is_consistent(config, issued.push(config_write(triggered(config), result))),
{
    let written: u8 = config | TRIGGER;
    lemma_shadow_after_config_write(issued, written, result);
    assert(written & RESERVED == 0 && written & !TRIGGER == config) by (bit_vector)
        requires
            written == config | TRIGGER,
            config & (TRIGGER | RESERVED) == 0,
    ;
    assert(is_protocol_call(config_write(written, result)));
}

/// Reading a data register keeps shadow and traffic together, whatever the
/// bus returns, with the shadow unchanged.
pub proof fn lemma_read_keeps_consistent<E>(
    config: u8,
    issued: Seq<Transaction<E>>,
    t: Transaction<E>,
)
    requires
        is_consistent(config, issued),
        t is WriteRead,
        is_protocol_call(t),
    ensures
        is_consistent(config, issued.push(t)),
{
    lemma_shadow_after_read(issued, t);
}

} // verus!
