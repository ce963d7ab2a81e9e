//! The protocol engine: an ordered stream of bus transactions becomes
//! register reads and writes against two sensor channels and the LED
//! register, with at most one escalation request per drain.
//!
//! The engine is a two-state machine. In the idle state a received byte is
//! a command code: a read stages a two-byte big-endian response, a write
//! command makes the engine await its value, the persistence sentinel
//! snapshots both calibrations, and an unknown code stages the calibrated
//! moisture value as a defined fallback. While a write is pending, the
//! next received frame is always the two-byte big-endian value, never a
//! new command.
//!
//! The whole drain has a specification of its own, `run`: a pure function
//! from the engine state and the pending transactions to the final state,
//! the transmitted frames, the number of transactions consumed and the
//! request handed out. `App::poll` is proved to realise `run` whenever the
//! transport reports no fault.

use vstd::prelude::*;
use crate::command::{
    READ_MOISTURE, READ_MOISTURE_RAW, READ_MOISTURE_OFFSET, READ_MOISTURE_SLOPE,
    WRITE_MOISTURE_OFFSET, WRITE_MOISTURE_SLOPE, READ_ILLUMINANCE, READ_ILLUMINANCE_RAW,
    READ_ILLUMINANCE_OFFSET, READ_ILLUMINANCE_SLOPE, WRITE_ILLUMINANCE_OFFSET,
    WRITE_ILLUMINANCE_SLOPE, READ_LED, WRITE_LED, SAVE_NVM,
};
use crate::config::{Config, SensorConfig};
use crate::sensor::SensorState;

verus! {

/// A 7-bit slave address as the bus reports it.
pub type Address = u8;

/// One bus notification: the master addressed us to send bytes (`Rx`) or
/// to read bytes (`Tx`).
pub enum BusEvent {
    Rx(Address),
    Tx(Address),
}

/// An escalation from one drain: drive the LED with these components, or
/// persist this calibration snapshot.
pub enum AppRequest {
    SetLedColor([u8; 3]),
    SaveConfig(Config),
}

/// The spec-level picture of one pending transaction: the bytes the master
/// writes, or a read the slave must serve.
pub enum SlaveEvent {
    Rx(Seq<u8>),
    Tx,
}

/// The spec-level picture of the request a drain hands out.
pub enum RequestView {
    NoRequest,
    LedColor(u8, u8, u8),
    Persist(Config),
}

/// Whether an emitted request is the one the drain's specification names.
pub open spec fn request_matches(v: RequestView, r: Option<AppRequest>) -> bool {
    match v {
        RequestView::NoRequest => r is None,
        RequestView::LedColor(a, b, c) => (r matches Some(AppRequest::SetLedColor(rgb))
            && rgb@ == seq![a, b, c]),
        RequestView::Persist(cfg) => (r matches Some(AppRequest::SaveConfig(c)) && c == cfg),
    }
}

/// A byte-oriented I2C slave transport. The specification models it as a
/// script of pending transactions, oldest first, plus the log of frames
/// already transmitted; `poll` peeks at the head of the script and `rx` /
/// `tx` consume it. Any method may report a transport fault instead, and
/// nothing is promised of the model when one does.
pub trait I2CPeripheral: Sized {
    type Error;

    /// The transactions still pending, oldest first.
    spec fn script(&self) -> Seq<SlaveEvent>;

    /// Every frame transmitted to the master so far, oldest first.
    spec fn sent(&self) -> Seq<Seq<u8>>;

    /// Look at the next pending transaction without consuming it.
    fn poll(&mut self) -> (r: Result<Option<BusEvent>, Self::Error>)
        ensures
            final(self).script() == old(self).script(),
            final(self).sent() == old(self).sent(),
            (match r {
                Ok(Some(BusEvent::Rx(_))) => old(self).script().len() > 0 && old(
                    self,
                ).script()[0] is Rx,
                Ok(Some(BusEvent::Tx(_))) => old(self).script().len() > 0 && old(
                    self,
                ).script()[0] is Tx,
                Ok(None) => old(self).script().len() == 0,
                Err(_) => true,
            }),
    ;

    /// Receive the pending frame from the master; it must be exactly `n`
    /// bytes long.
    fn rx(&mut self, n: usize) -> (r: Result<Vec<u8>, Self::Error>)
        ensures
            (match r {
                Ok(v) => old(self).script().len() > 0 && (old(
                    self,
                ).script()[0] matches SlaveEvent::Rx(bytes)
                    && v@ == bytes) && v.len() == n && final(self).script() == old(
                    self,
                ).script().skip(1) && final(self).sent() == old(self).sent(),
                Err(_) => true,
            }),
    ;

    /// Transmit a frame to the reading master.
    fn tx(&mut self, bytes: &[u8]) -> (r: Result<(), Self::Error>)
        ensures
            (match r {
                Ok(_) => old(self).script().len() > 0 && old(self).script()[0] is Tx
                    && final(self).script() == old(self).script().skip(1) && final(self).sent()
                    == old(self).sent().push(bytes@),
                Err(_) => true,
            }),
    ;

    /// Clear any latched peripheral condition; the pending transactions
    /// and the transmit log are untouched.
    fn flush(&mut self) -> (r: Result<(), Self::Error>)
        ensures
            final(self).script() == old(self).script(),
            final(self).sent() == old(self).sent(),
    ;
}

/// The protocol engine and the registers it serves: two sensor channels,
/// the LED color register, the staged two-byte response, and the pending
/// write command, if a two-phase write is half done.
pub struct App {
    pub moisture: SensorState,
    pub illuminance: SensorState,
    pub led_color: u16,
    pub write_pend: Option<u8>,
    pub scratch: (u8, u8),
}

/// Whether a command byte opens a two-phase write.
pub open spec fn is_write_command(cmd: u8) -> bool {
    cmd == WRITE_MOISTURE_OFFSET || cmd == WRITE_MOISTURE_SLOPE || cmd == WRITE_ILLUMINANCE_OFFSET
        || cmd == WRITE_ILLUMINANCE_SLOPE || cmd == WRITE_LED
}

/// The high byte of a big-endian pair.
pub open spec fn be_hi(x: u16) -> u8 {
    (x >> 8) as u8
}

/// The low byte of a big-endian pair.
pub open spec fn be_lo(x: u16) -> u8 {
    (x & 0xff) as u8
}

/// A 16-bit value read big endian from two bytes.
pub open spec fn word_be(hi: u8, lo: u8) -> u16 {
    ((hi as u16) << 8) | (lo as u16)
}

/// The three 4-bit LED components packed into a color value: low nibble
/// first, then the next two nibbles up.
pub open spec fn led_components(value: u16) -> (u8, u8, u8) {
    ((value & 0x0f) as u8, ((value >> 4) & 0x0f) as u8, ((value >> 8) & 0x0f) as u8)
}

/// The engine after a two-phase write completes with the given value: the
/// pending command is cleared and the addressed register is overwritten.
/// A pending byte that addresses no write register clears without effect.
pub open spec fn apply_write(app: App, cmd: u8, value: u16) -> App {
    let cleared = App { write_pend: None, ..app };
    if cmd == WRITE_MOISTURE_OFFSET {
        App {
            moisture: SensorState {
                cfg: SensorConfig { offset: value, ..app.moisture.cfg },
                ..app.moisture
            },
            ..cleared
        }
    } else if cmd == WRITE_MOISTURE_SLOPE {
        App {
            moisture: SensorState {
                cfg: SensorConfig { slope: value, ..app.moisture.cfg },
                ..app.moisture
            },
            ..cleared
        }
    } else if cmd == WRITE_ILLUMINANCE_OFFSET {
        App {
            illuminance: SensorState {
                cfg: SensorConfig { offset: value, ..app.illuminance.cfg },
                ..app.illuminance
            },
            ..cleared
        }
    } else if cmd == WRITE_ILLUMINANCE_SLOPE {
        App {
            illuminance: SensorState {
                cfg: SensorConfig { slope: value, ..app.illuminance.cfg },
                ..app.illuminance
            },
            ..cleared
        }
    } else if cmd == WRITE_LED {
        App { led_color: value, ..cleared }
    } else {
        cleared
    }
}

/// The register a read command addresses, as a 16-bit value; an
/// unrecognized code falls back to the calibrated moisture value.
pub open spec fn read_register(app: App, cmd: u8) -> u16 {
    if cmd == READ_MOISTURE {
        app.moisture.spec_val()
    } else if cmd == READ_MOISTURE_RAW {
        app.moisture.raw
    } else if cmd == READ_MOISTURE_OFFSET {
        app.moisture.cfg.offset
    } else if cmd == READ_MOISTURE_SLOPE {
        app.moisture.cfg.slope
    } else if cmd == READ_ILLUMINANCE {
        app.illuminance.spec_val()
    } else if cmd == READ_ILLUMINANCE_RAW {
        app.illuminance.raw
    } else if cmd == READ_ILLUMINANCE_OFFSET {
        app.illuminance.cfg.offset
    } else if cmd == READ_ILLUMINANCE_SLOPE {
        app.illuminance.cfg.slope
    } else if cmd == READ_LED {
        app.led_color
    } else {
        app.moisture.spec_val()
    }
}

/// The two big-endian response bytes a read command stages.
pub open spec fn read_response(app: App, cmd: u8) -> (u8, u8) {
    (be_hi(read_register(app, cmd)), be_lo(read_register(app, cmd)))
}

/// The calibration snapshot the persistence sentinel hands out.
pub open spec fn config_snapshot(app: App) -> Config {
    Config { moisture: app.moisture.cfg, illuminance: app.illuminance.cfg }
}

/// Everything one full drain produces: the engine afterwards, the frames
/// transmitted, the number of transactions consumed, and the request
/// handed out.
pub struct RunOutcome {
    pub app: App,
    pub sent: Seq<Seq<u8>>,
    pub used: nat,
    pub request: RequestView,
}

/// The meaning of one full drain: process the pending transactions in
/// order, stopping as soon as a request is emitted. A received frame of
/// the wrong width makes the transport fault instead, so the drain's value
/// on such a script is never realised; it is defined to stop there.
pub open spec fn run(app: App, script: Seq<SlaveEvent>) -> RunOutcome
    decreases script.len(),
{
    if script.len() == 0 {
        RunOutcome { app, sent: Seq::empty(), used: 0, request: RequestView::NoRequest }
    } else {
        match script[0] {
            SlaveEvent::Tx => {
                let rest = run(app, script.skip(1));
                RunOutcome {
                    app: rest.app,
                    sent: seq![seq![app.scratch.0, app.scratch.1]] + rest.sent,
                    used: rest.used + 1,
                    request: rest.request,
                }
            },
            SlaveEvent::Rx(bytes) => match app.write_pend {
                Some(cmd) => {
                    if bytes.len() == 2 {
                        let value = word_be(bytes[0], bytes[1]);
                        let next = apply_write(app, cmd, value);
                        if cmd == WRITE_LED {
                            let rgb = led_components(value);
                            RunOutcome {
                                app: next,
                                sent: Seq::empty(),
                                used: 1,
                                request: RequestView::LedColor(rgb.0, rgb.1, rgb.2),
                            }
                        } else {
                            let rest = run(next, script.skip(1));
                            RunOutcome {
                                app: rest.app,
                                sent: rest.sent,
                                used: rest.used + 1,
                                request: rest.request,
                            }
                        }
                    } else {
                        RunOutcome {
                            app,
                            sent: Seq::empty(),
                            used: 0,
                            request: RequestView::NoRequest,
                        }
                    }
                },
                None => {
                    if bytes.len() == 1 {
                        let cmd = bytes[0];
                        if is_write_command(cmd) {
                            let rest = run(App { write_pend: Some(cmd), ..app }, script.skip(1));
                            RunOutcome {
                                app: rest.app,
                                sent: rest.sent,
                                used: rest.used + 1,
                                request: rest.request,
                            }
                        } else if cmd == SAVE_NVM {
                            RunOutcome {
                                app,
                                sent: Seq::empty(),
                                used: 1,
                                request: RequestView::Persist(config_snapshot(app)),
                            }
                        } else {
                            let rest = run(App { scratch: read_response(app, cmd), ..app }, script.skip(1));
                            RunOutcome {
                                app: rest.app,
                                sent: rest.sent,
                                used: rest.used + 1,
                                request: rest.request,
                            }
                        }
                    } else {
                        RunOutcome {
                            app,
                            sent: Seq::empty(),
                            used: 0,
                            request: RequestView::NoRequest,
                        }
                    }
                },
            },
        }
    }
}

impl App {
    /// A fresh engine: idle, LED dark, response staged as zero, channels
    /// built from the loaded calibration with no sample yet.
    pub fn new(cfg: Config) -> (r: Self)
        ensures
            r == (App {
                moisture: SensorState { raw: 0, cfg: cfg.moisture },
                illuminance: SensorState { raw: 0, cfg: cfg.illuminance },
                led_color: 0,
                write_pend: None,
                scratch: (0u8, 0u8),
            }),
    {
        Self {
            moisture: SensorState::new(cfg.moisture),
            illuminance: SensorState::new(cfg.illuminance),
            led_color: 0,
            write_pend: None,
            scratch: (0, 0),
        }
    }

    /// Store fresh raw samples into both channels.
    pub fn push_samples(&mut self, moisture: u16, illuminance: u16)
        ensures
            *final(self) == (App {
                moisture: SensorState { raw: moisture, ..old(self).moisture },
                illuminance: SensorState { raw: illuminance, ..old(self).illuminance },
                ..*old(self)
            }),
    {
        self.moisture.update(moisture);
        self.illuminance.update(illuminance);
    }

    /// Drain the transport. When every transport call succeeds, the engine,
    /// the transmitted frames, the consumed transactions and the returned
    /// request are exactly what `run` names for the starting state and the
    /// pending script; a transport fault is propagated unchanged, with
    /// nothing promised of the partial progress it interrupted.
    #[verifier::loop_isolation(false)]
    pub fn poll<T: I2CPeripheral>(&mut self, i2c: &mut T) -> (r: Result<
        Option<AppRequest>,
        T::Error,
    >)
        ensures
            (match r {
                Ok(req) => ({
                    let out = run(*old(self), old(i2c).script());
                    &&& *final(self) == out.app
                    &&& request_matches(out.request, req)
                    &&& final(i2c).script() == old(i2c).script().skip(out.used as int)
                    &&& final(i2c).sent() == old(i2c).sent() + out.sent
                }),
                Err(_) => true,
            }),
    {
        let ghost app0 = *self;
        let ghost script0 = i2c.script();
        let ghost sent0 = i2c.sent();
        let ghost mut used: nat = 0;
        let ghost mut sent_acc: Seq<Seq<u8>> = Seq::empty();
        proof {
            assert(script0.skip(0) =~= script0);
            assert(sent0 + sent_acc =~= sent0);
        }
        loop
            invariant
                used <= script0.len(),
                i2c.script() == script0.skip(used as int),
                i2c.sent() == sent0 + sent_acc,
                run(app0, script0).app == run(*self, i2c.script()).app,
                run(app0, script0).request == run(*self, i2c.script()).request,
                run(app0, script0).sent == sent_acc + run(*self, i2c.script()).sent,
                run(app0, script0).used == used + run(*self, i2c.script()).used,
            decreases script0.len() - used,
        {
            let ghost pre_self = *self;
            let ghost pre_script = i2c.script();
            match i2c.poll()? {
                None => {
                    i2c.flush()?;
                    proof {
                        assert(run(pre_self, pre_script) == RunOutcome {
                            app: pre_self,
                            sent: Seq::<Seq<u8>>::empty(),
                            used: 0nat,
                            request: RequestView::NoRequest,
                        });
                        assert(sent_acc + Seq::<Seq<u8>>::empty() =~= sent_acc);
                    }
                    return Ok(None);
                },
                Some(BusEvent::Tx(_)) => {
                    let frame: [u8; 2] = [self.scratch.0, self.scratch.1];
                    i2c.tx(frame.as_slice())?;
                    proof {
                        assert(frame@ =~= seq![pre_self.scratch.0, pre_self.scratch.1]);
                        let rest = run(pre_self, pre_script.skip(1));
                        assert(run(pre_self, pre_script) == RunOutcome {
                            app: rest.app,
                            sent: seq![frame@] + rest.sent,
                            used: rest.used + 1,
                            request: rest.request,
                        });
                        assert(sent_acc + (seq![frame@] + rest.sent) =~= sent_acc.push(frame@)
                            + rest.sent);
                        used = used + 1;
                        sent_acc = sent_acc.push(frame@);
                        assert(i2c.script() =~= script0.skip(used as int));
                    }
                },
                Some(BusEvent::Rx(_)) => {
                    if let Some(cmd) = self.write_pend {
                        self.write_pend = None;
                        let inbox = i2c.rx(2)?;
                        let value: u16 = ((inbox[0] as u16) << 8) | (inbox[1] as u16);
                        proof {
                            let bytes = pre_script[0]->Rx_0;
                            assert(value == word_be(bytes[0], bytes[1]));
                        }
                        if cmd == WRITE_MOISTURE_OFFSET {
                            self.moisture.cfg.offset = value;
                        } else if cmd == WRITE_MOISTURE_SLOPE {
                            self.moisture.cfg.slope = value;
                        } else if cmd == WRITE_ILLUMINANCE_OFFSET {
                            self.illuminance.cfg.offset = value;
                        } else if cmd == WRITE_ILLUMINANCE_SLOPE {
                            self.illuminance.cfg.slope = value;
                        } else if cmd == WRITE_LED {
                            self.led_color = value;
                            let rgb: [u8; 3] = [
                                (value & 0x0f) as u8,
                                ((value >> 4) & 0x0f) as u8,
                                ((value >> 8) & 0x0f) as u8,
                            ];
                            proof {
                                let bytes = pre_script[0]->Rx_0;
                                assert(*self == apply_write(pre_self, cmd, value));
                                assert(run(pre_self, pre_script).used == 1);
                                assert(rgb@ =~= seq![
                                    led_components(value).0,
                                    led_components(value).1,
                                    led_components(value).2,
                                ]);
                                assert(i2c.script() =~= script0.skip((used + 1) as int));
                                assert(sent_acc + Seq::<Seq<u8>>::empty() =~= sent_acc);
                            }
                            return Ok(Some(AppRequest::SetLedColor(rgb)));
                        }
                        proof {
                            assert(*self == apply_write(pre_self, cmd, value));
                            used = used + 1;
                            assert(i2c.script() =~= script0.skip(used as int));
                        }
                    } else {
                        let inbox = i2c.rx(1)?;
                        let cmd: u8 = inbox[0];
                        proof {
                            let bytes = pre_script[0]->Rx_0;
                            assert(cmd == bytes[0]);
                        }
                        if cmd == WRITE_MOISTURE_OFFSET || cmd == WRITE_MOISTURE_SLOPE || cmd
                            == WRITE_ILLUMINANCE_OFFSET || cmd == WRITE_ILLUMINANCE_SLOPE || cmd
                            == WRITE_LED {
                            self.write_pend = Some(cmd);
                            proof {
                                assert(*self == (App { write_pend: Some(cmd), ..pre_self }));
                                used = used + 1;
                                assert(i2c.script() =~= script0.skip(used as int));
                            }
                        } else if cmd == SAVE_NVM {
                            let cfg = Config::new(self.moisture.cfg, self.illuminance.cfg);
                            proof {
                                assert(run(pre_self, pre_script).used == 1);
                                assert(i2c.script() =~= script0.skip((used + 1) as int));
                                assert(sent_acc + Seq::<Seq<u8>>::empty() =~= sent_acc);
                            }
                            return Ok(Some(AppRequest::SaveConfig(cfg)));
                        } else {
                            let val: u16 = if cmd == READ_MOISTURE {
                                self.moisture.val()
                            } else if cmd == READ_MOISTURE_RAW {
                                self.moisture.raw()
                            } else if cmd == READ_MOISTURE_OFFSET {
                                self.moisture.cfg.offset
                            } else if cmd == READ_MOISTURE_SLOPE {
                                self.moisture.cfg.slope
                            } else if cmd == READ_ILLUMINANCE {
                                self.illuminance.val()
                            } else if cmd == READ_ILLUMINANCE_RAW {
                                self.illuminance.raw()
                            } else if cmd == READ_ILLUMINANCE_OFFSET {
                                self.illuminance.cfg.offset
                            } else if cmd == READ_ILLUMINANCE_SLOPE {
                                self.illuminance.cfg.slope
                            } else if cmd == READ_LED {
                                self.led_color
                            } else {
                                self.moisture.val()
                            };
                            self.scratch = ((val >> 8) as u8, (val & 0xff) as u8);
                            proof {
                                assert(val == read_register(pre_self, cmd));
                                assert(*self == (App {
                                    scratch: read_response(pre_self, cmd),
                                    ..pre_self
                                }));
                                used = used + 1;
                                assert(i2c.script() =~= script0.skip(used as int));
                            }
                        }
                    }
                },
            }
        }
    }

    /// The moisture channel, for the sampling collaborator.
    pub fn moisture(&mut self) -> (r: &mut SensorState)
        ensures
            *r == old(self).moisture,
            *final(self) == (App { moisture: *final(r), ..*old(self) }),
    {
        &mut self.moisture
    }

    /// The illuminance channel, for the sampling collaborator.
    pub fn illuminance(&mut self) -> (r: &mut SensorState)
        ensures
            *r == old(self).illuminance,
            *final(self) == (App { illuminance: *final(r), ..*old(self) }),
    {
        &mut self.illuminance
    }
}

/// Law: in the idle state the persistence sentinel stops the drain at
/// once: exactly one transaction is consumed, whatever else is queued,
/// and the snapshot of the current calibration is handed out.
pub proof fn lemma_save_stops_drain(app: App, script: Seq<SlaveEvent>)
    requires
        app.write_pend is None,
        script.len() > 0,
        script[0] == SlaveEvent::Rx(seq![SAVE_NVM]),
    ensures
        run(app, script) == (RunOutcome {
            app,
            sent: Seq::<Seq<u8>>::empty(),
            used: 1,
            request: RequestView::Persist(config_snapshot(app)),
        }),
{
}

/// Law: the value frame of a LED write stops the drain at once: the color
/// register takes the big-endian value, exactly one transaction is
/// consumed, whatever else is queued, and the three 4-bit components of
/// the value are handed out.
pub proof fn lemma_led_write_stops_drain(app: App, script: Seq<SlaveEvent>, hi: u8, lo: u8)
    requires
        app.write_pend == Some(WRITE_LED),
        script.len() > 0,
        script[0] == SlaveEvent::Rx(seq![hi, lo]),
    ensures
        ({
            let value = word_be(hi, lo);
            run(app, script) == (RunOutcome {
                app: apply_write(app, WRITE_LED, value),
                sent: Seq::<Seq<u8>>::empty(),
                used: 1,
                request: RequestView::LedColor(
                    led_components(value).0,
                    led_components(value).1,
                    led_components(value).2,
                ),
            })
        }),
{
}

/// Law: in the idle state a read command followed by a read transaction
/// consumes both, emits no request, and transmits the addressed register
/// big endian; an unrecognized command transmits the calibrated moisture
/// value, since `read_register` falls back to it.
pub proof fn lemma_read_then_transmit(app: App, cmd: u8)
    requires
        app.write_pend is None,
        !is_write_command(cmd),
        cmd != SAVE_NVM,
    ensures
        ({
            let out = run(app, seq![SlaveEvent::Rx(seq![cmd]), SlaveEvent::Tx]);
            &&& out.used == 2
            &&& out.request == RequestView::NoRequest
            &&& out.sent == seq![seq![be_hi(read_register(app, cmd)), be_lo(read_register(app, cmd))]]
            &&& out.app == (App { scratch: read_response(app, cmd), ..app })
        }),
{
    reveal_with_fuel(run, 3);
    let script = seq![SlaveEvent::Rx(seq![cmd]), SlaveEvent::Tx];
    let staged = App { scratch: read_response(app, cmd), ..app };
    assert(script.skip(1) =~= seq![SlaveEvent::Tx]);
    assert(seq![SlaveEvent::Tx].skip(1) =~= Seq::<SlaveEvent>::empty());
    let out = run(app, script);
    assert(out.sent =~= seq![seq![staged.scratch.0, staged.scratch.1]]);
}

/// Law: in the idle state a two-phase register write other than the LED
/// consumes its two transactions, transmits nothing, emits no request,
/// returns the engine to idle, and overwrites exactly the addressed
/// register with the big-endian value.
pub proof fn lemma_two_phase_write(app: App, cmd: u8, hi: u8, lo: u8)
    requires
        app.write_pend is None,
        is_write_command(cmd),
        cmd != WRITE_LED,
    ensures
        ({
            let out = run(app, seq![SlaveEvent::Rx(seq![cmd]), SlaveEvent::Rx(seq![hi, lo])]);
            &&& out.used == 2
            &&& out.request == RequestView::NoRequest
            &&& out.sent == Seq::<Seq<u8>>::empty()
            &&& out.app == apply_write(App { write_pend: Some(cmd), ..app }, cmd, word_be(hi, lo))
            &&& out.app.write_pend is None
        }),
{
    reveal_with_fuel(run, 3);
    let script = seq![SlaveEvent::Rx(seq![cmd]), SlaveEvent::Rx(seq![hi, lo])];
    assert(script.skip(1) =~= seq![SlaveEvent::Rx(seq![hi, lo])]);
    assert(seq![SlaveEvent::Rx(seq![hi, lo])].skip(1) =~= Seq::<SlaveEvent>::empty());
    let out = run(app, script);
    assert(out.sent =~= Seq::<Seq<u8>>::empty());
}

} // verus!
