//! An in-memory bus transport: a scripted master session.
//!
//! The simulated peripheral holds the transactions a master would perform,
//! oldest first, and a log of every frame the slave transmitted. It
//! realises the `I2CPeripheral` model exactly: `poll` peeks at the head of
//! the script, `rx` and `tx` consume it, and a frame of the wrong width or
//! a transaction of the wrong direction is reported as a transport fault.

use vstd::prelude::*;
use crate::engine::{Address, BusEvent, I2CPeripheral, SlaveEvent};

verus! {

/// The slave address the simulated peripheral reports for every event.
pub const ADDRESS: Address = 0x22;

/// The transport fault taxonomy of the bus: all are propagated out of a
/// drain and none is fatal to the engine.
#[derive(Debug, Clone, Copy, PartialEq, Eq, Structural)]
pub enum TransportError {
    Overrun,
    Nack,
    PecFault,
    BusFault,
    ArbitrationLost,
    IncorrectFrameSize(usize),
}

/// One scripted transaction: bytes the master writes, or a read it makes.
pub enum SimEvent {
    Rx(Vec<u8>),
    Tx,
}

/// The spec-level picture of one scripted transaction.
pub open spec fn sim_event_view(e: SimEvent) -> SlaveEvent {
    match e {
        SimEvent::Rx(v) => SlaveEvent::Rx(v@),
        SimEvent::Tx => SlaveEvent::Tx,
    }
}

/// A scripted master session and the log of transmitted frames.
pub struct SimTransport {
    events: Vec<SimEvent>,
    frames: Vec<Vec<u8>>,
}

impl SimTransport {
    /// An idle bus: nothing pending, nothing transmitted.
    pub fn new() -> (r: Self)
        ensures
            r.script() == Seq::<SlaveEvent>::empty(),
            r.sent() == Seq::<Seq<u8>>::empty(),
    {
        let r = SimTransport { events: Vec::new(), frames: Vec::new() };
        proof {
            assert(r.script() =~= Seq::<SlaveEvent>::empty());
            assert(r.sent() =~= Seq::<Seq<u8>>::empty());
        }
        r
    }

    /// Queue a master write of the given bytes.
    pub fn master_write(&mut self, bytes: Vec<u8>)
        ensures
            final(self).script() == old(self).script().push(SlaveEvent::Rx(bytes@)),
            final(self).sent() == old(self).sent(),
    {
        self.events.push(SimEvent::Rx(bytes));
        proof {
            assert(self.script() =~= old(self).script().push(SlaveEvent::Rx(bytes@)));
        }
    }

    /// Queue a master read; the slave will transmit its staged response.
    pub fn master_read(&mut self)
        ensures
            final(self).script() == old(self).script().push(SlaveEvent::Tx),
            final(self).sent() == old(self).sent(),
    {
        self.events.push(SimEvent::Tx);
        proof {
            assert(self.script() =~= old(self).script().push(SlaveEvent::Tx));
        }
    }

    /// How many scripted transactions are not yet consumed.
    pub fn pending(&self) -> (n: usize)
        ensures
            n == self.script().len(),
    {
        self.events.len()
    }

    /// How many frames the slave has transmitted.
    pub fn sent_count(&self) -> (n: usize)
        ensures
            n == self.sent().len(),
    {
        self.frames.len()
    }

    /// One transmitted frame, oldest first.
    pub fn sent_frame(&self, i: usize) -> (r: &Vec<u8>)
        requires
            i < self.sent().len(),
        ensures
            r@ == self.sent()[i as int],
    {
        &self.frames[i]
    }
}

impl I2CPeripheral for SimTransport {
    type Error = TransportError;

    closed spec fn script(&self) -> Seq<SlaveEvent> {
        self.events@.map_values(|e: SimEvent| sim_event_view(e))
    }

    closed spec fn sent(&self) -> Seq<Seq<u8>> {
        self.frames@.map_values(|v: Vec<u8>| v@)
    }

    fn poll(&mut self) -> (r: Result<Option<BusEvent>, TransportError>) {
        if self.events.len() == 0 {
            Ok(None)
        } else {
            match &self.events[0] {
                SimEvent::Rx(_) => Ok(Some(BusEvent::Rx(ADDRESS))),
                SimEvent::Tx => Ok(Some(BusEvent::Tx(ADDRESS))),
            }
        }
    }

    fn rx(&mut self, n: usize) -> (r: Result<Vec<u8>, TransportError>) {
        if self.events.len() == 0 {
            return Err(TransportError::Nack);
        }
        let ghost before = self.events@;
        let ev = self.events.remove(0);
        match ev {
            SimEvent::Tx => Err(TransportError::BusFault),
            SimEvent::Rx(v) => {
                if v.len() != n {
                    Err(TransportError::IncorrectFrameSize(v.len()))
                } else {
                    proof {
                        assert(self.events@ =~= before.skip(1));
                        assert(self.script() =~= old(self).script().skip(1));
                    }
                    Ok(v)
                }
            },
        }
    }

    fn tx(&mut self, bytes: &[u8]) -> (r: Result<(), TransportError>) {
        if self.events.len() == 0 {
            return Err(TransportError::Nack);
        }
        let ghost before = self.events@;
        let ev = self.events.remove(0);
        match ev {
            SimEvent::Rx(_) => Err(TransportError::BusFault),
            SimEvent::Tx => {
                self.frames.push(vstd::slice::slice_to_vec(bytes));
                proof {
                    assert(self.events@ =~= before.skip(1));
                    assert(self.script() =~= old(self).script().skip(1));
                    assert(self.sent() =~= old(self).sent().push(bytes@));
                }
                Ok(())
            },
        }
    }

    fn flush(&mut self) -> (r: Result<(), TransportError>) {
        Ok(())
    }
}

} // verus!
