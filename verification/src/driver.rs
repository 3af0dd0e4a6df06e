//! Station drivers as state machines: the UDP listener, the simulator and the
//! registry of driver factories. A driver is idle or active; the socket, the
//! timer and the decoding of datagrams belong to the caller, who hands their
//! outcome to the driver for judgement.

use vstd::prelude::*;
use crate::errors::IngestError;
use crate::field_map::FieldMap;
use crate::types::WeatherPacket;

verus! {

/// The seconds a UDP driver waits for a datagram.
pub const RECV_TIMEOUT_SECS: u64 = 5;

/// The bytes a UDP driver reads of one datagram; what exceeds them is cut.
pub const DATAGRAM_CAPACITY: usize = 2048;

/// How an attempt to receive one packet ended.
#[derive(Debug, Clone, PartialEq)]
pub enum Reception {
    /// A datagram arrived and held this packet.
    Packet(WeatherPacket),
    /// A datagram arrived and did not hold a packet; the text says why.
    Malformed(String),
    /// No datagram arrived in time.
    TimedOut,
    /// The socket failed; the text says how.
    Failed(String),
}

/// The listener for packets sent as JSON datagrams.
#[derive(Debug, Clone, PartialEq, Eq)]
pub struct InterceptorUdpDriver {
    bind: String,
    active: bool,
}

impl InterceptorUdpDriver {
    /// Whether the driver is active.
    pub closed spec fn active(&self) -> bool {
        self.active
    }

    /// The address the driver listens on.
    pub closed spec fn bind(&self) -> Seq<char> {
        self.bind@
    }

    /// An idle driver for the given address.
    pub fn new(bind: String) -> (d: Self)
        ensures
            !d.active(),
            d.bind() == bind@,
    {
        InterceptorUdpDriver { bind, active: false }
    }

    /// The driver's name.
    pub fn name(&self) -> (n: &'static str)
        ensures
            n@ == "interceptor-udp"@,
    {
        "interceptor-udp"
    }

    /// The address the driver listens on.
    pub fn bind_address(&self) -> (a: &String)
        ensures
            a@ == self.bind(),
    {
        &self.bind
    }

    /// Whether the driver is active.
    pub fn is_active(&self) -> (b: bool)
        ensures
            b == self.active(),
    {
        self.active
    }

    /// Whether `start` may go on to bind the socket: not while active.
    pub fn check_start(&self) -> (r: Result<(), IngestError>)
        ensures
            r.is_ok() == !self.active(),
            r matches Err(e) ==> e matches IngestError::DriverError(m) && m@ == "already started"@,
    {
        if self.active {
            Err(IngestError::DriverError("already started".to_owned()))
        } else {
            Ok(())
        }
    }

    /// Starts the driver, given how binding the socket went. An active driver
    /// refuses and stays active. A failed bind is reported and leaves the
    /// driver idle. Otherwise the driver becomes active.
    pub fn start(&mut self, bound: Result<(), String>) -> (r: Result<(), IngestError>)
        ensures
            final(self).bind() == old(self).bind(),
            match r {
                Ok(_) => !old(self).active() && bound.is_ok() && final(self).active(),
                Err(IngestError::DriverError(m)) => old(self).active() && final(self).active()
                    && m@ == "already started"@,
                Err(IngestError::CommunicationError(m)) => {
                    &&& !old(self).active()
                    &&& !final(self).active()
                    &&& bound == Err::<(), String>(m)
                },
                Err(_) => false,
            },
    {
        if self.active {
            return Err(IngestError::DriverError("already started".to_owned()));
        }
        match bound {
            Ok(_) => {
                self.active = true;
                Ok(())
            },
            Err(detail) => Err(IngestError::CommunicationError(detail)),
        }
    }

    /// Stops the driver. Always succeeds and leaves the driver idle, so that
    /// stopping an idle driver changes nothing.
    pub fn stop(&mut self) -> (r: Result<(), IngestError>)
        ensures
            r.is_ok(),
            !final(self).active(),
            final(self).bind() == old(self).bind(),
    {
        self.active = false;
        Ok(())
    }

    /// Whether `get_packet` may go on to wait for a datagram: only while
    /// active.
    pub fn check_active(&self) -> (r: Result<(), IngestError>)
        ensures
            r.is_ok() == self.active(),
            r matches Err(e) ==> e matches IngestError::DriverError(m) && m@ == "not active"@,
    {
        if self.active {
            Ok(())
        } else {
            Err(IngestError::DriverError("not active".to_owned()))
        }
    }

    /// Judges one attempt to receive. An idle driver reports misuse whatever
    /// was received. An active driver hands the packet on, reports a
    /// malformed datagram as invalid, a silent socket as a timeout and a
    /// failed socket as a communication error. The driver's state never
    /// changes: transient errors do not stop it.
    pub fn get_packet(&self, reception: Reception) -> (r: Result<WeatherPacket, IngestError>)
        ensures
            match r {
                Ok(p) => self.active() && reception == Reception::Packet(p),
                Err(IngestError::DriverError(m)) => !self.active() && m@ == "not active"@,
                Err(IngestError::InvalidPacket(m)) => self.active() && reception
                    == Reception::Malformed(m),
                Err(IngestError::Timeout) => self.active() && reception == Reception::TimedOut,
                Err(IngestError::CommunicationError(m)) => self.active() && reception
                    == Reception::Failed(m),
            },
    {
        if !self.active {
            return Err(IngestError::DriverError("not active".to_owned()));
        }
        match reception {
            Reception::Packet(p) => Ok(p),
            Reception::Malformed(detail) => Err(IngestError::InvalidPacket(detail)),
            Reception::TimedOut => Err(IngestError::Timeout),
            Reception::Failed(detail) => Err(IngestError::CommunicationError(detail)),
        }
    }
}

/// The remainder of `t` by the positive `m`, with the sign of `t`.
pub open spec fn rem_toward_zero(t: int, m: int) -> int {
    if t >= 0 {
        t % m
    } else {
        -((-t) % m)
    }
}

/// The whole numbers from which the simulator derives one packet.
#[derive(Debug, Clone, PartialEq, Eq)]
pub struct SimulatorSample {
    /// The packet's timestamp.
    pub date_time: i64,
    /// The station label.
    pub station: String,
    /// The reporting cadence in seconds.
    pub interval: u64,
    /// The position in the hundred-second cycle by which the readings vary.
    pub cycle: i64,
    /// The wind direction in degrees.
    pub wind_dir: i64,
}

impl SimulatorSample {
    /// Whether this is the sample of a simulator with the given spacing at
    /// the time `now`.
    pub open spec fn is_sample(&self, spacing: u64, now: i64) -> bool {
        &&& self.date_time == now
        &&& self.station@ == "simulator"@
        &&& self.interval == spacing
        &&& self.cycle == rem_toward_zero(now as int, 100)
        &&& self.wind_dir == rem_toward_zero(now as int, 360)
    }
}

/// The synthetic station.
#[derive(Debug, Clone, PartialEq, Eq)]
pub struct SimulatorDriver {
    interval: u64,
    active: bool,
}

impl SimulatorDriver {
    /// Whether the driver is active.
    pub closed spec fn active(&self) -> bool {
        self.active
    }

    /// The seconds between two packets.
    pub closed spec fn spacing(&self) -> u64 {
        self.interval
    }

    /// An idle simulator that spaces its packets by `interval` seconds.
    pub fn new(interval: u64) -> (d: Self)
        ensures
            !d.active(),
            d.spacing() == interval,
    {
        SimulatorDriver { interval, active: false }
    }

    /// The driver's name.
    pub fn name(&self) -> (n: &'static str)
        ensures
            n@ == "simulator"@,
    {
        "simulator"
    }

    /// Whether the driver is active.
    pub fn is_active(&self) -> (b: bool)
        ensures
            b == self.active(),
    {
        self.active
    }

    /// The seconds between two packets.
    pub fn interval(&self) -> (i: u64)
        ensures
            i == self.spacing(),
    {
        self.interval
    }

    /// Starts the driver: an idle one becomes active, an active one refuses
    /// and stays active.
    pub fn start(&mut self) -> (r: Result<(), IngestError>)
        ensures
            final(self).active(),
            final(self).spacing() == old(self).spacing(),
            r.is_ok() == !old(self).active(),
            r matches Err(e) ==> e matches IngestError::DriverError(m) && m@
                == "Driver already started"@,
    {
        if self.active {
            return Err(IngestError::DriverError("Driver already started".to_owned()));
        }
        self.active = true;
        Ok(())
    }

    /// Stops the driver. Always succeeds and leaves the driver idle, so that
    /// stopping an idle driver changes nothing.
    pub fn stop(&mut self) -> (r: Result<(), IngestError>)
        ensures
            r.is_ok(),
            !final(self).active(),
            final(self).spacing() == old(self).spacing(),
    {
        self.active = false;
        Ok(())
    }

    /// The sample for a packet made at `now`: the position in the
    /// hundred-second cycle and the wind direction follow from the seconds.
    pub fn generate_packet(&self, now: i64) -> (s: SimulatorSample)
        ensures
            s.is_sample(self.spacing(), now),
    {
        SimulatorSample {
            date_time: now,
            station: "simulator".to_owned(),
            interval: self.interval,
            cycle: now % 100,
            wind_dir: now % 360,
        }
    }

    /// The sample for a packet made at `now`, or the report of misuse from an
    /// idle driver.
    pub fn get_packet(&self, now: i64) -> (r: Result<SimulatorSample, IngestError>)
        ensures
            match r {
                Ok(s) => self.active() && s.is_sample(self.spacing(), now),
                Err(IngestError::DriverError(m)) => !self.active() && m@ == "Driver not active"@,
                Err(_) => false,
            },
    {
        if !self.active {
            return Err(IngestError::DriverError("Driver not active".to_owned()));
        }
        Ok(self.generate_packet(now))
    }
}

/// The factories of the available drivers, by driver name.
pub struct DriverRegistry<F> {
    drivers: FieldMap<F>,
}

impl<F> DriverRegistry<F> {
    /// The registered factories, by name.
    pub closed spec fn factories(&self) -> Map<Seq<char>, F> {
        self.drivers@
    }

    /// The registered names, in the order of registration.
    pub closed spec fn names(&self) -> Seq<Seq<char>> {
        self.drivers.keys()
    }

    /// The registry is well formed.
    pub closed spec fn wf(&self) -> bool {
        self.drivers.wf()
    }

    /// A registry without drivers.
    pub fn new() -> (r: Self)
        ensures
            r.wf(),
            r.factories() == Map::<Seq<char>, F>::empty(),
            r.names() == Seq::<Seq<char>>::empty(),
    {
        DriverRegistry { drivers: FieldMap::new() }
    }

    /// Registers a factory under a name; a factory registered earlier under
    /// the same name is replaced.
    pub fn register(&mut self, name: String, factory: F)
        requires
            old(self).wf(),
        ensures
            final(self).wf(),
            final(self).factories() == old(self).factories().insert(name@, factory),
            final(self).names() == if old(self).factories().contains_key(name@) {
                old(self).names()
            } else {
                old(self).names().push(name@)
            },
    {
        self.drivers.insert(name, factory);
    }

    /// The factory registered under `name`, or the report of an unknown
    /// driver, which names it.
    pub fn create(&self, name: &str) -> (r: Result<&F, IngestError>)
        requires
            self.wf(),
        ensures
            match r {
                Ok(f) => self.factories().contains_key(name@) && *f == self.factories()[name@],
                Err(IngestError::DriverError(m)) => !self.factories().contains_key(name@) && m@
                    == "Unknown driver: "@ + name@,
                Err(_) => false,
            },
    {
        match self.drivers.get(name) {
            Some(f) => Ok(f),
            None => {
                let message = "Unknown driver: ".to_owned().concat(name);
                Err(IngestError::DriverError(message))
            },
        }
    }

    /// The registered names, in the order of registration.
    pub fn list_drivers(&self) -> (names: Vec<String>)
        requires
            self.wf(),
        ensures
            names@.len() == self.names().len(),
            forall|i: int| 0 <= i < names@.len() ==> (#[trigger] names@[i])@ == self.names()[i],
    {
        let mut names: Vec<String> = Vec::new();
        let n: usize = self.drivers.len();
        let mut i: usize = 0;
        while i < n
            invariant
                self.drivers.wf(),
                n == self.drivers.keys().len(),
                i <= n,
                names@.len() == i,
                forall|j: int| 0 <= j < i ==> (#[trigger] names@[j])@ == self.drivers.keys()[j],
            decreases n - i,
        {
            names.push(self.drivers.key_at(i).clone());
            i = i + 1;
        }
        names
    }
}

} // verus!
