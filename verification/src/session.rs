//! The session with one device: binding, and the cycle of a request.
//!
//! A session does not transmit and does not wait. It says what is to be
//! transmitted, notes under which invoke id that was done, and judges after
//! each poll of the transport whether the call is over. Whoever drives it
//! transmits and polls.

use crate::address::Address;
use crate::encoding::{encode_data, encode_spec, PROP_PRESENT_VALUE};
use crate::epics::{epics_start_spec, EpicsScan, EpicsStep};
use crate::errors::{BACnetErr, ErrView};
use crate::request::{ReadRequest, WriteRequest, WriteRequestView, BACNET_ARRAY_ALL, NO_PRIORITY};
use crate::scan::{start_spec, PropertyScan, ScanStep};
use crate::table::{
    after_bind, after_request, after_take, read_outcome, unit_outcome_view, write_outcome,
    CorrelationTable, TableView,
};
use crate::value::{outcome_view, BACnetValue, ValueView};
use vstd::prelude::*;

verus! {

/// How long one poll of the transport waits, in milliseconds.
pub const POLL_TIMEOUT_MS: u32 = 100;

/// How long a request may take before it is given up, in milliseconds:
/// three seconds.
pub const APDU_TIMEOUT_MS: u64 = 3000;

/// The MAC address of a device on BACnet/IP has six octets.
pub const BIP_MAC_LEN: u8 = 6;

/// The UDP port of BACnet/IP.
pub const BIP_PORT: u16 = 0xBAC0;

/// A session with one device.
#[derive(Clone, Copy, Debug)]
pub struct BACnetServer {
    pub device_id: u32,
    /// The largest message that the device takes, as far as known.
    pub max_apdu: u32,
    /// The address at which the session was told to find the device.
    pub addr: Address,
}

/// Collects what a session is made of.
#[derive(Clone, Copy, Debug)]
pub struct BACnetServerBuilder {
    pub ip: [u8; 4],
    pub dnet: u16,
    pub dadr: u8,
    pub port: u16,
    pub device_id: u32,
}

/// Whether `addr` is the address of a device on BACnet/IP: the MAC address
/// is the four octets of the IP address and the two of the port, high octet
/// first; the station address is the one octet `dadr` on network `dnet`;
/// the octets that do not count are zero.
pub open spec fn is_bip_address(addr: Address, ip: [u8; 4], port: u16, dnet: u16, dadr: u8) -> bool {
    &&& addr.mac_len == BIP_MAC_LEN
    &&& addr.mac@ == seq![
        ip@[0],
        ip@[1],
        ip@[2],
        ip@[3],
        (port / 256) as u8,
        (port % 256) as u8,
        0u8,
    ]
    &&& addr.net == dnet
    &&& addr.len == 1
    &&& addr.adr@ == seq![dadr, 0u8, 0u8, 0u8, 0u8, 0u8, 0u8]
}

impl BACnetServerBuilder {
    /// A builder for device 0 at 127.0.0.1, port 0xBAC0, on the local
    /// network.
    pub fn new() -> (builder: BACnetServerBuilder)
        ensures
            builder.ip@ == seq![127u8, 0u8, 0u8, 1u8],
            builder.dnet == 0,
            builder.dadr == 0,
            builder.port == BIP_PORT,
            builder.device_id == 0,
    {
        let ip: [u8; 4] = [127, 0, 0, 1];
        assert(ip@ =~= seq![127u8, 0u8, 0u8, 1u8]);
        BACnetServerBuilder { ip, dnet: 0, dadr: 0, port: BIP_PORT, device_id: 0 }
    }

    /// Sets the IP address of the device, by its four octets.
    pub fn ip(self, ip: [u8; 4]) -> (builder: BACnetServerBuilder)
        ensures
            builder == (BACnetServerBuilder { ip, ..self }),
    {
        BACnetServerBuilder { ip, ..self }
    }

    /// Sets the number of the network of the device.
    pub fn dnet(self, dnet: u16) -> (builder: BACnetServerBuilder)
        ensures
            builder == (BACnetServerBuilder { dnet, ..self }),
    {
        BACnetServerBuilder { dnet, ..self }
    }

    /// Sets the address of the device on its network.
    pub fn dadr(self, dadr: u8) -> (builder: BACnetServerBuilder)
        ensures
            builder == (BACnetServerBuilder { dadr, ..self }),
    {
        BACnetServerBuilder { dadr, ..self }
    }

    /// Sets the UDP port of the device.
    pub fn port(self, port: u16) -> (builder: BACnetServerBuilder)
        ensures
            builder == (BACnetServerBuilder { port, ..self }),
    {
        BACnetServerBuilder { port, ..self }
    }

    /// Sets the identifier of the device.
    pub fn device_id(self, device_id: u32) -> (builder: BACnetServerBuilder)
        ensures
            builder == (BACnetServerBuilder { device_id, ..self }),
    {
        BACnetServerBuilder { device_id, ..self }
    }

    /// Makes the session: the device's identifier, its address on BACnet/IP,
    /// and no known size of message yet.
    pub fn build(self) -> (server: BACnetServer)
        ensures
            server.device_id == self.device_id,
            server.max_apdu == 0,
            is_bip_address(server.addr, self.ip, self.port, self.dnet, self.dadr),
    {
        let BACnetServerBuilder { ip, dnet, dadr, port, device_id } = self;
        let high: u8 = (port >> 8) as u8;
        let low: u8 = (port & 0xff) as u8;
        assert(high == (port / 256) as u8 && low == (port % 256) as u8) by (bit_vector)
            requires
                high == (port >> 8) as u8,
                low == (port & 0xff) as u8,
        ;
        let mac: [u8; 7] = [ip[0], ip[1], ip[2], ip[3], high, low, 0];
        let adr: [u8; 7] = [dadr, 0, 0, 0, 0, 0, 0];
        let addr = Address { mac_len: BIP_MAC_LEN, mac, net: dnet, len: 1, adr };
        assert(addr.mac@ =~= seq![ip@[0], ip@[1], ip@[2], ip@[3], high, low, 0u8]);
        assert(addr.adr@ =~= seq![dadr, 0u8, 0u8, 0u8, 0u8, 0u8, 0u8]);
        BACnetServer { device_id, max_apdu: 0, addr }
    }
}

/// What a poll of the transport has shown of a request.
pub enum Polled {
    /// The transport has the reply: the outcome is taken out of the table.
    Resolved,
    /// The transport has given up, or the time is over.
    TimedOut(ErrView),
    /// Neither: poll again.
    Pending,
}

/// Judges a request after a poll. `resolved` and `failed` are what the
/// transport says of the request's invoke id. `elapsed_ms` is the time since
/// the request was transmitted, in milliseconds, with a millisecond that has
/// begun counted as a whole one. A resolved request is over. One that failed
/// has timed out in the transport. One that is neither is given up as soon as
/// more than three seconds have passed.
pub open spec fn polled(resolved: bool, failed: bool, elapsed_ms: u64) -> Polled {
    if resolved {
        Polled::Resolved
    } else if failed {
        Polled::TimedOut(ErrView::TsmTimeout)
    } else if elapsed_ms > APDU_TIMEOUT_MS {
        Polled::TimedOut(ErrView::ApduTimeout)
    } else {
        Polled::Pending
    }
}

/// The view of what a poll of a read gave.
pub open spec fn read_polled_view(res: Option<Result<BACnetValue, BACnetErr>>) -> Option<
    Result<ValueView, ErrView>,
> {
    match res {
        Some(outcome) => Some(outcome_view(outcome)),
        None => None,
    }
}

/// The view of what a poll of a write gave.
pub open spec fn write_polled_view(res: Option<Result<(), BACnetErr>>) -> Option<
    Result<(), ErrView>,
> {
    match res {
        Some(outcome) => Some(unit_outcome_view(outcome)),
        None => None,
    }
}

/// What a read gives after a poll: nothing yet, a timeout, or the outcome
/// that is taken out of the table.
pub open spec fn read_polled_spec(
    table: TableView,
    device_id: u32,
    resolved: bool,
    failed: bool,
    elapsed_ms: u64,
) -> Option<Result<ValueView, ErrView>> {
    match polled(resolved, failed, elapsed_ms) {
        Polled::Resolved => Some(read_outcome(table, device_id)),
        Polled::TimedOut(e) => Some(Err(e)),
        Polled::Pending => None,
    }
}

/// What a write gives after a poll.
pub open spec fn write_polled_spec(
    table: TableView,
    device_id: u32,
    resolved: bool,
    failed: bool,
    elapsed_ms: u64,
) -> Option<Result<(), ErrView>> {
    match polled(resolved, failed, elapsed_ms) {
        Polled::Resolved => Some(write_outcome(table, device_id)),
        Polled::TimedOut(e) => Some(Err(e)),
        Polled::Pending => None,
    }
}

/// The table after a poll: the outcome is taken out of it when the request
/// is resolved, and only then.
pub open spec fn table_after_poll(table: TableView, device_id: u32, resolved: bool)
    -> TableView {
    if resolved {
        after_take(table, device_id)
    } else {
        table
    }
}

/// The view of a read that is to be transmitted, or of the reason why none
/// is.
pub open spec fn read_request_view(res: Result<ReadRequest, BACnetErr>) -> Result<
    ReadRequest,
    ErrView,
> {
    match res {
        Ok(request) => Ok(request),
        Err(e) => Err(e@),
    }
}

/// The view of a write that is to be transmitted, or of the reason why none
/// is.
pub open spec fn write_request_view(res: Result<WriteRequest, BACnetErr>) -> Result<
    WriteRequestView,
    ErrView,
> {
    match res {
        Ok(request) => Ok(request@),
        Err(e) => Err(e@),
    }
}

/// The read that a session transmits, if its device is bound.
pub open spec fn read_request_spec(
    table: TableView,
    device_id: u32,
    request: ReadRequest,
) -> Result<ReadRequest, ErrView> {
    if table.contains_key(device_id) {
        Ok(request)
    } else {
        Err(ErrView::NotConnected { device_id })
    }
}

/// The write that a session transmits, if its device is bound and the value
/// has an encoding: the encoded value, at no priority.
pub open spec fn write_request_spec(
    table: TableView,
    device_id: u32,
    object_type: u32,
    object_instance: u32,
    value: ValueView,
    property_id: u32,
    index: u32,
) -> Result<WriteRequestView, ErrView> {
    if !table.contains_key(device_id) {
        Err(ErrView::NotConnected { device_id })
    } else {
        match encode_spec(value) {
            Ok(data) => Ok(
                WriteRequestView {
                    object_type,
                    object_instance,
                    property_id,
                    value: data,
                    priority: NO_PRIORITY,
                    index,
                },
            ),
            Err(e) => Err(e),
        }
    }
}

impl BACnetServer {
    /// A builder with the defaults.
    pub fn builder() -> (builder: BACnetServerBuilder)
        ensures
            builder.ip@ == seq![127u8, 0u8, 0u8, 1u8],
            builder.dnet == 0,
            builder.dadr == 0,
            builder.port == BIP_PORT,
            builder.device_id == 0,
    {
        BACnetServerBuilder::new()
    }

    /// Takes what binding the device's address gave. Where the device was
    /// found, at `bound.0` and with `bound.1` as its largest message, it gets
    /// a new entry in the table. Where it was not, nothing changes and the
    /// session is `NotConnected`.
    pub fn connect(&mut self, table: &mut CorrelationTable, bound: Option<(Address, u32)>) -> (res:
        Result<(), BACnetErr>)
        ensures
            final(self).device_id == old(self).device_id,
            final(self).addr == old(self).addr,
            match bound {
                Some((addr, max_apdu)) => {
                    &&& res is Ok
                    &&& final(table)@ == after_bind(old(table)@, old(self).device_id, addr)
                    &&& final(self).max_apdu == max_apdu
                },
                None => {
                    &&& unit_outcome_view(res) == Err::<(), ErrView>(
                        ErrView::NotConnected { device_id: old(self).device_id },
                    )
                    &&& final(table)@ == old(table)@
                    &&& final(self).max_apdu == old(self).max_apdu
                },
            },
    {
        match bound {
            Some((addr, max_apdu)) => {
                self.max_apdu = max_apdu;
                table.bind(self.device_id, addr);
                Ok(())
            },
            None => Err(BACnetErr::NotConnected { device_id: self.device_id }),
        }
    }

    /// The read of the present value of an object, to be transmitted.
    pub fn read_prop_present_value(
        &self,
        table: &CorrelationTable,
        object_type: u32,
        object_instance: u32,
    ) -> (res: Result<ReadRequest, BACnetErr>)
        ensures
            read_request_view(res) == read_request_spec(
                table@,
                self.device_id,
                ReadRequest {
                    object_type,
                    object_instance,
                    property_id: PROP_PRESENT_VALUE,
                    index: BACNET_ARRAY_ALL,
                },
            ),
    {
        self.read_prop(table, object_type, object_instance, PROP_PRESENT_VALUE)
    }

    /// The read of a whole property, to be transmitted.
    pub fn read_prop(
        &self,
        table: &CorrelationTable,
        object_type: u32,
        object_instance: u32,
        property_id: u32,
    ) -> (res: Result<ReadRequest, BACnetErr>)
        ensures
            read_request_view(res) == read_request_spec(
                table@,
                self.device_id,
                ReadRequest { object_type, object_instance, property_id, index: BACNET_ARRAY_ALL },
            ),
    {
        self.read_prop_at(table, object_type, object_instance, property_id, BACNET_ARRAY_ALL)
    }

    /// The read of a property at one array index, to be transmitted: the
    /// first step of a read. The device must be bound: else `NotConnected`.
    pub fn read_prop_at(
        &self,
        table: &CorrelationTable,
        object_type: u32,
        object_instance: u32,
        property_id: u32,
        index: u32,
    ) -> (res: Result<ReadRequest, BACnetErr>)
        ensures
            read_request_view(res) == read_request_spec(
                table@,
                self.device_id,
                ReadRequest { object_type, object_instance, property_id, index },
            ),
    {
        if table.contains(self.device_id) {
            Ok(ReadRequest { object_type, object_instance, property_id, index })
        } else {
            Err(BACnetErr::NotConnected { device_id: self.device_id })
        }
    }

    /// The write of the present value of an object, to be transmitted.
    pub fn write_prop_present_value(
        &self,
        table: &CorrelationTable,
        object_type: u32,
        object_instance: u32,
        value: BACnetValue,
    ) -> (res: Result<WriteRequest, BACnetErr>)
        ensures
            write_request_view(res) == write_request_spec(
                table@,
                self.device_id,
                object_type,
                object_instance,
                value@,
                PROP_PRESENT_VALUE,
                BACNET_ARRAY_ALL,
            ),
    {
        self.write_prop(table, object_type, object_instance, value, PROP_PRESENT_VALUE)
    }

    /// The write of a whole property, to be transmitted.
    pub fn write_prop(
        &self,
        table: &CorrelationTable,
        object_type: u32,
        object_instance: u32,
        value: BACnetValue,
        property_id: u32,
    ) -> (res: Result<WriteRequest, BACnetErr>)
        ensures
            write_request_view(res) == write_request_spec(
                table@,
                self.device_id,
                object_type,
                object_instance,
                value@,
                property_id,
                BACNET_ARRAY_ALL,
            ),
    {
        self.write_prop_at(table, object_type, object_instance, value, property_id, BACNET_ARRAY_ALL)
    }

    /// The write of a property at one array index, to be transmitted: the
    /// first step of a write. The device must be bound, else `NotConnected`;
    /// the value must have an encoding, else `EncodeFailed`.
    pub fn write_prop_at(
        &self,
        table: &CorrelationTable,
        object_type: u32,
        object_instance: u32,
        value: BACnetValue,
        property_id: u32,
        index: u32,
    ) -> (res: Result<WriteRequest, BACnetErr>)
        ensures
            write_request_view(res) == write_request_spec(
                table@,
                self.device_id,
                object_type,
                object_instance,
                value@,
                property_id,
                index,
            ),
    {
        if !table.contains(self.device_id) {
            return Err(BACnetErr::NotConnected { device_id: self.device_id });
        }
        match encode_data(value) {
            Ok(data) => Ok(
                WriteRequest {
                    object_type,
                    object_instance,
                    property_id,
                    value: data,
                    priority: NO_PRIORITY,
                    index,
                },
            ),
            Err(e) => Err(e),
        }
    }

    /// Notes the invoke id under which the request was transmitted: the
    /// second step of a read or a write.
    pub fn request_sent(&self, table: &mut CorrelationTable, invoke_id: u8) -> (res: Result<
        (),
        BACnetErr,
    >)
        ensures
            final(table)@ == after_request(old(table)@, self.device_id, invoke_id),
            match res {
                Ok(_) => old(table)@.contains_key(self.device_id),
                Err(e) => !old(table)@.contains_key(self.device_id) && e@ == (
                ErrView::NotConnected { device_id: self.device_id }),
            },
    {
        table.begin_request(self.device_id, invoke_id)
    }

    /// Judges a read after a poll of the transport: `None` to poll again,
    /// else what the read returns. See [`polled`].
    pub fn read_polled(
        &self,
        table: &mut CorrelationTable,
        resolved: bool,
        failed: bool,
        elapsed_ms: u64,
    ) -> (res: Option<Result<BACnetValue, BACnetErr>>)
        ensures
            read_polled_view(res) == read_polled_spec(
                old(table)@,
                self.device_id,
                resolved,
                failed,
                elapsed_ms,
            ),
            final(table)@ == table_after_poll(old(table)@, self.device_id, resolved),
    {
        if resolved {
            Some(table.take_read_outcome(self.device_id))
        } else if failed {
            Some(Err(BACnetErr::TsmTimeout))
        } else if elapsed_ms > APDU_TIMEOUT_MS {
            Some(Err(BACnetErr::ApduTimeout))
        } else {
            None
        }
    }

    /// Judges a write after a poll of the transport: `None` to poll again,
    /// else what the write returns. See [`polled`].
    pub fn write_polled(
        &self,
        table: &mut CorrelationTable,
        resolved: bool,
        failed: bool,
        elapsed_ms: u64,
    ) -> (res: Option<Result<(), BACnetErr>>)
        ensures
            write_polled_view(res) == write_polled_spec(
                old(table)@,
                self.device_id,
                resolved,
                failed,
                elapsed_ms,
            ),
            final(table)@ == table_after_poll(old(table)@, self.device_id, resolved),
    {
        if resolved {
            Some(table.take_write_outcome(self.device_id))
        } else if failed {
            Some(Err(BACnetErr::TsmTimeout))
        } else if elapsed_ms > APDU_TIMEOUT_MS {
            Some(Err(BACnetErr::ApduTimeout))
        } else {
            None
        }
    }

    /// Begins the scan of the properties of one object. `required` and
    /// `optional` are the properties that the protocol declares for the
    /// object's type.
    pub fn read_properties(
        &self,
        object_type: u32,
        object_instance: u32,
        required: &Vec<u32>,
        optional: &Vec<u32>,
    ) -> (step: ScanStep)
        ensures
            step@ == start_spec(object_type, object_instance, required@, optional@),
            step matches ScanStep::Next(scan) ==> scan@.wf(),
    {
        PropertyScan::start(object_type, object_instance, required, optional)
    }

    /// Begins the interrogation of the device. `required` and `optional` are
    /// the properties that the protocol declares for the device object.
    pub fn epics(&self, required: &Vec<u32>, optional: &Vec<u32>) -> (step: EpicsStep)
        ensures
            step@ == epics_start_spec(self.device_id, required@, optional@),
            step matches EpicsStep::Next(scan) ==> scan@.wf(),
    {
        EpicsScan::start(self.device_id, required, optional)
    }
}

/// A request that the transport reports as failed before it reports it as
/// resolved ends in `TsmTimeout`: no value is returned, and the table is
/// left as it is.
pub proof fn lemma_failed_request_times_out(
    table: TableView,
    device_id: u32,
    elapsed_ms: u64,
)
    ensures
        read_polled_spec(table, device_id, false, true, elapsed_ms) == Some(
            Err::<ValueView, ErrView>(ErrView::TsmTimeout),
        ),
        write_polled_spec(table, device_id, false, true, elapsed_ms) == Some(
            Err::<(), ErrView>(ErrView::TsmTimeout),
        ),
        table_after_poll(table, device_id, false) == table,
{
}

/// A request that is neither resolved nor failed is given up with
/// `ApduTimeout` at the first poll after more than three seconds, and not
/// before: up to three seconds the answer is to poll again.
pub proof fn lemma_request_is_given_up_after_three_seconds(
    table: TableView,
    device_id: u32,
    elapsed_ms: u64,
)
    ensures
        read_polled_spec(table, device_id, false, false, elapsed_ms) == if elapsed_ms > 3000 {
            Some(Err::<ValueView, ErrView>(ErrView::ApduTimeout))
        } else {
            None
        },
        write_polled_spec(table, device_id, false, false, elapsed_ms) == if elapsed_ms > 3000 {
            Some(Err::<(), ErrView>(ErrView::ApduTimeout))
        } else {
            None
        },
        table_after_poll(table, device_id, false) == table,
{
}

/// A call never sees what an earlier call left: once a resolved request has
/// given its outcome, the next one that is judged as resolved without a new
/// request gives `NoValue`.
pub proof fn lemma_no_stale_outcome(
    table: TableView,
    device_id: u32,
    failed: bool,
    elapsed_ms: u64,
)
    requires
        table.contains_key(device_id),
    ensures
        read_polled_spec(
            table_after_poll(table, device_id, true),
            device_id,
            true,
            failed,
            elapsed_ms,
        ) == Some(Err::<ValueView, ErrView>(ErrView::NoValue)),
        write_polled_spec(
            table_after_poll(table, device_id, true),
            device_id,
            true,
            failed,
            elapsed_ms,
        ) == Some(Err::<(), ErrView>(ErrView::NoValue)),
{
    crate::table::lemma_outcome_is_taken_once(table, device_id);
}

} // verus!
