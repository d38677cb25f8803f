//! The correlation table: which device waits for which reply.
//!
//! Replies arrive without any handle to the call that asked for them. So
//! every bound device has an entry here, a request notes its invoke id in
//! the entry, the handler of a reply finds the entry by the sender's address
//! and the invoke id and stores the outcome, and the call takes it out.

use crate::address::Address;
use crate::encoding::{decode_data, decode_spec, ReadPropertyData, ReadPropertyDataView};
use crate::errors::{BACnetErr, ErrView};
use crate::value::{outcome_view, text_view, BACnetValue, ValueView};
use std::collections::HashMap;
use vstd::prelude::*;
use vstd::std_specs::iter::IteratorSpec;

verus! {

broadcast use vstd::std_specs::hash::group_hash_axioms;

/// How far a request has come.
#[derive(Debug, PartialEq)]
pub enum RequestStatus {
    /// No reply has arrived.
    Ongoing,
    /// The device has answered.
    Done,
    /// The device has refused, or has reported an error.
    Error(BACnetErr),
}

/// The mathematical value of a [`RequestStatus`].
pub enum RequestStatusView {
    Ongoing,
    Done,
    Error(ErrView),
}

impl View for RequestStatus {
    type V = RequestStatusView;

    open spec fn view(&self) -> RequestStatusView {
        match self {
            RequestStatus::Ongoing => RequestStatusView::Ongoing,
            RequestStatus::Done => RequestStatusView::Done,
            RequestStatus::Error(e) => RequestStatusView::Error(e@),
        }
    }
}

/// The entry of one bound device: its address, the request that is under
/// way, if any, with its invoke id, and the outcome that a reply has stored.
#[derive(Debug)]
pub struct TargetDevice {
    pub addr: Address,
    pub request: Option<(u8, RequestStatus)>,
    pub value: Option<Result<BACnetValue, BACnetErr>>,
}

/// The mathematical value of a [`TargetDevice`].
pub struct TargetDeviceView {
    pub addr: Address,
    pub request: Option<(u8, RequestStatusView)>,
    pub value: Option<Result<ValueView, ErrView>>,
}

impl View for TargetDevice {
    type V = TargetDeviceView;

    open spec fn view(&self) -> TargetDeviceView {
        TargetDeviceView {
            addr: self.addr,
            request: match self.request {
                Some((invoke_id, status)) => Some((invoke_id, status@)),
                None => None,
            },
            value: match self.value {
                Some(outcome) => Some(outcome_view(outcome)),
                None => None,
            },
        }
    }
}

impl TargetDeviceView {
    /// The entry of a device that was just bound.
    pub open spec fn bound(addr: Address) -> TargetDeviceView {
        TargetDeviceView { addr, request: None, value: None }
    }

    /// Whether the entry waits for the reply to request `invoke_id` from the
    /// device at `src`.
    pub open spec fn awaits(self, src: Address, invoke_id: u8) -> bool {
        self.addr.same_as(src) && (self.request matches Some((id, _)) && id == invoke_id)
    }

    /// The entry after a reply: the request has the status `status`, and the
    /// stored outcome is `value` where the reply carries one.
    pub open spec fn replied(
        self,
        invoke_id: u8,
        status: RequestStatusView,
        value: Option<Result<ValueView, ErrView>>,
    ) -> TargetDeviceView {
        TargetDeviceView {
            request: Some((invoke_id, status)),
            value: match value {
                Some(outcome) => Some(outcome),
                None => self.value,
            },
            ..self
        }
    }

    /// The outcome that a read takes out of the entry.
    pub open spec fn read_outcome(self) -> Result<ValueView, ErrView> {
        match self.request {
            None => Err(ErrView::NoValue),
            Some((_, RequestStatusView::Done)) => match self.value {
                Some(outcome) => outcome,
                None => Err(ErrView::NoValue),
            },
            Some((_, RequestStatusView::Ongoing)) => Err(ErrView::RequestOngoing),
            Some((_, RequestStatusView::Error(e))) => Err(e),
        }
    }

    /// The outcome that a write takes out of the entry.
    pub open spec fn write_outcome(self) -> Result<(), ErrView> {
        match self.request {
            None => Err(ErrView::NoValue),
            Some((_, RequestStatusView::Done)) => Ok(()),
            Some((_, RequestStatusView::Ongoing)) => Err(ErrView::RequestOngoing),
            Some((_, RequestStatusView::Error(e))) => Err(e),
        }
    }

    /// The entry after its outcome was taken: no request, no stored outcome.
    pub open spec fn cleared(self) -> TargetDeviceView {
        TargetDeviceView { request: None, value: None, ..self }
    }
}

/// The mathematical value of the table: the entry of each bound device, by
/// the identifier of the device.
pub type TableView = Map<u32, TargetDeviceView>;

/// Whether device `device_id` is bound and its entry waits for the reply to
/// request `invoke_id` from the device at `src`.
pub open spec fn awaits(table: TableView, src: Address, invoke_id: u8, device_id: u32) -> bool {
    table.contains_key(device_id) && table[device_id].awaits(src, invoke_id)
}

/// Whether `device_id` is the device that gets the reply to request
/// `invoke_id` from the device at `src`: its entry waits for the reply, and
/// no device of a lesser identifier does.
pub open spec fn is_first_awaiting(table: TableView, src: Address, invoke_id: u8, device_id: u32)
    -> bool {
    &&& awaits(table, src, invoke_id, device_id)
    &&& forall|other: u32| #[trigger] awaits(table, src, invoke_id, other) ==> device_id <= other
}

/// The device that gets the reply to request `invoke_id` from the device at
/// `src`, if any waits for it: of several, the one of the least identifier.
pub open spec fn first_awaiting(table: TableView, src: Address, invoke_id: u8) -> Option<u32> {
    if exists|device_id: u32| is_first_awaiting(table, src, invoke_id, device_id) {
        Some(choose|device_id: u32| is_first_awaiting(table, src, invoke_id, device_id))
    } else {
        None
    }
}

/// The table after device `device_id` was bound at `addr`: its entry is new.
pub open spec fn after_bind(table: TableView, device_id: u32, addr: Address) -> TableView {
    table.insert(device_id, TargetDeviceView::bound(addr))
}

/// The table after a request to device `device_id` was transmitted under
/// `invoke_id`: the entry notes the request as ongoing, in the place of any
/// request that it noted before. Without an entry nothing changes.
pub open spec fn after_request(table: TableView, device_id: u32, invoke_id: u8) -> TableView {
    if table.contains_key(device_id) {
        table.insert(
            device_id,
            TargetDeviceView {
                request: Some((invoke_id, RequestStatusView::Ongoing)),
                ..table[device_id]
            },
        )
    } else {
        table
    }
}

/// The table after a reply to request `invoke_id` from `src`: the entry of
/// the device that gets the reply has `status` and, where the reply carries
/// one, the outcome `value`. A reply that no entry waits for changes nothing.
pub open spec fn after_reply(
    table: TableView,
    src: Address,
    invoke_id: u8,
    status: RequestStatusView,
    value: Option<Result<ValueView, ErrView>>,
) -> TableView {
    match first_awaiting(table, src, invoke_id) {
        Some(device_id) => table.insert(
            device_id,
            table[device_id].replied(invoke_id, status, value),
        ),
        None => table,
    }
}

/// The table after the outcome of device `device_id` was taken.
pub open spec fn after_take(table: TableView, device_id: u32) -> TableView {
    if table.contains_key(device_id) {
        table.insert(device_id, table[device_id].cleared())
    } else {
        table
    }
}

/// The outcome that a read of device `device_id` takes out of the table.
pub open spec fn read_outcome(table: TableView, device_id: u32) -> Result<ValueView, ErrView> {
    if table.contains_key(device_id) {
        table[device_id].read_outcome()
    } else {
        Err(ErrView::NotConnected { device_id })
    }
}

/// The outcome that a write to device `device_id` takes out of the table.
pub open spec fn write_outcome(table: TableView, device_id: u32) -> Result<(), ErrView> {
    if table.contains_key(device_id) {
        table[device_id].write_outcome()
    } else {
        Err(ErrView::NotConnected { device_id })
    }
}

/// The views of the entries of a map.
pub open spec fn entries_view(entries: Map<u32, TargetDevice>) -> TableView {
    entries.map_values(|entry: TargetDevice| entry@)
}

/// The table of the bound devices, by the identifier of the device.
#[derive(Debug)]
pub struct CorrelationTable {
    entries: HashMap<u32, TargetDevice>,
}

impl View for CorrelationTable {
    type V = TableView;

    closed spec fn view(&self) -> TableView {
        entries_view(self.entries@)
    }
}

impl CorrelationTable {
    /// A table without entries.
    pub fn new() -> (table: CorrelationTable)
        ensures
            table@ == Map::<u32, TargetDeviceView>::empty(),
    {
        let table = CorrelationTable { entries: HashMap::new() };
        assert(table@ =~= Map::empty());
        table
    }

    /// The number of bound devices.
    pub fn len(&self) -> (len: usize)
        ensures
            len == self@.len(),
    {
        assert(self@.dom() =~= self.entries@.dom());
        self.entries.len()
    }

    /// The entry of a device, if it is bound.
    pub fn entry(&self, device_id: u32) -> (entry: Option<&TargetDevice>)
        ensures
            match entry {
                Some(found) => self@.contains_key(device_id) && found@ == self@[device_id],
                None => !self@.contains_key(device_id),
            },
    {
        self.entries.get(&device_id)
    }

    /// Whether a device is bound.
    pub fn contains(&self, device_id: u32) -> (found: bool)
        ensures
            found == self@.contains_key(device_id),
    {
        self.entries.contains_key(&device_id)
    }

    /// Puts an entry in the place of the one that the device has, or adds
    /// it.
    fn put(&mut self, device_id: u32, entry: TargetDevice)
        ensures
            final(self)@ == old(self)@.insert(device_id, entry@),
    {
        self.entries.insert(device_id, entry);
        assert(self@ =~= old(self)@.insert(device_id, entry@));
    }

    /// Takes the entry of a device out of the table, to put it back changed.
    fn lift(&mut self, device_id: u32) -> (entry: Option<TargetDevice>)
        ensures
            match entry {
                Some(found) => old(self)@.contains_key(device_id) && found@ == old(
                    self,
                )@[device_id] && final(self)@ == old(self)@.remove(device_id),
                None => !old(self)@.contains_key(device_id) && final(self)@ == old(self)@,
            },
    {
        let entry = self.entries.remove(&device_id);
        assert(self@ =~= if entry is Some {
            old(self)@.remove(device_id)
        } else {
            old(self)@
        });
        entry
    }

    /// Enters a device that was bound at `addr`. An entry that the device had
    /// is replaced.
    pub fn bind(&mut self, device_id: u32, addr: Address)
        ensures
            final(self)@ == after_bind(old(self)@, device_id, addr),
    {
        self.put(device_id, TargetDevice { addr, request: None, value: None });
    }

    /// Notes that a request to a device was transmitted under `invoke_id`.
    /// The device must be bound: else `NotConnected`, and nothing changes.
    pub fn begin_request(&mut self, device_id: u32, invoke_id: u8) -> (res: Result<(), BACnetErr>)
        ensures
            final(self)@ == after_request(old(self)@, device_id, invoke_id),
            match res {
                Ok(_) => old(self)@.contains_key(device_id),
                Err(e) => !old(self)@.contains_key(device_id) && e@ == (ErrView::NotConnected {
                    device_id,
                }),
            },
    {
        match self.lift(device_id) {
            Some(entry) => {
                let TargetDevice { addr, request: _, value } = entry;
                self.put(
                    device_id,
                    TargetDevice {
                        addr,
                        request: Some((invoke_id, RequestStatus::Ongoing)),
                        value,
                    },
                );
                assert(self@ =~= after_request(old(self)@, device_id, invoke_id));
                Ok(())
            },
            None => Err(BACnetErr::NotConnected { device_id }),
        }
    }

    /// Finds the device whose entry waits for the reply to request
    /// `invoke_id` from the device at `src`. Should the entries of several
    /// devices wait for it, the device of the least identifier is found.
    pub fn find_matching_server(&self, src: &Address, invoke_id: u8) -> (device_id: Option<u32>)
        ensures
            device_id == first_awaiting(self@, *src, invoke_id),
    {
        let mut found: Option<u32> = None;
        for key in it: self.entries.keys()
            invariant
                it.seq().unref().to_set() == self.entries@.dom(),
                self@ == entries_view(self.entries@),
                match found {
                    Some(best) => {
                        &&& awaits(self@, *src, invoke_id, best)
                        &&& forall|i: int|
                            0 <= i < it.index() && awaits(
                                self@,
                                *src,
                                invoke_id,
                                *#[trigger] it.seq()[i],
                            ) ==> best <= *it.seq()[i]
                    },
                    None => forall|i: int|
                        0 <= i < it.index() ==> !awaits(
                            self@,
                            *src,
                            invoke_id,
                            *#[trigger] it.seq()[i],
                        ),
                },
        {
            assert(it.seq().unref().to_set().contains(*key));
            match self.entries.get(key) {
                Some(entry) => {
                    let is_addr_match = entry.addr.same(src);
                    let is_request_invoke_id = match &entry.request {
                        Some((request_invoke_id, _)) => invoke_id == *request_invoke_id,
                        None => false,
                    };
                    let is_less = match found {
                        Some(best) => *key < best,
                        None => true,
                    };
                    if is_addr_match && is_request_invoke_id && is_less {
                        found = Some(*key);
                    }
                },
                None => {},
            }
        }
        proof {
            assert forall|other: u32| #[trigger]
                awaits(self@, *src, invoke_id, other) implies found is Some && found->0
                <= other by {
                assert(self.entries@.dom().contains(other));
            }
            lemma_first_awaiting(self@, *src, invoke_id, found);
        }
        found
    }

    /// Stores what a reply brought in the entry that waits for it.
    fn complete(
        &mut self,
        src: &Address,
        invoke_id: u8,
        status: RequestStatus,
        value: Option<Result<BACnetValue, BACnetErr>>,
    )
        ensures
            final(self)@ == after_reply(
                old(self)@,
                *src,
                invoke_id,
                status@,
                match value {
                    Some(outcome) => Some(outcome_view(outcome)),
                    None => None,
                },
            ),
    {
        let device_id = match self.find_matching_server(src, invoke_id) {
            Some(device_id) => device_id,
            None => {
                return ;
            },
        };
        proof {
            assert(is_first_awaiting(old(self)@, *src, invoke_id, device_id));
        }
        match self.lift(device_id) {
            Some(entry) => {
                let TargetDevice { addr, request: _, value: stored } = entry;
                let value = match value {
                    Some(outcome) => Some(outcome),
                    None => stored,
                };
                self.put(device_id, TargetDevice { addr, request: Some((invoke_id, status)), value });
                assert(self@ =~= old(self)@.insert(
                    device_id,
                    old(self)@[device_id].replied(
                        invoke_id,
                        status@,
                        match value {
                            Some(outcome) => Some(outcome_view(outcome)),
                            None => None,
                        },
                    ),
                ));
            },
            None => {},
        }
    }

    /// Handles the acknowledgement of a read: the entry that waits for it
    /// gets the decoded value, or the reason why it could not be decoded,
    /// and its request is done. `reply` is `None` where the acknowledgement
    /// itself could not be taken apart; `enum_name` and `tag_name` are as
    /// `decode_data` takes them.
    pub fn readprop_ack_handler(
        &mut self,
        src: &Address,
        invoke_id: u8,
        reply: Option<ReadPropertyData>,
        enum_name: Option<String>,
        tag_name: String,
    )
        ensures
            final(self)@ == after_reply(
                old(self)@,
                *src,
                invoke_id,
                RequestStatusView::Done,
                Some(read_reply_spec(reply_view(reply), text_view(enum_name), tag_name@)),
            ),
    {
        let decoded = match reply {
            Some(data) => decode_data(data, enum_name, tag_name),
            None => Err(BACnetErr::DecodeFailed),
        };
        self.complete(src, invoke_id, RequestStatus::Done, Some(decoded));
    }

    /// Handles the acknowledgement of a write: the request of the entry that
    /// waits for it is done.
    pub fn property_simple_ack_handler(&mut self, src: &Address, invoke_id: u8)
        ensures
            final(self)@ == after_reply(
                old(self)@,
                *src,
                invoke_id,
                RequestStatusView::Done,
                None,
            ),
    {
        self.complete(src, invoke_id, RequestStatus::Done, None);
    }

    /// Handles an error reply: the request of the entry that waits for it has
    /// failed with the error's class and code and their names.
    pub fn error_handler(
        &mut self,
        src: &Address,
        invoke_id: u8,
        error_class: u32,
        error_code: u32,
        class_text: String,
        text: String,
    )
        ensures
            final(self)@ == after_reply(
                old(self)@,
                *src,
                invoke_id,
                RequestStatusView::Error(
                    ErrView::Error {
                        class_text: class_text@,
                        class: error_class,
                        text: text@,
                        code: error_code,
                    },
                ),
                None,
            ),
    {
        let err = BACnetErr::Error { class_text, class: error_class, text, code: error_code };
        self.complete(src, invoke_id, RequestStatus::Error(err), None);
    }

    /// Handles an abort: the request of the entry that waits for it has
    /// failed with the reason of the abort and its name.
    pub fn abort_handler(&mut self, src: &Address, invoke_id: u8, abort_reason: u8, text: String)
        ensures
            final(self)@ == after_reply(
                old(self)@,
                *src,
                invoke_id,
                RequestStatusView::Error(ErrView::Aborted { text: text@, code: abort_reason }),
                None,
            ),
    {
        let err = BACnetErr::Aborted { text, code: abort_reason };
        self.complete(src, invoke_id, RequestStatus::Error(err), None);
    }

    /// Handles a reject: the request of the entry that waits for it has
    /// failed with the reason of the reject.
    pub fn reject_handler(&mut self, src: &Address, invoke_id: u8, reject_reason: u8)
        ensures
            final(self)@ == after_reply(
                old(self)@,
                *src,
                invoke_id,
                RequestStatusView::Error(ErrView::Rejected { code: reject_reason }),
                None,
            ),
    {
        let err = BACnetErr::Rejected { code: reject_reason };
        self.complete(src, invoke_id, RequestStatus::Error(err), None);
    }

    /// Takes the outcome of a read out of the entry of a device, and clears
    /// the entry's request and stored outcome.
    pub fn take_read_outcome(&mut self, device_id: u32) -> (res: Result<BACnetValue, BACnetErr>)
        ensures
            outcome_view(res) == read_outcome(old(self)@, device_id),
            final(self)@ == after_take(old(self)@, device_id),
    {
        match self.lift(device_id) {
            None => Err(BACnetErr::NotConnected { device_id }),
            Some(entry) => {
                let TargetDevice { addr, request, value } = entry;
                self.put(device_id, TargetDevice { addr, request: None, value: None });
                assert(self@ =~= after_take(old(self)@, device_id));
                match request {
                    None => Err(BACnetErr::NoValue),
                    Some((_, RequestStatus::Done)) => match value {
                        Some(outcome) => outcome,
                        None => Err(BACnetErr::NoValue),
                    },
                    Some((_, RequestStatus::Ongoing)) => Err(BACnetErr::RequestOngoing),
                    Some((_, RequestStatus::Error(err))) => Err(err),
                }
            },
        }
    }

    /// Takes the outcome of a write out of the entry of a device, and clears
    /// the entry's request and stored outcome.
    pub fn take_write_outcome(&mut self, device_id: u32) -> (res: Result<(), BACnetErr>)
        ensures
            unit_outcome_view(res) == write_outcome(old(self)@, device_id),
            final(self)@ == after_take(old(self)@, device_id),
    {
        match self.lift(device_id) {
            None => Err(BACnetErr::NotConnected { device_id }),
            Some(entry) => {
                let TargetDevice { addr, request, value: _ } = entry;
                self.put(device_id, TargetDevice { addr, request: None, value: None });
                assert(self@ =~= after_take(old(self)@, device_id));
                match request {
                    None => Err(BACnetErr::NoValue),
                    Some((_, RequestStatus::Done)) => Ok(()),
                    Some((_, RequestStatus::Ongoing)) => Err(BACnetErr::RequestOngoing),
                    Some((_, RequestStatus::Error(err))) => Err(err),
                }
            },
        }
    }
}

/// The view of what the acknowledgement of a read carried.
pub open spec fn reply_view(reply: Option<ReadPropertyData>) -> Option<ReadPropertyDataView> {
    match reply {
        Some(data) => Some(data@),
        None => None,
    }
}

/// The outcome that the acknowledgement of a read stores.
pub open spec fn read_reply_spec(
    reply: Option<ReadPropertyDataView>,
    enum_name: Option<Seq<char>>,
    tag_name: Seq<char>,
) -> Result<ValueView, ErrView> {
    match reply {
        Some(data) => decode_spec(data, enum_name, tag_name),
        None => Err(ErrView::DecodeFailed),
    }
}

/// The view of the outcome of a write.
pub open spec fn unit_outcome_view(outcome: Result<(), BACnetErr>) -> Result<(), ErrView> {
    match outcome {
        Ok(_) => Ok(()),
        Err(e) => Err(e@),
    }
}

/// The device that gets a reply is the one that waits for it and is below
/// every other that does; there is none where no device waits.
proof fn lemma_first_awaiting(table: TableView, src: Address, invoke_id: u8, found: Option<u32>)
    requires
        found matches Some(device_id) ==> awaits(table, src, invoke_id, device_id),
        forall|other: u32| #[trigger]
            awaits(table, src, invoke_id, other) ==> found is Some && found->0 <= other,
    ensures
        first_awaiting(table, src, invoke_id) == found,
{
    match found {
        Some(device_id) => {
            assert(is_first_awaiting(table, src, invoke_id, device_id));
            let chosen = choose|k: u32| is_first_awaiting(table, src, invoke_id, k);
            assert(awaits(table, src, invoke_id, chosen));
            assert(awaits(table, src, invoke_id, device_id));
        },
        None => {
            assert forall|k: u32| !is_first_awaiting(table, src, invoke_id, k) by {
                if awaits(table, src, invoke_id, k) {
                }
            }
        },
    }
}

/// A device has one request under way at most: a second request takes the
/// place of the first, whatever had become of it.
pub proof fn lemma_second_request_replaces_first(
    table: TableView,
    device_id: u32,
    first: u8,
    second: u8,
)
    ensures
        after_request(after_request(table, device_id, first), device_id, second) == after_request(
            table,
            device_id,
            second,
        ),
{
    assert(after_request(after_request(table, device_id, first), device_id, second)
        =~= after_request(table, device_id, second));
}

/// A reply reaches the entry that waits for it and no other: the same
/// devices are bound after it as before, every other entry stays as it is,
/// and the entry itself keeps its address. A reply that no entry waits for
/// changes nothing.
pub proof fn lemma_reply_reaches_one_entry(
    table: TableView,
    src: Address,
    invoke_id: u8,
    status: RequestStatusView,
    value: Option<Result<ValueView, ErrView>>,
)
    ensures
        after_reply(table, src, invoke_id, status, value).dom() == table.dom(),
        first_awaiting(table, src, invoke_id) is None ==> after_reply(
            table,
            src,
            invoke_id,
            status,
            value,
        ) == table,
        first_awaiting(table, src, invoke_id) matches Some(device_id) ==> awaits(
            table,
            src,
            invoke_id,
            device_id,
        ),
        forall|other: u32|
            table.contains_key(other) && first_awaiting(table, src, invoke_id) != Some(other)
                ==> #[trigger] after_reply(table, src, invoke_id, status, value)[other]
                == table[other],
        forall|other: u32|
            table.contains_key(other) ==> (#[trigger] after_reply(
                table,
                src,
                invoke_id,
                status,
                value,
            )[other]).addr == table[other].addr,
{
    if first_awaiting(table, src, invoke_id) is Some {
        let device_id = first_awaiting(table, src, invoke_id)->0;
        assert(is_first_awaiting(table, src, invoke_id, device_id));
        assert(after_reply(table, src, invoke_id, status, value).dom() =~= table.dom());
    }
}

/// An outcome is taken once: after a device's outcome was taken, taking it
/// again without a new request gives `NoValue`, whatever the entry held.
pub proof fn lemma_outcome_is_taken_once(table: TableView, device_id: u32)
    requires
        table.contains_key(device_id),
    ensures
        read_outcome(after_take(table, device_id), device_id) == Err::<ValueView, ErrView>(
            ErrView::NoValue,
        ),
        write_outcome(after_take(table, device_id), device_id) == Err::<(), ErrView>(
            ErrView::NoValue,
        ),
{
}

} // verus!
