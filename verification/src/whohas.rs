//! Who-Has: the search for the devices that hold a given object.
//!
//! The search runs as a Who-Is does: one broadcast request, a while of
//! listening, and a list of those that answered, here with an I-Have.

use crate::encoding::OBJECT_DEVICE;
use crate::errors::BACnetErr;
use crate::whois::{destination_of, Destination, DEFAULT_TIMEOUT_MS};
use vstd::prelude::*;

verus! {

/// The identifier of an object: its type and its instance number.
#[derive(Clone, Copy, Debug, PartialEq, Eq)]
pub struct ObjectId {
    pub object_type: u32,
    pub object_instance: u32,
}

/// What an I-Have says: the device that answered, the object it holds, and
/// the name of that object.
#[derive(Debug, PartialEq)]
pub struct IHaveData {
    pub device_id: ObjectId,
    pub object_id: ObjectId,
    pub object_name: String,
}

/// The mathematical value of an [`IHaveData`].
pub struct IHaveDataView {
    pub device_id: ObjectId,
    pub object_id: ObjectId,
    pub object_name: Seq<char>,
}

impl View for IHaveData {
    type V = IHaveDataView;

    open spec fn view(&self) -> IHaveDataView {
        IHaveDataView {
            device_id: self.device_id,
            object_id: self.object_id,
            object_name: self.object_name@,
        }
    }
}

/// The views of the answers on a list.
pub open spec fn answers_view(answers: Seq<IHaveData>) -> Seq<IHaveDataView> {
    Seq::new(answers.len(), |i: int| answers[i]@)
}

/// A search for an object.
#[derive(Clone, Copy, Debug, PartialEq, Eq)]
pub struct WhoHas {
    /// The type of the object that is looked for.
    pub object_type: u32,
    /// The instance of the object that is looked for.
    pub object_instance: u32,
    /// How long the search listens for answers, in milliseconds.
    pub timeout: u64,
    /// The network to which the search is restricted, if it is.
    pub subnet: Option<u16>,
}

/// Handles an I-Have: it is put last on the list. `data` is `None` where the
/// I-Have could not be decoded, and then nothing changes.
pub fn i_have_handler(discovered: &mut Vec<IHaveData>, data: Option<IHaveData>)
    ensures
        answers_view(final(discovered)@) == match data {
            Some(data) => answers_view(old(discovered)@).push(data@),
            None => answers_view(old(discovered)@),
        },
{
    match data {
        Some(data) => {
            discovered.push(data);
            assert(answers_view(discovered@) =~= answers_view(old(discovered)@).push(data@));
        },
        None => {},
    }
}

impl WhoHas {
    /// A search for the device object of instance 0 that listens for three
    /// seconds, on every network.
    pub fn new() -> (who_has: WhoHas)
        ensures
            who_has == (WhoHas {
                object_type: OBJECT_DEVICE,
                object_instance: 0,
                timeout: DEFAULT_TIMEOUT_MS,
                subnet: None,
            }),
    {
        WhoHas {
            object_type: OBJECT_DEVICE,
            object_instance: 0,
            timeout: DEFAULT_TIMEOUT_MS,
            subnet: None,
        }
    }

    /// Sets the type of the object that is looked for.
    pub fn object_type(self, object_type: u32) -> (who_has: WhoHas)
        ensures
            who_has == (WhoHas { object_type, ..self }),
    {
        WhoHas { object_type, ..self }
    }

    /// Sets the instance of the object that is looked for.
    pub fn object_instance(self, object_instance: u32) -> (who_has: WhoHas)
        ensures
            who_has == (WhoHas { object_instance, ..self }),
    {
        WhoHas { object_instance, ..self }
    }

    /// Sets how long the search listens for answers, in milliseconds.
    pub fn timeout(self, timeout: u64) -> (who_has: WhoHas)
        ensures
            who_has == (WhoHas { timeout, ..self }),
    {
        WhoHas { timeout, ..self }
    }

    /// Restricts the search to one network, or to none.
    pub fn subnet(self, subnet: Option<u16>) -> (who_has: WhoHas)
        ensures
            who_has == (WhoHas { subnet, ..self }),
    {
        WhoHas { subnet, ..self }
    }

    /// Where the request is broadcast.
    pub fn destination(&self) -> (destination: Destination)
        ensures
            destination == destination_of(self.subnet),
    {
        match self.subnet {
            Some(net) => Destination::Network(net),
            None => Destination::Global,
        }
    }

    /// Whether the search goes on listening: as long as less time than its
    /// timeout has passed since the request. `elapsed` is that time in
    /// milliseconds, with a millisecond that has only begun not counted.
    pub fn listening(&self, elapsed: u64) -> (listening: bool)
        ensures
            listening == (elapsed < self.timeout),
    {
        elapsed < self.timeout
    }

    /// Ends the search: takes the answers off the list, in the order in
    /// which they came, and leaves the list empty.
    pub fn execute(self, discovered: &mut Vec<IHaveData>) -> (res: Result<
        Vec<IHaveData>,
        BACnetErr,
    >)
        ensures
            res matches Ok(answers) && answers@ == old(discovered)@,
            final(discovered)@ == Seq::<IHaveData>::empty(),
    {
        let mut answers: Vec<IHaveData> = Vec::new();
        core::mem::swap(discovered, &mut answers);
        Ok(answers)
    }
}

impl Default for WhoHas {
    fn default() -> (who_has: WhoHas)
        ensures
            who_has == (WhoHas {
                object_type: OBJECT_DEVICE,
                object_instance: 0,
                timeout: DEFAULT_TIMEOUT_MS,
                subnet: None,
            }),
    {
        WhoHas::new()
    }
}

} // verus!
