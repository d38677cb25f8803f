//! The interrogation of a whole device.
//!
//! An interrogation scans the properties of the device object, reads the
//! device's list of objects element by element, and scans each object that
//! the list names. Like a scan it does no reading itself: it says what it
//! waits for, takes it, and moves on.

use crate::encoding::{OBJECT_DEVICE, PROP_OBJECT_LIST};
use crate::errors::{BACnetErr, ErrView};
use crate::request::{ReadRequest, BACNET_ARRAY_ALL};
use crate::scan::{properties_view, start_spec, PropertyScan, ScanStep, ScanStepView, ScanView};
use crate::value::{outcome_view, BACnetValue, ValueView};
use crate::whohas::ObjectId;
use std::collections::HashMap;
use vstd::prelude::*;

verus! {

/// The array index of the first element of the object list that is read.
pub const FIRST_LISTED_OBJECT: u32 = 2;

/// The array index of the last element that is read of an object list of
/// length `len`: one beyond the length.
pub open spec fn last_listed_object(len: u64) -> u32 {
    (len + 1) as u32
}

/// What the interrogation of a device found: the properties of the device
/// object, and those of each object on its list, in the order of the list.
/// Properties are named by their identifiers.
#[derive(Debug, PartialEq)]
pub struct Epics {
    pub device: HashMap<u32, BACnetValue>,
    pub object_list: Vec<HashMap<u32, BACnetValue>>,
}

/// The mathematical value of an [`Epics`].
pub struct EpicsView {
    pub device: Map<u32, ValueView>,
    pub object_list: Seq<Map<u32, ValueView>>,
}

/// The views of the property maps in a sequence.
pub open spec fn objects_view(objects: Seq<HashMap<u32, BACnetValue>>) -> Seq<
    Map<u32, ValueView>,
> {
    Seq::new(objects.len(), |i: int| properties_view(objects[i]@))
}

impl View for Epics {
    type V = EpicsView;

    open spec fn view(&self) -> EpicsView {
        EpicsView {
            device: properties_view(self.device@),
            object_list: objects_view(self.object_list@),
        }
    }
}

/// What an interrogation waits for.
#[derive(Clone, Copy, Debug, PartialEq, Eq)]
pub enum EpicsRequest {
    /// The outcome of this read.
    Read(ReadRequest),
    /// The properties that the protocol declares for this type of object.
    PropertyLists { object_type: u32 },
}

/// What an interrogation is given.
#[derive(Debug, PartialEq)]
pub enum EpicsEvent {
    /// The outcome of the read it waited for.
    Read(Result<BACnetValue, BACnetErr>),
    /// The properties of the type of object it asked about.
    PropertyLists { required: Vec<u32>, optional: Vec<u32> },
}

/// The mathematical value of an [`EpicsEvent`].
pub enum EpicsEventView {
    Read(Result<ValueView, ErrView>),
    PropertyLists { required: Seq<u32>, optional: Seq<u32> },
}

impl View for EpicsEvent {
    type V = EpicsEventView;

    open spec fn view(&self) -> EpicsEventView {
        match self {
            EpicsEvent::Read(outcome) => EpicsEventView::Read(outcome_view(*outcome)),
            EpicsEvent::PropertyLists { required, optional } => EpicsEventView::PropertyLists {
                required: required@,
                optional: optional@,
            },
        }
    }
}

/// Where an interrogation stands.
#[derive(Debug)]
pub enum EpicsPhase {
    /// The device object is being scanned.
    Device(PropertyScan),
    /// The length of the object list was asked for.
    ObjectListLength,
    /// Element `next` of the object list was asked for; element `last` is
    /// the last one to ask for.
    ObjectList { last: u32, next: u32 },
    /// The properties of the type of the next object were asked for.
    PropertyLists,
    /// The next object is being scanned.
    Object(PropertyScan),
}

/// The mathematical value of an [`EpicsPhase`].
pub enum EpicsPhaseView {
    Device(ScanView),
    ObjectListLength,
    ObjectList { last: u32, next: u32 },
    PropertyLists,
    Object(ScanView),
}

impl View for EpicsPhase {
    type V = EpicsPhaseView;

    open spec fn view(&self) -> EpicsPhaseView {
        match self {
            EpicsPhase::Device(scan) => EpicsPhaseView::Device(scan@),
            EpicsPhase::ObjectListLength => EpicsPhaseView::ObjectListLength,
            EpicsPhase::ObjectList { last, next } => EpicsPhaseView::ObjectList {
                last: *last,
                next: *next,
            },
            EpicsPhase::PropertyLists => EpicsPhaseView::PropertyLists,
            EpicsPhase::Object(scan) => EpicsPhaseView::Object(scan@),
        }
    }
}

/// An interrogation that waits for a read or for the properties of a type.
#[derive(Debug)]
pub struct EpicsScan {
    device_id: u32,
    phase: EpicsPhase,
    device: HashMap<u32, BACnetValue>,
    object_ids: Vec<ObjectId>,
    objects: Vec<HashMap<u32, BACnetValue>>,
}

/// The mathematical value of an [`EpicsScan`]: the device, where the
/// interrogation stands, the properties found of the device object, the
/// objects found on the list, and the properties found of the first of them.
pub struct EpicsScanView {
    pub device_id: u32,
    pub phase: EpicsPhaseView,
    pub device: Map<u32, ValueView>,
    pub object_ids: Seq<ObjectId>,
    pub objects: Seq<Map<u32, ValueView>>,
}

impl View for EpicsScan {
    type V = EpicsScanView;

    closed spec fn view(&self) -> EpicsScanView {
        EpicsScanView {
            device_id: self.device_id,
            phase: self.phase@,
            device: properties_view(self.device@),
            object_ids: self.object_ids@,
            objects: objects_view(self.objects@),
        }
    }
}

/// What an interrogation has come to.
#[derive(Debug)]
pub enum EpicsStep {
    /// It waits for something more.
    Next(EpicsScan),
    /// It is complete.
    Done(Epics),
    /// It has failed.
    Failed(BACnetErr),
}

/// The mathematical value of an [`EpicsStep`].
pub enum EpicsStepView {
    Next(EpicsScanView),
    Done(EpicsView),
    Failed(ErrView),
}

impl View for EpicsStep {
    type V = EpicsStepView;

    open spec fn view(&self) -> EpicsStepView {
        match self {
            EpicsStep::Next(scan) => EpicsStepView::Next(scan@),
            EpicsStep::Done(epics) => EpicsStepView::Done(epics@),
            EpicsStep::Failed(err) => EpicsStepView::Failed(err@),
        }
    }
}

impl EpicsScanView {
    /// The object that is scanned next, or is being scanned: the first one
    /// whose properties have not been found.
    pub open spec fn current_object(self) -> ObjectId {
        self.object_ids[self.objects.len() as int]
    }

    /// An interrogation is well formed when the scan it runs is well formed
    /// and reads the object whose turn it is, when the element of the object
    /// list that it reads is one of those to read, and when no more objects
    /// were scanned than were found.
    pub open spec fn wf(self) -> bool {
        match self.phase {
            EpicsPhaseView::Device(scan) => {
                &&& scan.wf()
                &&& scan.object_type == OBJECT_DEVICE
                &&& scan.object_instance == self.device_id
                &&& self.object_ids.len() == 0
                &&& self.objects.len() == 0
            },
            EpicsPhaseView::ObjectListLength => {
                &&& self.object_ids.len() == 0
                &&& self.objects.len() == 0
            },
            EpicsPhaseView::ObjectList { last, next } => {
                &&& FIRST_LISTED_OBJECT <= next <= last < BACNET_ARRAY_ALL
                &&& self.objects.len() == 0
            },
            EpicsPhaseView::PropertyLists => self.objects.len() < self.object_ids.len(),
            EpicsPhaseView::Object(scan) => {
                &&& self.objects.len() < self.object_ids.len()
                &&& scan.wf()
                &&& scan.object_type == self.current_object().object_type
                &&& scan.object_instance == self.current_object().object_instance
            },
        }
    }

    /// What the interrogation waits for.
    pub open spec fn request(self) -> EpicsRequest {
        match self.phase {
            EpicsPhaseView::Device(scan) => EpicsRequest::Read(scan.request()),
            EpicsPhaseView::ObjectListLength => EpicsRequest::Read(
                ReadRequest {
                    object_type: OBJECT_DEVICE,
                    object_instance: self.device_id,
                    property_id: PROP_OBJECT_LIST,
                    index: 0,
                },
            ),
            EpicsPhaseView::ObjectList { last, next } => EpicsRequest::Read(
                ReadRequest {
                    object_type: OBJECT_DEVICE,
                    object_instance: self.device_id,
                    property_id: PROP_OBJECT_LIST,
                    index: next,
                },
            ),
            EpicsPhaseView::PropertyLists => EpicsRequest::PropertyLists {
                object_type: self.current_object().object_type,
            },
            EpicsPhaseView::Object(scan) => EpicsRequest::Read(scan.request()),
        }
    }

    /// The interrogation once `objects` holds the properties of the objects
    /// scanned so far: it turns to the next object, or is complete.
    pub open spec fn with_objects(self, objects: Seq<Map<u32, ValueView>>) -> EpicsStepView {
        if objects.len() < self.object_ids.len() {
            EpicsStepView::Next(
                EpicsScanView { phase: EpicsPhaseView::PropertyLists, objects, ..self },
            )
        } else {
            EpicsStepView::Done(EpicsView { device: self.device, object_list: objects })
        }
    }

    /// The interrogation after a step of the scan of the device object.
    pub open spec fn after_device_step(self, step: ScanStepView) -> EpicsStepView {
        match step {
            ScanStepView::Next(scan) => EpicsStepView::Next(
                EpicsScanView { phase: EpicsPhaseView::Device(scan), ..self },
            ),
            ScanStepView::Done(found) => EpicsStepView::Next(
                EpicsScanView { phase: EpicsPhaseView::ObjectListLength, device: found, ..self },
            ),
            ScanStepView::Failed(err) => EpicsStepView::Failed(err),
        }
    }

    /// The interrogation after a step of the scan of the object whose turn
    /// it is.
    pub open spec fn after_object_step(self, step: ScanStepView) -> EpicsStepView {
        match step {
            ScanStepView::Next(scan) => EpicsStepView::Next(
                EpicsScanView { phase: EpicsPhaseView::Object(scan), ..self },
            ),
            ScanStepView::Done(found) => self.with_objects(self.objects.push(found)),
            ScanStepView::Failed(err) => EpicsStepView::Failed(err),
        }
    }

    /// The interrogation after the length of the object list was read. The
    /// elements are read at the indices from 2 to the length and one more,
    /// so a list of length 0 has none to read. A length is an unsigned number
    /// for which that last index is below the one that stands for the whole
    /// list; anything else is an invalid value.
    pub open spec fn after_length(self, outcome: Result<ValueView, ErrView>) -> EpicsStepView {
        match outcome {
            Ok(ValueView::Uint(n)) if n + 1 < BACNET_ARRAY_ALL => if n == 0 {
                self.with_objects(Seq::empty())
            } else {
                EpicsStepView::Next(
                    EpicsScanView {
                        phase: EpicsPhaseView::ObjectList {
                            last: last_listed_object(n),
                            next: FIRST_LISTED_OBJECT,
                        },
                        ..self
                    },
                )
            },
            Ok(_) => EpicsStepView::Failed(ErrView::InvalidValue),
            Err(err) => EpicsStepView::Failed(err),
        }
    }

    /// The interrogation after element `next` of the object list was read,
    /// where element `last` is the last to read. An object identifier is
    /// added to the objects found, another value is passed over, and an
    /// error ends the interrogation.
    pub open spec fn after_element(self, last: u32, next: u32, outcome: Result<ValueView, ErrView>)
        -> EpicsStepView {
        match outcome {
            Err(err) => EpicsStepView::Failed(err),
            Ok(value) => {
                let object_ids = match value {
                    ValueView::ObjectId { object_type, object_instance } => self.object_ids.push(
                        ObjectId { object_type, object_instance },
                    ),
                    _ => self.object_ids,
                };
                if next < last {
                    EpicsStepView::Next(
                        EpicsScanView {
                            phase: EpicsPhaseView::ObjectList { last, next: (next + 1) as u32 },
                            object_ids,
                            ..self
                        },
                    )
                } else {
                    (EpicsScanView { object_ids, ..self }).with_objects(Seq::empty())
                }
            },
        }
    }

    /// The interrogation after it was given `event`. What it did not wait
    /// for changes nothing.
    pub open spec fn step(self, event: EpicsEventView) -> EpicsStepView {
        match (self.phase, event) {
            (EpicsPhaseView::Device(scan), EpicsEventView::Read(outcome)) => self.after_device_step(
                scan.record(outcome),
            ),
            (EpicsPhaseView::ObjectListLength, EpicsEventView::Read(outcome)) => self.after_length(
                outcome,
            ),
            (
                EpicsPhaseView::ObjectList { last, next },
                EpicsEventView::Read(outcome),
            ) => self.after_element(last, next, outcome),
            (
                EpicsPhaseView::PropertyLists,
                EpicsEventView::PropertyLists { required, optional },
            ) => self.after_object_step(
                start_spec(
                    self.current_object().object_type,
                    self.current_object().object_instance,
                    required,
                    optional,
                ),
            ),
            (EpicsPhaseView::Object(scan), EpicsEventView::Read(outcome)) => self.after_object_step(
                scan.record(outcome),
            ),
            _ => EpicsStepView::Next(self),
        }
    }
}

/// The interrogation of device `device_id` before its first read: the scan
/// of the device object has begun. `required` and `optional` are the
/// properties that the protocol declares for the device object.
pub open spec fn epics_start_spec(device_id: u32, required: Seq<u32>, optional: Seq<u32>)
    -> EpicsStepView {
    (EpicsScanView {
        device_id,
        phase: EpicsPhaseView::ObjectListLength,
        device: Map::empty(),
        object_ids: Seq::empty(),
        objects: Seq::empty(),
    }).after_device_step(start_spec(OBJECT_DEVICE, device_id, required, optional))
}

/// The view of a list of property maps after one more was added.
proof fn lemma_objects_push(
    objects: Seq<HashMap<u32, BACnetValue>>,
    found: HashMap<u32, BACnetValue>,
)
    ensures
        objects_view(objects.push(found)) == objects_view(objects).push(properties_view(found@)),
{
    assert(objects_view(objects.push(found)) =~= objects_view(objects).push(
        properties_view(found@),
    ));
}

impl EpicsScan {
    /// Every interrogation is well formed.
    #[verifier::type_invariant]
    spec fn well_formed(self) -> bool {
        self@.wf()
    }

    /// Begins the interrogation of device `device_id`. `required` and
    /// `optional` are the properties that the protocol declares for the
    /// device object.
    pub fn start(device_id: u32, required: &Vec<u32>, optional: &Vec<u32>) -> (step: EpicsStep)
        ensures
            step@ == epics_start_spec(device_id, required@, optional@),
            step matches EpicsStep::Next(scan) ==> scan@.wf(),
    {
        let object_ids: Vec<ObjectId> = Vec::new();
        let objects: Vec<HashMap<u32, BACnetValue>> = Vec::new();
        assert(objects_view(objects@) =~= Seq::empty());
        match PropertyScan::start(OBJECT_DEVICE, device_id, required, optional) {
            ScanStep::Next(scan) => {
                let device: HashMap<u32, BACnetValue> = HashMap::new();
                assert(properties_view(device@) =~= Map::empty());
                EpicsStep::Next(
                    EpicsScan {
                        device_id,
                        phase: EpicsPhase::Device(scan),
                        device,
                        object_ids,
                        objects,
                    },
                )
            },
            ScanStep::Done(device) => EpicsStep::Next(
                EpicsScan {
                    device_id,
                    phase: EpicsPhase::ObjectListLength,
                    device,
                    object_ids,
                    objects,
                },
            ),
            ScanStep::Failed(err) => EpicsStep::Failed(err),
        }
    }

    /// What the interrogation waits for.
    pub fn request(&self) -> (request: EpicsRequest)
        ensures
            self@.wf(),
            request == self@.request(),
    {
        proof {
            use_type_invariant(self);
        }
        match &self.phase {
            EpicsPhase::Device(scan) => EpicsRequest::Read(scan.request()),
            EpicsPhase::ObjectListLength => EpicsRequest::Read(
                ReadRequest {
                    object_type: OBJECT_DEVICE,
                    object_instance: self.device_id,
                    property_id: PROP_OBJECT_LIST,
                    index: 0,
                },
            ),
            EpicsPhase::ObjectList { last, next } => EpicsRequest::Read(
                ReadRequest {
                    object_type: OBJECT_DEVICE,
                    object_instance: self.device_id,
                    property_id: PROP_OBJECT_LIST,
                    index: *next,
                },
            ),
            EpicsPhase::PropertyLists => EpicsRequest::PropertyLists {
                object_type: self.object_ids[self.objects.len()].object_type,
            },
            EpicsPhase::Object(scan) => EpicsRequest::Read(scan.request()),
        }
    }

    /// Turns to the next object, or completes the interrogation.
    fn with_objects(
        device_id: u32,
        device: HashMap<u32, BACnetValue>,
        object_ids: Vec<ObjectId>,
        objects: Vec<HashMap<u32, BACnetValue>>,
    ) -> (step: EpicsStep)
        requires
            objects@.len() <= object_ids@.len(),
        ensures
            step@ == (EpicsScanView {
                device_id,
                phase: EpicsPhaseView::PropertyLists,
                device: properties_view(device@),
                object_ids: object_ids@,
                objects: Seq::empty(),
            }).with_objects(objects_view(objects@)),
            step matches EpicsStep::Next(scan) ==> scan@.wf(),
    {
        if objects.len() < object_ids.len() {
            EpicsStep::Next(
                EpicsScan { device_id, phase: EpicsPhase::PropertyLists, device, object_ids, objects },
            )
        } else {
            EpicsStep::Done(Epics { device, object_list: objects })
        }
    }

    /// Goes on after a step of the scan of the object whose turn it is.
    fn after_object_step(
        device_id: u32,
        device: HashMap<u32, BACnetValue>,
        object_ids: Vec<ObjectId>,
        objects: Vec<HashMap<u32, BACnetValue>>,
        scanned: ScanStep,
    ) -> (step: EpicsStep)
        requires
            objects@.len() < object_ids@.len(),
            scanned matches ScanStep::Next(scan) ==> {
                &&& scan@.wf()
                &&& scan@.object_type == object_ids@[objects@.len() as int].object_type
                &&& scan@.object_instance == object_ids@[objects@.len() as int].object_instance
            },
        ensures
            step@ == (EpicsScanView {
                device_id,
                phase: EpicsPhaseView::PropertyLists,
                device: properties_view(device@),
                object_ids: object_ids@,
                objects: objects_view(objects@),
            }).after_object_step(scanned@),
            step matches EpicsStep::Next(scan) ==> scan@.wf(),
    {
        match scanned {
            ScanStep::Next(scan) => EpicsStep::Next(
                EpicsScan { device_id, phase: EpicsPhase::Object(scan), device, object_ids, objects },
            ),
            ScanStep::Done(found) => {
                let mut objects = objects;
                proof {
                    lemma_objects_push(objects@, found);
                }
                objects.push(found);
                Self::with_objects(device_id, device, object_ids, objects)
            },
            ScanStep::Failed(err) => EpicsStep::Failed(err),
        }
    }

    /// Gives the interrogation what it waited for.
    pub fn step(self, event: EpicsEvent) -> (step: EpicsStep)
        ensures
            self@.wf(),
            step@ == self@.step(event@),
            step matches EpicsStep::Next(scan) ==> scan@.wf(),
    {
        proof {
            use_type_invariant(&self);
        }
        let EpicsScan { device_id, phase, device, object_ids, objects } = self;
        match (phase, event) {
            (EpicsPhase::Device(scan), EpicsEvent::Read(outcome)) => {
                match scan.record(outcome) {
                    ScanStep::Next(scan) => EpicsStep::Next(
                        EpicsScan {
                            device_id,
                            phase: EpicsPhase::Device(scan),
                            device,
                            object_ids,
                            objects,
                        },
                    ),
                    ScanStep::Done(found) => EpicsStep::Next(
                        EpicsScan {
                            device_id,
                            phase: EpicsPhase::ObjectListLength,
                            device: found,
                            object_ids,
                            objects,
                        },
                    ),
                    ScanStep::Failed(err) => EpicsStep::Failed(err),
                }
            },
            (EpicsPhase::ObjectListLength, EpicsEvent::Read(outcome)) => {
                match outcome {
                    Ok(BACnetValue::Uint(n)) => {
                        if n >= (BACNET_ARRAY_ALL - 1) as u64 {
                            EpicsStep::Failed(BACnetErr::InvalidValue)
                        } else if n == 0 {
                            assert(objects_view(objects@) =~= Seq::empty());
                            Self::with_objects(device_id, device, object_ids, objects)
                        } else {
                            EpicsStep::Next(
                                EpicsScan {
                                    device_id,
                                    phase: EpicsPhase::ObjectList {
                                        last: (n + 1) as u32,
                                        next: FIRST_LISTED_OBJECT,
                                    },
                                    device,
                                    object_ids,
                                    objects,
                                },
                            )
                        }
                    },
                    Ok(_) => EpicsStep::Failed(BACnetErr::InvalidValue),
                    Err(err) => EpicsStep::Failed(err),
                }
            },
            (EpicsPhase::ObjectList { last, next }, EpicsEvent::Read(outcome)) => {
                match outcome {
                    Err(err) => EpicsStep::Failed(err),
                    Ok(value) => {
                        let mut object_ids = object_ids;
                        match value {
                            BACnetValue::ObjectId { object_type, object_instance } => {
                                object_ids.push(ObjectId { object_type, object_instance });
                            },
                            _ => {},
                        }
                        if next < last {
                            EpicsStep::Next(
                                EpicsScan {
                                    device_id,
                                    phase: EpicsPhase::ObjectList { last, next: next + 1 },
                                    device,
                                    object_ids,
                                    objects,
                                },
                            )
                        } else {
                            assert(objects_view(objects@) =~= Seq::empty());
                            Self::with_objects(device_id, device, object_ids, objects)
                        }
                    },
                }
            },
            (EpicsPhase::PropertyLists, EpicsEvent::PropertyLists { required, optional }) => {
                let object = object_ids[objects.len()];
                let scanned = PropertyScan::start(
                    object.object_type,
                    object.object_instance,
                    &required,
                    &optional,
                );
                Self::after_object_step(device_id, device, object_ids, objects, scanned)
            },
            (EpicsPhase::Object(scan), EpicsEvent::Read(outcome)) => {
                let scanned = scan.record(outcome);
                Self::after_object_step(device_id, device, object_ids, objects, scanned)
            },
            (phase, _) => EpicsStep::Next(
                EpicsScan { device_id, phase, device, object_ids, objects },
            ),
        }
    }
}

/// The interrogation after it was given these events, one after the other.
/// Events that come after it has ended change nothing.
pub open spec fn run(step: EpicsStepView, events: Seq<EpicsEventView>) -> EpicsStepView
    decreases events.len(),
{
    if events.len() == 0 {
        step
    } else {
        match step {
            EpicsStepView::Next(scan) => run(scan.step(events[0]), events.drop_first()),
            _ => step,
        }
    }
}

/// The object identifiers among these values, in the order of the values.
pub open spec fn listed_objects(values: Seq<ValueView>) -> Seq<ObjectId>
    decreases values.len(),
{
    if values.len() == 0 {
        Seq::empty()
    } else {
        let rest = listed_objects(values.drop_first());
        match values[0] {
            ValueView::ObjectId { object_type, object_instance } => seq![
                ObjectId { object_type, object_instance },
            ] + rest,
            _ => rest,
        }
    }
}

/// The events that hand over these values, each as the outcome of a read.
pub open spec fn reads_of(values: Seq<ValueView>) -> Seq<EpicsEventView> {
    Seq::new(values.len(), |i: int| EpicsEventView::Read(Ok(values[i])))
}

/// A step keeps an interrogation well formed.
pub proof fn lemma_step_wf(scan: EpicsScanView, event: EpicsEventView)
    requires
        scan.wf(),
    ensures
        scan.step(event) matches EpicsStepView::Next(next) ==> next.wf(),
{
}

/// Objects are scanned in the order in which the list named them, and each
/// gives one map. Once the list was read, a step changes neither the objects
/// found nor the properties of the device object; it leaves the maps as
/// they are or adds the one of the object whose turn it was; and the
/// interrogation is complete only with as many maps as objects.
pub proof fn lemma_one_map_per_object(scan: EpicsScanView, event: EpicsEventView)
    requires
        scan.wf(),
        scan.phase is PropertyLists || scan.phase is Object,
    ensures
        match scan.step(event) {
            EpicsStepView::Next(next) => {
                &&& next.object_ids == scan.object_ids
                &&& next.device == scan.device
                &&& next.phase is PropertyLists || next.phase is Object
                &&& next.objects == scan.objects || (next.objects.len() == scan.objects.len() + 1
                    && next.objects.drop_last() == scan.objects)
            },
            EpicsStepView::Done(epics) => {
                &&& epics.device == scan.device
                &&& epics.object_list.len() == scan.object_ids.len()
                &&& epics.object_list.drop_last() == scan.objects
            },
            EpicsStepView::Failed(_) => true,
        },
{
    match scan.step(event) {
        EpicsStepView::Next(next) => {
            if next.objects != scan.objects {
                assert(next.objects.drop_last() =~= scan.objects);
            }
        },
        EpicsStepView::Done(epics) => {
            assert(epics.object_list.drop_last() =~= scan.objects);
        },
        EpicsStepView::Failed(_) => {},
    }
}

/// The read of element `index` of the object list of device `device_id`.
pub open spec fn list_element_read(device_id: u32, index: int) -> EpicsRequest {
    EpicsRequest::Read(
        ReadRequest {
            object_type: OBJECT_DEVICE,
            object_instance: device_id,
            property_id: PROP_OBJECT_LIST,
            index: index as u32,
        },
    )
}

/// While the elements of the object list are read and not all were asked
/// for, each value moves the interrogation on by one element.
proof fn lemma_list_goes_on(scan: EpicsScanView, values: Seq<ValueView>)
    requires
        scan.wf(),
        scan.phase is ObjectList,
        values.len() <= scan.phase->last - scan.phase->next,
    ensures
        run(EpicsStepView::Next(scan), reads_of(values)) matches EpicsStepView::Next(after)
            && after.wf() && after.device_id == scan.device_id && after.phase
            == (EpicsPhaseView::ObjectList {
            last: scan.phase->last,
            next: (scan.phase->next + values.len()) as u32,
        }),
    decreases values.len(),
{
    if values.len() > 0 {
        let events = reads_of(values);
        assert(events[0] == EpicsEventView::Read(Ok(values[0])));
        assert(events.drop_first() =~= reads_of(values.drop_first()));
        let next = scan.step(events[0])->Next_0;
        lemma_list_goes_on(next, values.drop_first());
    }
}

/// While the elements of the object list are read, each value that is an
/// object identifier is added to the objects found.
proof fn lemma_list_elements(scan: EpicsScanView, values: Seq<ValueView>)
    requires
        scan.wf(),
        scan.phase is ObjectList,
        values.len() == scan.phase->last - scan.phase->next + 1,
    ensures
        run(EpicsStepView::Next(scan), reads_of(values)) == (EpicsScanView {
            object_ids: scan.object_ids + listed_objects(values),
            ..scan
        }).with_objects(Seq::empty()),
    decreases values.len(),
{
    let events = reads_of(values);
    let rest = values.drop_first();
    assert(events[0] == EpicsEventView::Read(Ok(values[0])));
    assert(events.drop_first() =~= reads_of(rest));
    let object_ids = match values[0] {
        ValueView::ObjectId { object_type, object_instance } => scan.object_ids.push(
            ObjectId { object_type, object_instance },
        ),
        _ => scan.object_ids,
    };
    assert(object_ids + listed_objects(rest) =~= scan.object_ids + listed_objects(values));
    if scan.phase->next < scan.phase->last {
        let next = scan.step(events[0])->Next_0;
        lemma_list_elements(next, rest);
        assert((EpicsScanView { object_ids: next.object_ids + listed_objects(rest), ..next })
            .with_objects(Seq::empty()) == (EpicsScanView {
            object_ids: scan.object_ids + listed_objects(values),
            ..scan
        }).with_objects(Seq::empty()));
    } else {
        assert(rest.len() == 0);
        assert(object_ids + listed_objects(rest) =~= object_ids);
    }
}

/// The elements of the object list are asked for at the indices from 2 to
/// the length and one more, each once and in this order: after a length
/// `len` of at least one and the values of the first `read` of these `len`
/// elements, the interrogation waits for element `2 + read`. Element 1 is
/// never asked for.
pub proof fn lemma_object_list_reads(scan: EpicsScanView, len: u64, values: Seq<ValueView>)
    requires
        scan.wf(),
        scan.phase is ObjectListLength,
        1 <= len,
        len + 1 < BACNET_ARRAY_ALL,
        values.len() < len,
    ensures
        run(
            EpicsStepView::Next(scan),
            seq![EpicsEventView::Read(Ok(ValueView::Uint(len)))] + reads_of(values),
        ) matches EpicsStepView::Next(after) && after.wf() && after.request()
            == list_element_read(scan.device_id, FIRST_LISTED_OBJECT + values.len()),
{
    let length = EpicsEventView::Read(Ok(ValueView::Uint(len)));
    let events = seq![length] + reads_of(values);
    assert(events.drop_first() =~= reads_of(values));
    let reading = scan.step(length)->Next_0;
    lemma_list_goes_on(reading, values);
}

/// After a length `len` of at least one and the values of the `len`
/// elements at the indices from 2 to `len + 1`, the object list is read: the
/// objects found are the object identifiers among the values, in their
/// order, and the interrogation turns to the first of them, or is complete
/// where there is none.
pub proof fn lemma_object_list(scan: EpicsScanView, len: u64, values: Seq<ValueView>)
    requires
        scan.wf(),
        scan.phase is ObjectListLength,
        1 <= len,
        len + 1 < BACNET_ARRAY_ALL,
        values.len() == len,
    ensures
        run(
            EpicsStepView::Next(scan),
            seq![EpicsEventView::Read(Ok(ValueView::Uint(len)))] + reads_of(values),
        ) == (EpicsScanView { object_ids: listed_objects(values), ..scan }).with_objects(
            Seq::empty(),
        ),
{
    let length = EpicsEventView::Read(Ok(ValueView::Uint(len)));
    let events = seq![length] + reads_of(values);
    assert(events.drop_first() =~= reads_of(values));
    let reading = scan.step(length)->Next_0;
    lemma_list_elements(reading, values);
    assert(scan.object_ids + listed_objects(values) =~= listed_objects(values));
}

/// An object list of length 0 has no element to read: the interrogation is
/// complete with the properties of the device object alone.
pub proof fn lemma_empty_object_list(scan: EpicsScanView)
    requires
        scan.wf(),
        scan.phase is ObjectListLength,
    ensures
        scan.step(EpicsEventView::Read(Ok(ValueView::Uint(0)))) == EpicsStepView::Done(
            EpicsView { device: scan.device, object_list: Seq::empty() },
        ),
{
}

} // verus!
