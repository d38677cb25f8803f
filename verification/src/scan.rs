//! The scan of the properties of one object.
//!
//! A scan reads the properties that the protocol declares for an object's
//! type, one read at a time. It does no reading itself: it says which read
//! comes next, takes the outcome, and moves on. Whoever drives it performs
//! the reads.

use crate::encoding::PROP_OBJECT_LIST;
use crate::errors::{BACnetErr, ErrView};
use crate::request::{ReadRequest, BACNET_ARRAY_ALL};
use crate::value::{outcome_view, values_view, BACnetValue, ValueView};
use std::collections::HashMap;
use vstd::prelude::*;

verus! {

broadcast use vstd::std_specs::hash::group_hash_axioms;

/// Most properties that a scan takes from one list.
pub const MAX_LISTED_PROPERTIES: usize = 130;

/// The abort reason of a device that cannot send a value in one message.
pub const ABORT_REASON_SEGMENTATION_NOT_SUPPORTED: u8 = 4;

/// One property on the list of a scan.
#[derive(Clone, Copy, Debug, PartialEq, Eq)]
pub struct ScanItem {
    pub property_id: u32,
    pub optional: bool,
}

/// The values of the properties that a scan found, by property identifier.
pub open spec fn properties_view(found: Map<u32, BACnetValue>) -> Map<u32, ValueView> {
    found.map_values(|v: BACnetValue| v@)
}

/// A list of properties as a scan takes it: cut to the limit.
pub open spec fn capped(list: Seq<u32>) -> Seq<u32> {
    list.take(
        if list.len() < MAX_LISTED_PROPERTIES {
            list.len() as int
        } else {
            MAX_LISTED_PROPERTIES as int
        },
    )
}

/// The required properties that are read: all but the object list.
pub open spec fn required_items(required: Seq<u32>) -> Seq<ScanItem> {
    required.filter(|p: u32| p != PROP_OBJECT_LIST).map_values(
        |p: u32| ScanItem { property_id: p, optional: false },
    )
}

/// The optional properties that are read.
pub open spec fn optional_items(optional: Seq<u32>) -> Seq<ScanItem> {
    optional.map_values(|p: u32| ScanItem { property_id: p, optional: true })
}

/// The properties that a scan reads, in the order in which it reads them:
/// the required ones without the object list, then the optional ones, each
/// list cut to the limit.
pub open spec fn work_list(required: Seq<u32>, optional: Seq<u32>) -> Seq<ScanItem> {
    required_items(capped(required)) + optional_items(capped(optional))
}

fn build_work_list(required: &Vec<u32>, optional: &Vec<u32>) -> (work: Vec<ScanItem>)
    ensures
        work@ == work_list(required@, optional@),
{
    let len: usize = if required.len() < MAX_LISTED_PROPERTIES {
        required.len()
    } else {
        MAX_LISTED_PROPERTIES
    };
    let optlen: usize = if optional.len() < MAX_LISTED_PROPERTIES {
        optional.len()
    } else {
        MAX_LISTED_PROPERTIES
    };
    let mut work: Vec<ScanItem> = Vec::new();
    let mut i: usize = 0;
    while i < len
        invariant
            i <= len <= required.len(),
            work@ == required_items(required@.take(i as int)),
        decreases len - i,
    {
        proof {
            let before = required@.take(i as int);
            assert(required@.take(i + 1) =~= before.push(required@[i as int]));
            before.lemma_filter_push(required@[i as int], |p: u32| p != PROP_OBJECT_LIST);
            assert(required_items(before.push(required@[i as int])) =~= if required@[i as int]
                != PROP_OBJECT_LIST {
                required_items(before).push(
                    ScanItem { property_id: required@[i as int], optional: false },
                )
            } else {
                required_items(before)
            });
        }
        if required[i] != PROP_OBJECT_LIST {
            work.push(ScanItem { property_id: required[i], optional: false });
        }
        i += 1;
    }
    let ghost first = work@;
    let mut j: usize = 0;
    while j < optlen
        invariant
            j <= optlen <= optional.len(),
            work@ == first + optional_items(optional@.take(j as int)),
        decreases optlen - j,
    {
        proof {
            let before = optional@.take(j as int);
            assert(optional@.take(j + 1) =~= before.push(optional@[j as int]));
            assert(optional_items(before.push(optional@[j as int])) =~= optional_items(
                before,
            ).push(ScanItem { property_id: optional@[j as int], optional: true }));
            assert(first + optional_items(before.push(optional@[j as int])) =~= (first
                + optional_items(before)).push(
                ScanItem { property_id: optional@[j as int], optional: true },
            ));
        }
        work.push(ScanItem { property_id: optional[j], optional: true });
        j += 1;
    }
    work
}

/// Where a scan stands on the property it is reading.
#[derive(Debug)]
pub enum ScanPhase {
    /// The whole property was asked for.
    Scalar,
    /// The device cannot send the property in one message: its length was
    /// asked for.
    ArrayLength,
    /// Element `next` of `len` was asked for; `items` holds the elements that
    /// were read.
    ArrayElements { len: u32, next: u32, items: Vec<BACnetValue> },
}

/// The mathematical value of a [`ScanPhase`].
pub enum ScanPhaseView {
    Scalar,
    ArrayLength,
    ArrayElements { len: u32, next: u32, items: Seq<ValueView> },
}

impl View for ScanPhase {
    type V = ScanPhaseView;

    open spec fn view(&self) -> ScanPhaseView {
        match self {
            ScanPhase::Scalar => ScanPhaseView::Scalar,
            ScanPhase::ArrayLength => ScanPhaseView::ArrayLength,
            ScanPhase::ArrayElements { len, next, items } => ScanPhaseView::ArrayElements {
                len: *len,
                next: *next,
                items: values_view(items@),
            },
        }
    }
}

/// A scan that waits for the outcome of a read.
#[derive(Debug)]
pub struct PropertyScan {
    object_type: u32,
    object_instance: u32,
    work: Vec<ScanItem>,
    pos: usize,
    phase: ScanPhase,
    found: HashMap<u32, BACnetValue>,
}

/// The mathematical value of a [`PropertyScan`]: the object, the properties
/// to read, the place of the one that is being read, where its reading
/// stands, and the values found so far.
pub struct ScanView {
    pub object_type: u32,
    pub object_instance: u32,
    pub work: Seq<ScanItem>,
    pub pos: int,
    pub phase: ScanPhaseView,
    pub found: Map<u32, ValueView>,
}

/// What a scan has come to.
#[derive(Debug)]
pub enum ScanStep {
    /// Another read is due.
    Next(PropertyScan),
    /// Every property was dealt with: the values that were found.
    Done(HashMap<u32, BACnetValue>),
    /// A read timed out, which ends the scan.
    Failed(BACnetErr),
}

/// The mathematical value of a [`ScanStep`].
pub enum ScanStepView {
    Next(ScanView),
    Done(Map<u32, ValueView>),
    Failed(ErrView),
}

impl View for ScanStep {
    type V = ScanStepView;

    open spec fn view(&self) -> ScanStepView {
        match self {
            ScanStep::Next(scan) => ScanStepView::Next(scan@),
            ScanStep::Done(found) => ScanStepView::Done(properties_view(found@)),
            ScanStep::Failed(err) => ScanStepView::Failed(err@),
        }
    }
}

impl ScanView {
    /// A scan is well formed when it stands on a property of its list and,
    /// while it reads elements, on an element of the array.
    pub open spec fn wf(self) -> bool {
        &&& 0 <= self.pos < self.work.len()
        &&& self.phase matches ScanPhaseView::ArrayElements { len, next, items } ==> 1 <= next
            <= len < BACNET_ARRAY_ALL
    }

    /// The property that is being read.
    pub open spec fn property_id(self) -> u32 {
        self.work[self.pos].property_id
    }

    /// The read that the scan waits for.
    pub open spec fn request(self) -> ReadRequest {
        ReadRequest {
            object_type: self.object_type,
            object_instance: self.object_instance,
            property_id: self.property_id(),
            index: match self.phase {
                ScanPhaseView::Scalar => BACNET_ARRAY_ALL,
                ScanPhaseView::ArrayLength => 0,
                ScanPhaseView::ArrayElements { next, .. } => next,
            },
        }
    }

    /// The scan after the property that is being read: on the next property
    /// with `found` as the values so far, or done with them.
    pub open spec fn advance(self, found: Map<u32, ValueView>) -> ScanStepView {
        if self.pos + 1 < self.work.len() {
            ScanStepView::Next(
                ScanView { pos: self.pos + 1, phase: ScanPhaseView::Scalar, found, ..self },
            )
        } else {
            ScanStepView::Done(found)
        }
    }

    /// The scan after the outcome of the read it waited for.
    ///
    /// A timeout ends the scan. No other error does. A value read whole is
    /// kept. An optional property that the device cannot send in one message
    /// is read by its elements: first its length, then the elements from 1 to
    /// the length; the elements that could be read make up an array. A
    /// property whose read fails otherwise, or whose length cannot be had, is
    /// left out.
    pub open spec fn record(self, outcome: Result<ValueView, ErrView>) -> ScanStepView {
        let property_id = self.property_id();
        match outcome {
            Err(e) if e.is_timeout() => ScanStepView::Failed(e),
            _ => match self.phase {
                ScanPhaseView::Scalar => match outcome {
                    Ok(v) => self.advance(self.found.insert(property_id, v)),
                    Err(ErrView::Aborted { code, .. }) if code
                        == ABORT_REASON_SEGMENTATION_NOT_SUPPORTED && self.work[self.pos].optional =>
                        ScanStepView::Next(ScanView { phase: ScanPhaseView::ArrayLength, ..self }),
                    Err(_) => self.advance(self.found),
                },
                ScanPhaseView::ArrayLength => match outcome {
                    Ok(ValueView::Uint(n)) if n < BACNET_ARRAY_ALL => if n == 0 {
                        self.advance(
                            self.found.insert(property_id, ValueView::Array(Seq::empty())),
                        )
                    } else {
                        ScanStepView::Next(
                            ScanView {
                                phase: ScanPhaseView::ArrayElements {
                                    len: n as u32,
                                    next: 1,
                                    items: Seq::empty(),
                                },
                                ..self
                            },
                        )
                    },
                    _ => self.advance(self.found),
                },
                ScanPhaseView::ArrayElements { len, next, items } => {
                    let items = match outcome {
                        Ok(v) => items.push(v),
                        Err(_) => items,
                    };
                    if next < len {
                        ScanStepView::Next(
                            ScanView {
                                phase: ScanPhaseView::ArrayElements {
                                    len,
                                    next: (next + 1) as u32,
                                    items,
                                },
                                ..self
                            },
                        )
                    } else {
                        self.advance(self.found.insert(property_id, ValueView::Array(items)))
                    }
                },
            },
        }
    }
}

/// The scan of an object before its first read: on the first property of
/// its list, or done where the list is empty.
pub open spec fn start_spec(
    object_type: u32,
    object_instance: u32,
    required: Seq<u32>,
    optional: Seq<u32>,
) -> ScanStepView {
    let work = work_list(required, optional);
    if work.len() == 0 {
        ScanStepView::Done(Map::empty())
    } else {
        ScanStepView::Next(
            ScanView {
                object_type,
                object_instance,
                work,
                pos: 0,
                phase: ScanPhaseView::Scalar,
                found: Map::empty(),
            },
        )
    }
}

impl View for PropertyScan {
    type V = ScanView;

    closed spec fn view(&self) -> ScanView {
        ScanView {
            object_type: self.object_type,
            object_instance: self.object_instance,
            work: self.work@,
            pos: self.pos as int,
            phase: self.phase@,
            found: properties_view(self.found@),
        }
    }
}

impl PropertyScan {
    /// Every scan is well formed.
    #[verifier::type_invariant]
    spec fn well_formed(self) -> bool {
        self@.wf()
    }

    /// Begins the scan of one object. `required` and `optional` are the
    /// properties that the protocol declares for the object's type.
    pub fn start(
        object_type: u32,
        object_instance: u32,
        required: &Vec<u32>,
        optional: &Vec<u32>,
    ) -> (step: ScanStep)
        ensures
            step@ == start_spec(object_type, object_instance, required@, optional@),
            step matches ScanStep::Next(scan) ==> scan@.wf(),
    {
        let work = build_work_list(required, optional);
        let found: HashMap<u32, BACnetValue> = HashMap::new();
        assert(properties_view(found@) =~= Map::empty());
        if work.len() == 0 {
            ScanStep::Done(found)
        } else {
            ScanStep::Next(
                PropertyScan {
                    object_type,
                    object_instance,
                    work,
                    pos: 0,
                    phase: ScanPhase::Scalar,
                    found,
                },
            )
        }
    }

    /// The read that the scan waits for.
    pub fn request(&self) -> (request: ReadRequest)
        ensures
            self@.wf(),
            request == self@.request(),
    {
        proof {
            use_type_invariant(self);
        }
        ReadRequest {
            object_type: self.object_type,
            object_instance: self.object_instance,
            property_id: self.work[self.pos].property_id,
            index: match &self.phase {
                ScanPhase::Scalar => BACNET_ARRAY_ALL,
                ScanPhase::ArrayLength => 0,
                ScanPhase::ArrayElements { next, .. } => *next,
            },
        }
    }

    /// Moves on to the next property, with `found` as the values so far.
    fn advance(
        object_type: u32,
        object_instance: u32,
        work: Vec<ScanItem>,
        pos: usize,
        found: HashMap<u32, BACnetValue>,
    ) -> (step: ScanStep)
        requires
            pos < work.len(),
        ensures
            step@ == (ScanView {
                object_type,
                object_instance,
                work: work@,
                pos: pos as int,
                phase: ScanPhaseView::Scalar,
                found: properties_view(found@),
            }).advance(properties_view(found@)),
            step matches ScanStep::Next(scan) ==> scan@.wf(),
    {
        if pos + 1 < work.len() {
            ScanStep::Next(
                PropertyScan {
                    object_type,
                    object_instance,
                    work,
                    pos: pos + 1,
                    phase: ScanPhase::Scalar,
                    found,
                },
            )
        } else {
            ScanStep::Done(found)
        }
    }

    /// Keeps the elements that were read as the value of the property, and
    /// moves on to the next property.
    fn keep_array(
        object_type: u32,
        object_instance: u32,
        work: Vec<ScanItem>,
        pos: usize,
        found: HashMap<u32, BACnetValue>,
        items: Vec<BACnetValue>,
    ) -> (step: ScanStep)
        requires
            pos < work.len(),
        ensures
            step@ == (ScanView {
                object_type,
                object_instance,
                work: work@,
                pos: pos as int,
                phase: ScanPhaseView::Scalar,
                found: properties_view(found@),
            }).advance(
                properties_view(found@).insert(
                    work@[pos as int].property_id,
                    ValueView::Array(values_view(items@)),
                ),
            ),
            step matches ScanStep::Next(scan) ==> scan@.wf(),
    {
        let mut found = found;
        let ghost before = found@;
        let ghost array = BACnetValue::Array(items);
        found.insert(work[pos].property_id, BACnetValue::Array(items));
        proof {
            lemma_insert_view(before, work@[pos as int].property_id, array);
        }
        Self::advance(object_type, object_instance, work, pos, found)
    }

    /// Takes the outcome of the read that the scan waited for.
    pub fn record(self, outcome: Result<BACnetValue, BACnetErr>) -> (step: ScanStep)
        ensures
            self@.wf(),
            step@ == self@.record(outcome_view(outcome)),
            step matches ScanStep::Next(scan) ==> scan@.wf(),
    {
        proof {
            use_type_invariant(&self);
        }
        let PropertyScan { object_type, object_instance, work, pos, phase, found } = self;
        let property_id = work[pos].property_id;
        let optional = work[pos].optional;
        let mut found = found;
        match outcome {
            Err(e) => {
                if e.is_timeout() {
                    return ScanStep::Failed(e);
                }
                match phase {
                    ScanPhase::Scalar => {
                        let fallback = match &e {
                            BACnetErr::Aborted { code, .. } => *code
                                == ABORT_REASON_SEGMENTATION_NOT_SUPPORTED && optional,
                            _ => false,
                        };
                        if fallback {
                            ScanStep::Next(
                                PropertyScan {
                                    object_type,
                                    object_instance,
                                    work,
                                    pos,
                                    phase: ScanPhase::ArrayLength,
                                    found,
                                },
                            )
                        } else {
                            Self::advance(object_type, object_instance, work, pos, found)
                        }
                    },
                    ScanPhase::ArrayLength => Self::advance(
                        object_type,
                        object_instance,
                        work,
                        pos,
                        found,
                    ),
                    ScanPhase::ArrayElements { len, next, items } => {
                        if next < len {
                            ScanStep::Next(
                                PropertyScan {
                                    object_type,
                                    object_instance,
                                    work,
                                    pos,
                                    phase: ScanPhase::ArrayElements { len, next: next + 1, items },
                                    found,
                                },
                            )
                        } else {
                            Self::keep_array(object_type, object_instance, work, pos, found, items)
                        }
                    },
                }
            },
            Ok(value) => match phase {
                ScanPhase::Scalar => {
                    let ghost before = found@;
                    found.insert(property_id, value);
                    proof {
                        lemma_insert_view(before, property_id, value);
                    }
                    Self::advance(object_type, object_instance, work, pos, found)
                },
                ScanPhase::ArrayLength => {
                    let length: Option<u32> = match value {
                        BACnetValue::Uint(n) => if n < BACNET_ARRAY_ALL as u64 {
                            Some(n as u32)
                        } else {
                            None
                        },
                        _ => None,
                    };
                    match length {
                        None => Self::advance(object_type, object_instance, work, pos, found),
                        Some(len) => {
                            let items: Vec<BACnetValue> = Vec::new();
                            assert(values_view(items@) =~= Seq::empty());
                            if len == 0 {
                                Self::keep_array(
                                    object_type,
                                    object_instance,
                                    work,
                                    pos,
                                    found,
                                    items,
                                )
                            } else {
                                ScanStep::Next(
                                    PropertyScan {
                                        object_type,
                                        object_instance,
                                        work,
                                        pos,
                                        phase: ScanPhase::ArrayElements { len, next: 1, items },
                                        found,
                                    },
                                )
                            }
                        },
                    }
                },
                ScanPhase::ArrayElements { len, next, items } => {
                    let mut items = items;
                    let ghost items_before = items@;
                    items.push(value);
                    assert(values_view(items@) =~= values_view(items_before).push(value@));
                    if next < len {
                        ScanStep::Next(
                            PropertyScan {
                                object_type,
                                object_instance,
                                work,
                                pos,
                                phase: ScanPhase::ArrayElements { len, next: next + 1, items },
                                found,
                            },
                        )
                    } else {
                        Self::keep_array(object_type, object_instance, work, pos, found, items)
                    }
                },
            },
        }
    }
}

/// The view of a map after an insertion is the view of the map before it
/// with the view of the value inserted.
proof fn lemma_insert_view(found: Map<u32, BACnetValue>, property_id: u32, value: BACnetValue)
    ensures
        properties_view(found.insert(property_id, value)) == properties_view(found).insert(
            property_id,
            value@,
        ),
{
    assert(properties_view(found.insert(property_id, value)) =~= properties_view(found).insert(
        property_id,
        value@,
    ));
}

/// The scan after a run of reads with these outcomes, one after the other.
/// Outcomes that come after the scan has ended change nothing.
pub open spec fn run(step: ScanStepView, outcomes: Seq<Result<ValueView, ErrView>>) -> ScanStepView
    decreases outcomes.len(),
{
    if outcomes.len() == 0 {
        step
    } else {
        match step {
            ScanStepView::Next(scan) => run(scan.record(outcomes[0]), outcomes.drop_first()),
            _ => step,
        }
    }
}

/// The values of the reads that succeeded, in the order of the reads.
pub open spec fn read_values(outcomes: Seq<Result<ValueView, ErrView>>) -> Seq<ValueView>
    decreases outcomes.len(),
{
    if outcomes.len() == 0 {
        Seq::empty()
    } else {
        let rest = read_values(outcomes.drop_first());
        match outcomes[0] {
            Ok(v) => seq![v] + rest,
            Err(_) => rest,
        }
    }
}

/// Whether an outcome is a timeout.
pub open spec fn timed_out(outcome: Result<ValueView, ErrView>) -> bool {
    outcome matches Err(e) && e.is_timeout()
}

/// A read that times out ends the scan with that timeout, wherever the scan
/// stands.
pub proof fn lemma_timeout_ends_scan(scan: ScanView, err: ErrView)
    requires
        err.is_timeout(),
    ensures
        scan.record(Err(err)) == ScanStepView::Failed(err),
{
}

/// Nothing but a timeout ends a scan: after any other outcome the scan goes
/// on or is done, and stays well formed.
pub proof fn lemma_only_timeout_ends_scan(scan: ScanView, outcome: Result<ValueView, ErrView>)
    requires
        scan.wf(),
        !timed_out(outcome),
    ensures
        !(scan.record(outcome) is Failed),
        scan.record(outcome) matches ScanStepView::Next(next) ==> next.wf(),
{
}

/// A property whose read fails is left out and the scan moves on: a required
/// property after any error but a timeout, an optional one after any error
/// but a timeout and the abort that asks for a read by elements.
pub proof fn lemma_failed_read_is_left_out(scan: ScanView, err: ErrView)
    requires
        scan.phase is Scalar,
        !err.is_timeout(),
        scan.work[scan.pos].optional ==> !(err matches ErrView::Aborted { code, .. } && code
            == ABORT_REASON_SEGMENTATION_NOT_SUPPORTED),
    ensures
        scan.record(Err(err)) == scan.advance(scan.found),
{
}

/// While the elements of an array are read, each outcome but a timeout adds
/// its value, if it has one, and the array is kept once the last element was
/// asked for.
proof fn lemma_array_elements(scan: ScanView, outcomes: Seq<Result<ValueView, ErrView>>)
    requires
        scan.wf(),
        scan.phase is ArrayElements,
        outcomes.len() == scan.phase->len - scan.phase->next + 1,
        forall|i: int| 0 <= i < outcomes.len() ==> !timed_out(#[trigger] outcomes[i]),
    ensures
        run(ScanStepView::Next(scan), outcomes) == scan.advance(
            scan.found.insert(
                scan.property_id(),
                ValueView::Array(scan.phase->items + read_values(outcomes)),
            ),
        ),
    decreases outcomes.len(),
{
    let first = outcomes[0];
    let rest = outcomes.drop_first();
    let after = scan.record(first);
    let items = match first {
        Ok(v) => scan.phase->items.push(v),
        Err(_) => scan.phase->items,
    };
    assert(!timed_out(first));
    assert(items + read_values(rest) =~= scan.phase->items + read_values(outcomes));
    if scan.phase->next < scan.phase->len {
        let next = after->Next_0;
        assert forall|i: int| 0 <= i < rest.len() implies !timed_out(#[trigger] rest[i]) by {
            assert(rest[i] == outcomes[i + 1]);
        }
        lemma_array_elements(next, rest);
    } else {
        assert(rest.len() == 0);
        assert(read_values(rest) =~= Seq::empty());
        assert(items + read_values(rest) =~= items);
    }
}

/// An optional property that the device cannot send in one message is read
/// by its elements. After the abort that says so, a length `len` and `len`
/// reads of elements of which none times out, the property is found as the
/// array of the elements that could be read, in their order, and the scan
/// has moved on. An element whose read fails is left out of the array.
pub proof fn lemma_array_fallback(
    scan: ScanView,
    text: Seq<char>,
    len: u64,
    elements: Seq<Result<ValueView, ErrView>>,
)
    requires
        scan.wf(),
        scan.phase is Scalar,
        scan.work[scan.pos].optional,
        len < BACNET_ARRAY_ALL,
        elements.len() == len,
        forall|i: int| 0 <= i < elements.len() ==> !timed_out(#[trigger] elements[i]),
    ensures
        run(
            ScanStepView::Next(scan),
            seq![
                Err(ErrView::Aborted { text, code: ABORT_REASON_SEGMENTATION_NOT_SUPPORTED }),
                Ok(ValueView::Uint(len)),
            ] + elements,
        ) == scan.advance(
            scan.found.insert(scan.property_id(), ValueView::Array(read_values(elements))),
        ),
{
    let abort: Result<ValueView, ErrView> = Err(
        ErrView::Aborted { text, code: ABORT_REASON_SEGMENTATION_NOT_SUPPORTED },
    );
    let length: Result<ValueView, ErrView> = Ok(ValueView::Uint(len));
    let all = seq![abort, length] + elements;
    let tail = seq![length] + elements;
    assert(all.drop_first() =~= tail);
    assert(tail.drop_first() =~= elements);
    let asked = ScanView { phase: ScanPhaseView::ArrayLength, ..scan };
    assert(scan.record(abort) == ScanStepView::Next(asked));
    assert(run(ScanStepView::Next(scan), all) == run(ScanStepView::Next(asked), tail));
    assert(run(ScanStepView::Next(asked), tail) == run(asked.record(length), elements));
    if len == 0 {
        assert(elements =~= Seq::empty());
        assert(read_values(elements) =~= Seq::empty());
    } else {
        let reading = asked.record(length)->Next_0;
        lemma_array_elements(reading, elements);
        assert(Seq::<ValueView>::empty() + read_values(elements) =~= read_values(elements));
    }
}

/// The outcomes of reads that all succeed, with these values.
pub open spec fn successes(values: Seq<ValueView>) -> Seq<Result<ValueView, ErrView>> {
    Seq::new(values.len(), |i: int| Ok(values[i]))
}

/// The values found once each of these properties was read whole, with
/// these values in turn. A later value of a property replaces an earlier one.
pub open spec fn with_values(
    found: Map<u32, ValueView>,
    work: Seq<ScanItem>,
    values: Seq<ValueView>,
) -> Map<u32, ValueView>
    decreases work.len(),
{
    if work.len() == 0 || values.len() == 0 {
        found
    } else {
        with_values(
            found.insert(work[0].property_id, values[0]),
            work.drop_first(),
            values.drop_first(),
        )
    }
}

/// Where every read succeeds, a scan finds every property on its list: after
/// as many values as properties are left, the scan is done, and each of
/// these properties has the value that was read for it.
pub proof fn lemma_scan_of_readable_properties(scan: ScanView, values: Seq<ValueView>)
    requires
        scan.wf(),
        scan.phase is Scalar,
        values.len() == scan.work.len() - scan.pos,
    ensures
        run(ScanStepView::Next(scan), successes(values)) == ScanStepView::Done(
            with_values(scan.found, scan.work.skip(scan.pos), values),
        ),
    decreases values.len(),
{
    let outcomes = successes(values);
    let left = scan.work.skip(scan.pos);
    assert(outcomes[0] == Ok::<ValueView, ErrView>(values[0]));
    assert(outcomes.drop_first() =~= successes(values.drop_first()));
    assert(left[0] == scan.work[scan.pos]);
    let found = scan.found.insert(scan.property_id(), values[0]);
    if scan.pos + 1 < scan.work.len() {
        let next = scan.record(outcomes[0])->Next_0;
        assert(left.drop_first() =~= next.work.skip(next.pos));
        lemma_scan_of_readable_properties(next, values.drop_first());
    } else {
        assert(values.drop_first().len() == 0);
        assert(with_values(found, left.drop_first(), values.drop_first()) == found);
    }
}

} // verus!
